//! The claims that a module carries, and the interface of the codec that
//! turns them into signed tokens and back.
use vstd::prelude::*;
use nkeys::KeyPair;

verus! {

/// The lowest claims revision whose recorded module hash is enforced.
/// Claims of an earlier revision predate the current hashing scheme, and a
/// mismatching hash in them is tolerated for compatibility.
pub const MIN_WASCAP_INTERNAL_REVISION: u32 = 3;

/// The claims revision that this library writes.
pub const WASCAP_INTERNAL_REVISION: u32 = 3;

#[verifier::external_type_specification]
#[verifier::external_body]
pub struct ExKeyPair(nkeys::KeyPair);

/// What a module claims about itself.
#[derive(Clone, Debug)]
pub struct Actor {
    /// A friendly name for the module.
    pub name: Option<String>,
    /// The canonical hash of the module, in upper-case hex.
    pub module_hash: String,
    /// Free-form tags.
    pub tags: Option<Vec<String>>,
    /// The capabilities that the module asks for.
    pub caps: Option<Vec<String>>,
    /// The module's revision.
    pub rev: Option<i32>,
    /// The module's version string.
    pub ver: Option<String>,
    /// Whether the module is a capability provider.
    pub provider: bool,
    /// An alias under which the module may be called.
    pub call_alias: Option<String>,
}

/// A claims record: who issued it, about what, when, and what is claimed.
#[derive(Clone, Debug)]
pub struct Claims {
    /// When the claims expire, in seconds since the Unix epoch.
    pub expires: Option<u64>,
    /// An identifier of this record.
    pub id: String,
    /// When the claims were issued, in seconds since the Unix epoch.
    pub issued_at: u64,
    /// The public key of the issuer.
    pub issuer: String,
    /// The public key (or name) of the subject.
    pub subject: String,
    /// The time before which the claims do not hold.
    pub not_before: Option<u64>,
    /// What the module claims; a record without it cannot be verified.
    pub metadata: Option<Actor>,
    /// The revision of the claims format.
    pub wascap_revision: Option<u32>,
}

/// A signed token as found in a module, with the claims it decodes to.
#[derive(Clone, Debug)]
pub struct Token {
    /// The encoded token text.
    pub jwt: String,
    /// The decoded claims.
    pub claims: Claims,
}

/// Turns claims into signed token text and back. The encoding, the
/// signature scheme and the check of a token's signature are the codec's.
pub trait ClaimsCodec {
    /// Decodes token text and checks its signature.
    fn decode(&self, jwt: &str) -> Result<Claims, String>;

    /// Encodes claims into token text signed with `kp`.
    fn encode(&self, claims: &Claims, kp: &KeyPair) -> Result<String, String>;
}

/// The mathematical value of an [`Actor`].
pub struct ActorView {
    pub name: Option<Seq<char>>,
    pub module_hash: Seq<char>,
    pub tags: Option<Seq<Seq<char>>>,
    pub caps: Option<Seq<Seq<char>>>,
    pub rev: Option<i32>,
    pub ver: Option<Seq<char>>,
    pub provider: bool,
    pub call_alias: Option<Seq<char>>,
}

/// The mathematical value of a [`Claims`] record.
pub struct ClaimsView {
    pub expires: Option<u64>,
    pub id: Seq<char>,
    pub issued_at: u64,
    pub issuer: Seq<char>,
    pub subject: Seq<char>,
    pub not_before: Option<u64>,
    pub metadata: Option<ActorView>,
    pub wascap_revision: Option<u32>,
}

/// The characters of an optional string.
pub open spec fn text_view(s: Option<String>) -> Option<Seq<char>> {
    match s {
        Some(t) => Some(t@),
        None => None,
    }
}

/// The characters of each string of an optional list.
pub open spec fn list_view(l: Option<Vec<String>>) -> Option<Seq<Seq<char>>> {
    match l {
        Some(v) => Some(v.deep_view()),
        None => None,
    }
}

impl View for Actor {
    type V = ActorView;

    open spec fn view(&self) -> ActorView {
        ActorView {
            name: text_view(self.name),
            module_hash: self.module_hash@,
            tags: list_view(self.tags),
            caps: list_view(self.caps),
            rev: self.rev,
            ver: text_view(self.ver),
            provider: self.provider,
            call_alias: text_view(self.call_alias),
        }
    }
}

impl View for Claims {
    type V = ClaimsView;

    open spec fn view(&self) -> ClaimsView {
        ClaimsView {
            expires: self.expires,
            id: self.id@,
            issued_at: self.issued_at,
            issuer: self.issuer@,
            subject: self.subject@,
            not_before: self.not_before,
            metadata: match self.metadata {
                Some(a) => Some(a@),
                None => None,
            },
            wascap_revision: self.wascap_revision,
        }
    }
}

/// The claims with the module hash in their metadata replaced by `hash`,
/// everything else kept.
pub open spec fn with_module_hash(claims: ClaimsView, hash: Seq<char>) -> ClaimsView {
    ClaimsView {
        metadata: match claims.metadata {
            Some(a) => Some(ActorView { module_hash: hash, ..a }),
            None => None,
        },
        ..claims
    }
}

/// The claims revision, an absent one counting as zero.
pub open spec fn revision_of(claims: Claims) -> u32 {
    match claims.wascap_revision {
        Some(r) => r,
        None => 0,
    }
}

fn clone_text(s: &Option<String>) -> (r: Option<String>)
    ensures
        r == *s,
{
    match s {
        Some(t) => Some(t.clone()),
        None => None,
    }
}

fn clone_list(l: &Option<Vec<String>>) -> (r: Option<Vec<String>>)
    ensures
        list_view(r) == list_view(*l),
{
    match l {
        Some(v) => {
            let c = v.clone();
            assert(c.deep_view() =~= v.deep_view());
            Some(c)
        },
        None => None,
    }
}

impl Actor {
    /// A copy of the metadata.
    pub fn duplicate(&self) -> (r: Actor)
        ensures
            r@ == self@,
    {
        Actor {
            name: clone_text(&self.name),
            module_hash: self.module_hash.clone(),
            tags: clone_list(&self.tags),
            caps: clone_list(&self.caps),
            rev: self.rev,
            ver: clone_text(&self.ver),
            provider: self.provider,
            call_alias: clone_text(&self.call_alias),
        }
    }
}

impl Claims {
    /// A copy of the claims.
    pub fn duplicate(&self) -> (r: Claims)
        ensures
            r@ == self@,
    {
        Claims {
            expires: self.expires,
            id: self.id.clone(),
            issued_at: self.issued_at,
            issuer: self.issuer.clone(),
            subject: self.subject.clone(),
            not_before: self.not_before,
            metadata: match &self.metadata {
                Some(a) => Some(a.duplicate()),
                None => None,
            },
            wascap_revision: self.wascap_revision,
        }
    }
}

impl Actor {
    /// Metadata with the given fields and an empty module hash.
    pub fn new(
        name: String,
        caps: Option<Vec<String>>,
        tags: Option<Vec<String>>,
        provider: bool,
        rev: Option<i32>,
        ver: Option<String>,
        call_alias: Option<String>,
    ) -> (r: Actor)
        ensures
            r == (Actor {
                name: Some(name),
                module_hash: r.module_hash,
                tags,
                caps,
                rev,
                ver,
                provider,
                call_alias,
            }),
            r.module_hash@.len() == 0,
    {
        Actor { name: Some(name), module_hash: String::new(), tags, caps, rev, ver, provider, call_alias }
    }
}

impl Claims {
    /// Claims about a module, issued at `issued_at`, of the current
    /// revision, with an empty identifier.
    pub fn with_dates(
        name: String,
        issuer: String,
        subject: String,
        caps: Option<Vec<String>>,
        tags: Option<Vec<String>>,
        not_before: Option<u64>,
        expires: Option<u64>,
        provider: bool,
        rev: Option<i32>,
        ver: Option<String>,
        call_alias: Option<String>,
        issued_at: u64,
    ) -> (r: Claims)
        ensures
            r.issuer == issuer,
            r.subject == subject,
            r.not_before == not_before,
            r.expires == expires,
            r.issued_at == issued_at,
            r.id@.len() == 0,
            r.wascap_revision == Some(WASCAP_INTERNAL_REVISION),
            r.metadata matches Some(a) && a == (Actor {
                name: Some(name),
                module_hash: a.module_hash,
                tags,
                caps,
                rev,
                ver,
                provider,
                call_alias,
            }) && a.module_hash@.len() == 0,
    {
        Claims {
            expires,
            id: String::new(),
            issued_at,
            issuer,
            subject,
            not_before,
            metadata: Some(Actor::new(name, caps, tags, provider, rev, ver, call_alias)),
            wascap_revision: Some(WASCAP_INTERNAL_REVISION),
        }
    }
}

/// Relies on nkeys::KeyPair::public_key: the key pair's encoded public key.
#[verifier::external_body]
pub(crate) fn public_key_of(kp: &KeyPair) -> String {
    kp.public_key()
}

} // verus!
