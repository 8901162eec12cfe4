//! Extracting claims from a module and embedding signed claims in one.
use vstd::prelude::*;
use vstd::slice::{slice_subrange, slice_to_vec};
use vstd::string::StringSliceAdditionalSpecFns;
use vstd::utf8::{decode_utf8, encode_utf8, valid_utf8};
use nkeys::KeyPair;
use crate::errors::ErrorKind;
use crate::hash::{
    canonical_hash, claim_section_name, hash_input, hash_of_scan, hashable,
    hashed_bytes, is_claim_name, is_claim_section, is_claim_section_name, module_hash, module_hashable, views_hash,
};
use crate::jwt::{
    public_key_of, revision_of, with_module_hash, Claims, ClaimsCodec, Token,
    MIN_WASCAP_INTERNAL_REVISION,
};
use crate::sections::{module_parses, module_payloads, scan_module, scan_views, Scan, Section, SectionView};
use std::time::{SystemTime, UNIX_EPOCH};

verus! {

/// Seconds in a day.
pub const SECS_PER_DAY: u64 = 86400;

/// The unsigned LEB128 encoding of `n`.
pub open spec fn leb128(n: nat) -> Seq<u8>
    decreases n,
{
    if n < 128 {
        seq![n as u8]
    } else {
        seq![(n % 128 + 128) as u8] + leb128(n / 128)
    }
}

/// The bytes of a custom section with the given name and content: the
/// section id zero, the LEB128 size of the rest, the LEB128 length of the
/// name, the name, and the content.
pub open spec fn custom_section_bytes(name: Seq<u8>, content: Seq<u8>) -> Seq<u8> {
    let payload = leb128(name.len()) + name + content;
    seq![0u8] + leb128(payload.len()) + payload
}

/// The time `days` days after `now`, in seconds, held at the largest
/// `u64` where it would pass it.
pub open spec fn days_after(now: u64, days: u64) -> u64 {
    let t = now + days * SECS_PER_DAY;
    if t > u64::MAX {
        u64::MAX
    } else {
        t as u64
    }
}

#[verifier::external_type_specification]
#[verifier::external_body]
pub struct ExSystemTime(std::time::SystemTime);

/// Relies on SystemTime::now: the current wall-clock time, of which nothing
/// is known.
#[verifier::external_body]
fn system_now() -> SystemTime {
    SystemTime::now()
}

/// Relies on SystemTime::duration_since(UNIX_EPOCH): the whole seconds from
/// the Unix epoch to `t`, or `None` where `t` lies before it.
#[verifier::external_body]
fn seconds_since_epoch(t: &SystemTime) -> Option<u64> {
    t.duration_since(UNIX_EPOCH).ok().map(|d| d.as_secs())
}

/// Relies on String::from_utf8: succeeds exactly on valid UTF-8, with the
/// characters that the bytes encode.
#[verifier::external_body]
fn utf8_string(bytes: Vec<u8>) -> (r: Option<String>)
    ensures
        r is Some <==> valid_utf8(bytes@),
        r matches Some(s) ==> s@ == decode_utf8(bytes@),
{
    String::from_utf8(bytes).ok()
}

/// Relies on wasm_gen::write_custom_section: appends the section id zero,
/// the LEB128 size of the rest, the LEB128 byte length of the name, the
/// name's bytes and the content's bytes.
#[verifier::external_body]
fn append_custom_section(bytes: &mut Vec<u8>, name: &str, content: &str)
    ensures
        final(bytes)@ == old(bytes)@ + custom_section_bytes(name.spec_bytes(), content.spec_bytes()),
{
    wasm_gen::write_custom_section(bytes, name, content.as_bytes())
}

/// Whether `i` is the position of the first claim section among `secs`.
pub open spec fn is_first_claim(secs: Seq<SectionView>, i: int) -> bool {
    &&& 0 <= i < secs.len()
    &&& is_claim_section(secs[i])
    &&& forall|j: int| 0 <= j < i ==> !is_claim_section(#[trigger] secs[j])
}

/// Whether any of `secs` is a claim section.
pub open spec fn has_claim_section(secs: Seq<SectionView>) -> bool {
    exists|i: int| 0 <= i < secs.len() && is_claim_section(#[trigger] secs[i])
}

/// The payload of a custom section.
pub open spec fn custom_data(s: SectionView) -> Seq<u8> {
    match s {
        SectionView::Custom { data, .. } => data,
        _ => Seq::empty(),
    }
}

/// Whether decoded claims pass the hash check against a module whose
/// canonical hash is `hash`: their recorded hash must match unless their
/// revision predates enforcement.
pub open spec fn hash_accepted(claims: Claims, hash: Seq<char>) -> bool {
    match claims.metadata {
        None => false,
        Some(meta) => meta.module_hash@ == hash || revision_of(claims) < MIN_WASCAP_INTERNAL_REVISION,
    }
}

/// The outcome of extraction once the token text `jwt` was found and the
/// codec returned `decoded` for it, in a module that yields a canonical
/// hash (`hash`) exactly when `hashable` holds.
pub open spec fn decoded_outcome(
    jwt: String,
    decoded: Result<Claims, String>,
    hashable: bool,
    hash: Seq<char>,
) -> Result<Option<Token>, ErrorKind> {
    match decoded {
        Err(_) => Err(ErrorKind::InvalidToken),
        Ok(claims) => if claims.metadata is None {
            Err(ErrorKind::InvalidAlgorithm)
        } else if !hashable {
            Err(ErrorKind::MalformedContainer)
        } else if !hash_accepted(claims, hash) {
            Err(ErrorKind::InvalidModuleHash)
        } else {
            Ok(Some(Token { jwt, claims }))
        },
    }
}

/// What extraction yields from payloads `secs` (complete when `complete`),
/// given the codec's answer `decoded` for the first claim section's text.
pub open spec fn extraction_allows(
    secs: Seq<SectionView>,
    complete: bool,
    hashable: bool,
    hash: Seq<char>,
    r: Result<Option<Token>, ErrorKind>,
) -> bool {
    &&& !has_claim_section(secs) ==> r == (if complete {
        Ok::<Option<Token>, ErrorKind>(None)
    } else {
        Err::<Option<Token>, ErrorKind>(ErrorKind::MalformedContainer)
    })
    &&& forall|i: int| #[trigger]
        is_first_claim(secs, i) ==> {
            let data = custom_data(secs[i]);
            &&& !valid_utf8(data) ==> r == Err::<Option<Token>, ErrorKind>(ErrorKind::Encoding)
            &&& valid_utf8(data) ==> exists|jwt: String, decoded: Result<Claims, String>|
                jwt@ == decode_utf8(data) && r == decoded_outcome(jwt, decoded, hashable, hash)
        }
}

/// The custom section that carries `token` under the current claim name.
pub open spec fn claim_section_bytes(token: Seq<char>) -> Seq<u8> {
    custom_section_bytes(claim_section_name(), encode_utf8(token))
}

/// The start of the run of bytes with the high bit set that ends just
/// before position `p`: where a LEB128 number whose last byte is at `p`
/// begins.
pub open spec fn run_start(b: Seq<u8>, p: int) -> int
    decreases p,
{
    if 0 < p <= b.len() && b[p - 1] >= 128 {
        run_start(b, p - 1)
    } else {
        p
    }
}

/// Where the claim section `v` of module `b` lies, as the positions of its
/// id byte and of its end, where it is a claim section that starts at or
/// after `from`. The section id and the two LEB128 numbers (its size and
/// its name's length) are found by walking back from the name.
pub open spec fn claim_span(b: Seq<u8>, v: SectionView, from: int) -> Option<(int, int)> {
    match v {
        SectionView::Custom { name, data, offset } => {
            let end = offset + data.len();
            let name_start = offset - name.len();
            let size_end = run_start(b, name_start - 1);
            let start = run_start(b, size_end - 1) - 1;
            if is_claim_section_name(name) && 2 <= name_start && 2 <= size_end && from <= start && end
                <= b.len() && b[start] == 0 {
                Some((start, end))
            } else {
                None
            }
        },
        _ => None,
    }
}

/// The larger of two positions.
pub open spec fn later(a: int, b: int) -> int {
    if a < b {
        b
    } else {
        a
    }
}

/// The bytes of `b` from position `from` on, without the top-level claim
/// sections among the payloads `secs` from index `i` on. Nested modules
/// keep theirs: `floor` is where the last nested module seen so far ends,
/// and a claim section is only dropped where it starts at or after it.
pub open spec fn without_claims(b: Seq<u8>, secs: Seq<SectionView>, i: int, from: int, floor: int) -> Seq<
    u8,
>
    decreases secs.len() - i,
{
    if i >= secs.len() || i < 0 {
        b.subrange(from, b.len() as int)
    } else {
        match secs[i] {
            SectionView::Nested { end, .. } => {
                let f = later(floor, end);
                without_claims(b, secs, i + 1, from, if f > b.len() { b.len() as int } else { f })
            },
            _ => match claim_span(b, secs[i], later(from, floor)) {
                Some((s, e)) => b.subrange(from, s) + without_claims(b, secs, i + 1, e, floor),
                None => without_claims(b, secs, i + 1, from, floor),
            },
        }
    }
}

/// A module's bytes without the claim sections that it carries.
pub open spec fn unsigned_module(b: Seq<u8>) -> Seq<u8> {
    without_claims(b, module_payloads(b), 0, 0, 0)
}

/// A bound in days from `now`, as absolute seconds.
pub open spec fn jwt_time(now: u64, stamp: Option<u64>) -> Option<u64> {
    match stamp {
        Some(d) => Some(days_after(now, d)),
        None => None,
    }
}

/// Finds the first section, in scan order, that carries claims.
pub fn find_claim_section(secs: &Vec<Section>) -> (r: Option<usize>)
    ensures
        r matches Some(i) ==> is_first_claim(secs@.map_values(|s: Section| s@), i as int),
        r is None <==> !has_claim_section(secs@.map_values(|s: Section| s@)),
{
    let ghost views = secs@.map_values(|s: Section| s@);
    let mut i: usize = 0;
    while i < secs.len()
        invariant
            i <= secs@.len(),
            views == secs@.map_values(|s: Section| s@),
            forall|j: int| 0 <= j < i ==> !is_claim_section(#[trigger] views[j]),
        decreases secs@.len() - i,
    {
        match &secs[i] {
            Section::Custom { name, .. } => {
                if is_claim_name(name) {
                    return Some(i);
                }
            },
            _ => {},
        }
        i = i + 1;
    }
    None
}

/// Checks decoded claims that carry metadata against the canonical hash
/// `hash` of the module that carried them.
pub fn check_claims(jwt: String, claims: Claims, hash: &String) -> (r: Result<Token, ErrorKind>)
    ensures
        claims.metadata is None ==> r == Err::<Token, ErrorKind>(ErrorKind::InvalidAlgorithm),
        claims.metadata is Some && hash_accepted(claims, hash@) ==> r == Ok::<Token, ErrorKind>(
            Token { jwt, claims },
        ),
        claims.metadata is Some && !hash_accepted(claims, hash@) ==> r == Err::<Token, ErrorKind>(
            ErrorKind::InvalidModuleHash,
        ),
{
    let enforced = match claims.wascap_revision {
        Some(rev) => rev >= MIN_WASCAP_INTERNAL_REVISION,
        None => 0 >= MIN_WASCAP_INTERNAL_REVISION,
    };
    let outcome = match &claims.metadata {
        None => Err(ErrorKind::InvalidAlgorithm),
        Some(meta) => if meta.module_hash != *hash && enforced {
            Err(ErrorKind::InvalidModuleHash)
        } else {
            Ok(())
        },
    };
    match outcome {
        Err(e) => Err(e),
        Ok(()) => Ok(Token { jwt, claims }),
    }
}

/// Decides extraction once the token text has been found in a scanned
/// module and handed to the codec, whose answer is `decoded`.
pub fn check_decoded(jwt: String, decoded: Result<Claims, String>, scan: &Scan) -> (r: Result<
    Option<Token>,
    ErrorKind,
>)
    ensures
        r == decoded_outcome(jwt, decoded, hashable(*scan), canonical_hash(*scan)),
{
    match decoded {
        Err(_) => Err(ErrorKind::InvalidToken),
        Ok(claims) => {
            if claims.metadata.is_none() {
                return Err(ErrorKind::InvalidAlgorithm);
            }
            let hash = match hash_of_scan(scan) {
                Ok(h) => h,
                Err(e) => {
                    return Err(e);
                },
            };
            match check_claims(jwt, claims, &hash) {
                Ok(t) => Ok(Some(t)),
                Err(e) => Err(e),
            }
        },
    }
}

/// Extracts the claims of a scanned module, decoding the first claim
/// section with `codec`.
pub fn claims_from_scan<C: ClaimsCodec>(scan: &Scan, codec: &C) -> (r: Result<
    Option<Token>,
    ErrorKind,
>)
    ensures
        extraction_allows(scan_views(*scan), scan.complete, hashable(*scan), canonical_hash(*scan), r),
{
    let ghost views = scan_views(*scan);
    match find_claim_section(&scan.sections) {
        None => if scan.complete {
            Ok(None)
        } else {
            Err(ErrorKind::MalformedContainer)
        },
        Some(i) => {
            let data = match &scan.sections[i] {
                Section::Custom { data, .. } => data.clone(),
                _ => {
                    return Err(ErrorKind::MalformedContainer);
                },
            };
            assert(data@ == custom_data(views[i as int]));
            assert(forall|j: int| #[trigger] is_first_claim(views, j) ==> j == i);
            let jwt = match utf8_string(data) {
                Some(s) => s,
                None => {
                    return Err(ErrorKind::Encoding);
                },
            };
            let decoded = codec.decode(jwt.as_str());
            check_decoded(jwt, decoded, scan)
        },
    }
}

/// Extracts the claims embedded in a module. Returns `Ok(None)` where the
/// module has no claim section; otherwise decodes the first one with
/// `codec` and checks its recorded hash against the module's own.
pub fn extract_claims<C: ClaimsCodec>(contents: &[u8], codec: &C) -> (r: Result<
    Option<Token>,
    ErrorKind,
>)
    ensures
        extraction_allows(
            module_payloads(contents@),
            module_parses(contents@),
            module_hashable(contents@),
            module_hash(contents@),
            r,
        ),
{
    let scan = scan_module(contents);
    claims_from_scan(&scan, codec)
}

/// The claims to sign for a module whose canonical hash is `hash`: a copy
/// of `claims` with that hash recorded in their metadata.
pub fn stamp_module_hash(claims: &Claims, hash: String) -> (r: Claims)
    ensures
        r@ == with_module_hash(claims@, hash@),
{
    let mut c = claims.duplicate();
    match c.metadata {
        Some(a) => {
            c.metadata = Some(crate::jwt::Actor { module_hash: hash, ..a });
        },
        None => {},
    }
    c
}

/// Where the LEB128 number whose last byte is at `p` begins.
fn find_run_start(b: &[u8], p: usize) -> (r: usize)
    requires
        p <= b@.len(),
    ensures
        r as int == run_start(b@, p as int),
        r <= p,
{
    let mut j = p;
    while j > 0 && b[j - 1] >= 128
        invariant
            j <= p <= b@.len(),
            run_start(b@, j as int) == run_start(b@, p as int),
        decreases j,
    {
        j = j - 1;
    }
    j
}

/// Where a claim section lies in `b`, as in `claim_span`.
fn find_claim_span(b: &[u8], v: &Section, from: usize) -> (r: Option<(usize, usize)>)
    requires
        from <= b@.len(),
    ensures
        r matches Some((s, e)) ==> claim_span(b@, v@, from as int) == Some((s as int, e as int)) && from
            <= s <= e <= b@.len(),
        r is None ==> claim_span(b@, v@, from as int) is None,
{
    match v {
        Section::Custom { name, data, offset } => {
            if !is_claim_name(name) || *offset < name.len() || data.len() > b.len() || *offset > b.len()
                - data.len() {
                return None;
            }
            let end = *offset + data.len();
            let name_start = *offset - name.len();
            if name_start < 2 {
                return None;
            }
            let size_end = find_run_start(b, name_start - 1);
            if size_end < 2 {
                return None;
            }
            let start = find_run_start(b, size_end - 1);
            if start < 1 || start - 1 < from || b[start - 1] != 0 {
                return None;
            }
            Some((start - 1, end))
        },
        _ => None,
    }
}

/// The module bytes without the claim sections that its payloads `secs`
/// show.
pub fn strip_claim_sections(b: &[u8], secs: &Vec<Section>) -> (r: Vec<u8>)
    ensures
        r@ == without_claims(b@, secs@.map_values(|s: Section| s@), 0, 0, 0),
{
    let ghost views = secs@.map_values(|s: Section| s@);
    let mut out: Vec<u8> = Vec::new();
    let mut from: usize = 0;
    let mut floor: usize = 0;
    let mut i: usize = 0;
    while i < secs.len()
        invariant
            i <= secs@.len(),
            from <= b@.len(),
            floor <= b@.len(),
            views == secs@.map_values(|s: Section| s@),
            out@ + without_claims(b@, views, i as int, from as int, floor as int) == without_claims(
                b@,
                views,
                0,
                0,
                0,
            ),
        decreases secs@.len() - i,
    {
        assert(views[i as int] == secs@[i as int]@);
        if let Section::Nested { end, .. } = &secs[i] {
            let f = if *end > floor { *end } else { floor };
            floor = if f > b.len() { b.len() } else { f };
            i = i + 1;
            continue;
        }
        let lo = if from < floor { floor } else { from };
        match find_claim_span(b, &secs[i], lo) {
            Some((s, e)) => {
                let ghost old_out = out@;
                let piece = slice_to_vec(slice_subrange(b, from, s));
                let mut piece = piece;
                out.append(&mut piece);
                assert(out@ + without_claims(b@, views, i + 1, e as int, floor as int) =~= old_out
                    + without_claims(b@, views, i as int, from as int, floor as int));
                from = e;
            },
            None => {},
        }
        i = i + 1;
    }
    let mut tail = slice_to_vec(slice_subrange(b, from, b.len()));
    out.append(&mut tail);
    out
}

/// What embedding yields for module `b` once the codec has answered
/// `encoded`: `Signing` where it failed, else the module without its claim
/// sections followed by the token's section.
pub open spec fn embedding_matches(b: Seq<u8>, encoded: Result<String, String>, r: Result<Vec<u8>, ErrorKind>) -> bool {
    match encoded {
        Err(_) => r == Err::<Vec<u8>, ErrorKind>(ErrorKind::Signing),
        Ok(t) => r matches Ok(v) && v@ == unsigned_module(b) + claim_section_bytes(t@),
    }
}

/// The module bytes followed by a custom section, under the current claim
/// name, that holds `token`.
pub fn append_token(orig_bytecode: &[u8], token: &String) -> (r: Vec<u8>)
    ensures
        r@ == orig_bytecode@ + claim_section_bytes(token@),
{
    let mut bytes = slice_to_vec(orig_bytecode);
    let name = "wasmcloud_jwt";
    proof {
        reveal_strlit("wasmcloud_jwt");
        vstd::string::is_ascii_spec_bytes(name);
        assert(name.spec_bytes() =~= claim_section_name());
    }
    append_custom_section(&mut bytes, name, token.as_str());
    bytes
}

/// Completes embedding once the codec has answered `encoded` for the
/// claims of module `orig_bytecode`, whose payloads are `secs`: drops the
/// module's top-level claim sections and appends the token, or reports
/// that signing failed.
pub fn finish_embedding(orig_bytecode: &[u8], secs: &Vec<Section>, encoded: Result<String, String>) -> (r: Result<
    Vec<u8>,
    ErrorKind,
>)
    ensures
        encoded is Err ==> r == Err::<Vec<u8>, ErrorKind>(ErrorKind::Signing),
        encoded matches Ok(t) ==> (r matches Ok(v) && v@ == without_claims(
            orig_bytecode@,
            secs@.map_values(|s: Section| s@),
            0,
            0,
            0,
        ) + claim_section_bytes(t@)),
{
    match encoded {
        Err(_) => Err(ErrorKind::Signing),
        Ok(token) => {
            let unsigned = strip_claim_sections(orig_bytecode, secs);
            Ok(append_token(unsigned.as_slice(), &token))
        },
    }
}

/// Embeds claims in a module: records the module's canonical hash in them,
/// has `codec` sign them with `kp`, drops the claim sections that the
/// module already carries, and appends the token in a custom section named
/// `wasmcloud_jwt`. The input is left as it is.
pub fn embed_claims<C: ClaimsCodec>(
    orig_bytecode: &[u8],
    claims: &Claims,
    kp: &KeyPair,
    codec: &C,
) -> (r: Result<Vec<u8>, ErrorKind>)
    ensures
        !module_hashable(orig_bytecode@) ==> r == Err::<Vec<u8>, ErrorKind>(ErrorKind::MalformedContainer),
        module_hashable(orig_bytecode@) ==> exists|encoded: Result<String, String>|
            embedding_matches(orig_bytecode@, encoded, r),
{
    let scan = scan_module(orig_bytecode);
    assert(scan.sections@.map_values(|s: Section| s@) =~= scan_views(scan));
    let hash = match hash_of_scan(&scan) {
        Ok(h) => h,
        Err(e) => {
            return Err(e);
        },
    };
    let stamped = stamp_module_hash(claims, hash);
    let encoded = codec.encode(&stamped, kp);
    let ghost answer = encoded;
    let r = finish_embedding(orig_bytecode, &scan.sections, encoded);
    assert(embedding_matches(orig_bytecode@, answer, r));
    r
}

/// The absolute time, in seconds since the epoch, that lies `stamp` days
/// after `now`; `None` where there is no bound.
pub fn days_from_to_jwt_time(now: u64, stamp: Option<u64>) -> (r: Option<u64>)
    ensures
        r == jwt_time(now, stamp),
{
    match stamp {
        None => None,
        Some(d) => match d.checked_mul(SECS_PER_DAY) {
            Some(secs) => Some(now.saturating_add(secs)),
            None => Some(u64::MAX),
        },
    }
}

/// The current time in whole seconds since the epoch; a clock that reads
/// before the epoch counts as the epoch.
fn now_seconds() -> u64 {
    match seconds_since_epoch(&system_now()) {
        Some(s) => s,
        None => 0,
    }
}

/// Converts a bound given in days from now into an absolute time in
/// seconds since the epoch; `None` stays `None`.
pub fn days_from_now_to_jwt_time(stamp: Option<u64>) -> (r: Option<u64>)
    ensures
        exists|now: u64| r == jwt_time(now, stamp),
{
    days_from_to_jwt_time(now_seconds(), stamp)
}

/// The claims that signing a module records, read at time `now`: issued
/// by `issuer` about `subject`, with the given capabilities, tags and
/// metadata, and with bounds that lie the given numbers of days after `now`.
pub fn claims_for_module(
    name: String,
    issuer: String,
    subject: String,
    now: u64,
    expires_in_days: Option<u64>,
    not_before_days: Option<u64>,
    caps: Vec<String>,
    tags: Vec<String>,
    provider: bool,
    rev: Option<i32>,
    ver: Option<String>,
    call_alias: Option<String>,
) -> (r: Claims)
    ensures
        r.issuer == issuer,
        r.subject == subject,
        r.issued_at == now,
        r.not_before == jwt_time(now, not_before_days),
        r.expires == jwt_time(now, expires_in_days),
        r.wascap_revision == Some(crate::jwt::WASCAP_INTERNAL_REVISION),
        r.id@.len() == 0,
        r.metadata matches Some(a) && a == (crate::jwt::Actor {
            name: Some(name),
            module_hash: a.module_hash,
            tags: Some(tags),
            caps: Some(caps),
            rev,
            ver,
            provider,
            call_alias,
        }) && a.module_hash@.len() == 0,
{
    Claims::with_dates(
        name,
        issuer,
        subject,
        Some(caps),
        Some(tags),
        days_from_to_jwt_time(now, not_before_days),
        days_from_to_jwt_time(now, expires_in_days),
        provider,
        rev,
        ver,
        call_alias,
        now,
    )
}

/// Builds claims for a module from its name, the module's and the
/// account's key pairs and the given bounds and metadata, then embeds them
/// signed with the account's key.
pub fn sign_buffer_with_claims<C: ClaimsCodec>(
    name: String,
    buf: &[u8],
    mod_kp: KeyPair,
    acct_kp: KeyPair,
    expires_in_days: Option<u64>,
    not_before_days: Option<u64>,
    caps: Vec<String>,
    tags: Vec<String>,
    provider: bool,
    rev: Option<i32>,
    ver: Option<String>,
    call_alias: Option<String>,
    codec: &C,
) -> (r: Result<Vec<u8>, ErrorKind>)
    ensures
        !module_hashable(buf@) ==> r == Err::<Vec<u8>, ErrorKind>(ErrorKind::MalformedContainer),
        module_hashable(buf@) ==> exists|encoded: Result<String, String>|
            embedding_matches(buf@, encoded, r),
{
    let claims = claims_for_module(
        name,
        public_key_of(&acct_kp),
        public_key_of(&mod_kp),
        now_seconds(),
        expires_in_days,
        not_before_days,
        caps,
        tags,
        provider,
        rev,
        ver,
        call_alias,
    );
    embed_claims(buf, &claims, &acct_kp, codec)
}

/// A claim section never contributes to the canonical hash: appending one
/// to a module's payloads leaves the hash input, and so the hash, as it was.
pub proof fn lemma_claim_section_leaves_hash(secs: Seq<SectionView>, claim: SectionView)
    requires
        is_claim_section(claim),
    ensures
        hash_input(secs.push(claim)) == hash_input(secs),
        views_hash(secs.push(claim)) == views_hash(secs),
{
    assert(secs.push(claim).drop_last() =~= secs);
    assert(hashed_bytes(claim) =~= Seq::<u8>::empty());
    assert(hash_input(secs) + Seq::<u8>::empty() =~= hash_input(secs));
}

/// Tamper detection: claims of an enforced revision whose recorded hash
/// differs from the module's canonical hash are rejected with
/// `InvalidModuleHash`, whatever the token text.
pub proof fn lemma_tampering_detected(jwt: String, claims: Claims, bytes: Seq<u8>)
    requires
        module_hashable(bytes),
        claims.metadata is Some,
        claims.metadata->Some_0.module_hash@ != module_hash(bytes),
        revision_of(claims) >= MIN_WASCAP_INTERNAL_REVISION,
    ensures
        decoded_outcome(jwt, Ok(claims), module_hashable(bytes), module_hash(bytes)) == Err::<
            Option<Token>,
            ErrorKind,
        >(ErrorKind::InvalidModuleHash),
{
}

/// A token whose claims record the module's own canonical hash passes the
/// hash check at every revision: what embedding recorded is accepted.
pub proof fn lemma_recorded_hash_accepted(jwt: String, claims: Claims, bytes: Seq<u8>)
    requires
        module_hashable(bytes),
        claims.metadata is Some,
        claims.metadata->Some_0.module_hash@ == module_hash(bytes),
    ensures
        decoded_outcome(jwt, Ok(claims), module_hashable(bytes), module_hash(bytes)) == Ok::<
            Option<Token>,
            ErrorKind,
        >(Some(Token { jwt, claims })),
{
}

} // verus!
