//! The canonical hash: a digest of everything in a module that signing must
//! not change, which leaves out the sections that carry the claims.
use vstd::prelude::*;
use crate::errors::ErrorKind;
use crate::sections::{module_parses, module_payloads, scan_module, scan_views, Scan, Section, SectionView};

verus! {

/// The name of the legacy section that carries claims.
pub open spec fn legacy_claim_section_name() -> Seq<u8> {
    seq![0x6au8, 0x77, 0x74]
}

/// The name of the section in which claims are embedded.
pub open spec fn claim_section_name() -> Seq<u8> {
    seq![0x77u8, 0x61, 0x73, 0x6d, 0x63, 0x6c, 0x6f, 0x75, 0x64, 0x5f, 0x6a, 0x77, 0x74]
}

/// Whether a custom section of this name carries claims.
pub open spec fn is_claim_section_name(name: Seq<u8>) -> bool {
    name == legacy_claim_section_name() || name == claim_section_name()
}

/// Whether a payload is a custom section that carries claims.
pub open spec fn is_claim_section(s: SectionView) -> bool {
    match s {
        SectionView::Custom { name, .. } => is_claim_section_name(name),
        _ => false,
    }
}

/// The byte sequences of `parts`, one after another.
pub open spec fn concat_all(parts: Seq<Seq<u8>>) -> Seq<u8>
    decreases parts.len(),
{
    if parts.len() == 0 {
        Seq::empty()
    } else {
        concat_all(parts.drop_last()) + parts.last()
    }
}

/// The bytes that one payload contributes to the canonical hash: a
/// function body, every segment of a data section, or the payload of a
/// custom section that does not carry claims.
pub open spec fn hashed_bytes(s: SectionView) -> Seq<u8> {
    match s {
        SectionView::CodeEntry(Some(body)) => body,
        SectionView::DataEntry(Some(segs)) => concat_all(segs),
        SectionView::Custom { name, data, .. } => if is_claim_section_name(name) {
            Seq::empty()
        } else {
            data
        },
        _ => Seq::empty(),
    }
}

/// Whether a payload's bytes could not be read.
pub open spec fn unreadable(s: SectionView) -> bool {
    s == SectionView::CodeEntry(None) || s == SectionView::DataEntry(None)
}

/// The bytes that the canonical hash digests: the contributions of the
/// payloads, in scan order.
pub open spec fn hash_input(secs: Seq<SectionView>) -> Seq<u8>
    decreases secs.len(),
{
    if secs.len() == 0 {
        Seq::empty()
    } else {
        hash_input(secs.drop_last()) + hashed_bytes(secs.last())
    }
}

/// Whether payloads yield a canonical hash: the module parsed to its end
/// and every function body and data segment could be read.
pub open spec fn views_hashable(complete: bool, secs: Seq<SectionView>) -> bool {
    complete && forall|i: int| 0 <= i < secs.len() ==> !unreadable(#[trigger] secs[i])
}

/// Whether a scan yields a canonical hash.
pub open spec fn hashable(scan: Scan) -> bool {
    views_hashable(scan.complete, scan_views(scan))
}

/// Whether a module's bytes yield a canonical hash.
pub open spec fn module_hashable(bytes: Seq<u8>) -> bool {
    views_hashable(module_parses(bytes), module_payloads(bytes))
}

/// The SHA-256 digest of a byte sequence.
pub uninterp spec fn sha256_of(data: Seq<u8>) -> Seq<u8>;

/// The upper-case hexadecimal digit for a value below sixteen.
pub open spec fn hex_digit(v: u8) -> char {
    seq!['0', '1', '2', '3', '4', '5', '6', '7', '8', '9', 'A', 'B', 'C', 'D', 'E', 'F'][v as int]
}

/// Two upper-case hexadecimal digits for each byte, high nibble first.
pub open spec fn hex_upper(data: Seq<u8>) -> Seq<char>
    decreases data.len(),
{
    if data.len() == 0 {
        Seq::empty()
    } else {
        hex_upper(data.drop_last()) + seq![hex_digit(data.last() / 16), hex_digit(data.last() % 16)]
    }
}

/// The hex rendering has two digits per byte.
pub proof fn lemma_hex_upper_len(data: Seq<u8>)
    ensures
        hex_upper(data).len() == 2 * data.len(),
    decreases data.len(),
{
    if data.len() > 0 {
        lemma_hex_upper_len(data.drop_last());
    }
}

/// The canonical hash of a sequence of payloads.
pub open spec fn views_hash(secs: Seq<SectionView>) -> Seq<char> {
    hex_upper(sha256_of(hash_input(secs)))
}

/// The canonical hash of the sections of a scan.
pub open spec fn canonical_hash(scan: Scan) -> Seq<char> {
    views_hash(scan_views(scan))
}

/// The canonical hash of a module's bytes.
pub open spec fn module_hash(bytes: Seq<u8>) -> Seq<char> {
    views_hash(module_payloads(bytes))
}

/// Relies on ring::digest::digest with SHA256: the 32-byte SHA-256 digest.
#[verifier::external_body]
fn sha256(data: &[u8]) -> (r: Vec<u8>)
    ensures
        r@ == sha256_of(data@),
        r@.len() == 32,
{
    ring::digest::digest(&ring::digest::SHA256, data).as_ref().to_vec()
}

/// Relies on data_encoding::HEXUPPER: two upper-case hex digits per byte.
#[verifier::external_body]
fn hex_encode_upper(data: &[u8]) -> (r: String)
    ensures
        r@ == hex_upper(data@),
{
    data_encoding::HEXUPPER.encode(data)
}

/// Whether `name` is one of the two names of claim sections.
pub fn is_claim_name(name: &Vec<u8>) -> (r: bool)
    ensures
        r == is_claim_section_name(name@),
{
    let wc: [u8; 13] = [0x77, 0x61, 0x73, 0x6d, 0x63, 0x6c, 0x6f, 0x75, 0x64, 0x5f, 0x6a, 0x77, 0x74];
    if name.len() == 3 {
        let r = name[0] == 0x6a && name[1] == 0x77 && name[2] == 0x74;
        assert(r <==> name@ =~= legacy_claim_section_name());
        r
    } else if name.len() == 13 {
        let mut i: usize = 0;
        while i < 13
            invariant
                i <= 13,
                name@.len() == 13,
                wc@ == claim_section_name(),
                forall|j: int| 0 <= j < i ==> name@[j] == wc@[j],
            decreases 13 - i,
        {
            if name[i] != wc[i] {
                return false;
            }
            i = i + 1;
        }
        assert(name@ =~= claim_section_name());
        true
    } else {
        false
    }
}

/// The bytes that the canonical hash digests, or `None` where a function
/// body or a data segment could not be read.
pub fn collect_hash_input(secs: &Vec<Section>) -> (r: Option<Vec<u8>>)
    ensures
        r is Some <==> (forall|i: int| 0 <= i < secs@.len() ==> !unreadable(#[trigger] secs@[i]@)),
        r matches Some(v) ==> v@ == hash_input(secs@.map_values(|s: Section| s@)),
{
    let ghost views = secs@.map_values(|s: Section| s@);
    let mut acc: Vec<u8> = Vec::new();
    let mut i: usize = 0;
    while i < secs.len()
        invariant
            i <= secs@.len(),
            views == secs@.map_values(|s: Section| s@),
            acc@ == hash_input(views.subrange(0, i as int)),
            forall|j: int| 0 <= j < i ==> !unreadable(#[trigger] secs@[j]@),
        decreases secs@.len() - i,
    {
        assert(views.subrange(0, i + 1).drop_last() =~= views.subrange(0, i as int));
        assert(views.subrange(0, i + 1).last() == secs@[i as int]@);
        match &secs[i] {
            Section::CodeEntry(Some(body)) => {
                acc.extend_from_slice(body.as_slice());
            },
            Section::DataEntry(Some(segs)) => {
                let ghost base = acc@;
                let ghost sv = segs@.map_values(|s: Vec<u8>| s@);
                let mut k: usize = 0;
                while k < segs.len()
                    invariant
                        k <= segs@.len(),
                        sv == segs@.map_values(|s: Vec<u8>| s@),
                        acc@ == base + concat_all(sv.subrange(0, k as int)),
                    decreases segs@.len() - k,
                {
                    assert(sv.subrange(0, k + 1).drop_last() =~= sv.subrange(0, k as int));
                    acc.extend_from_slice(segs[k].as_slice());
                    assert(acc@ =~= base + concat_all(sv.subrange(0, k + 1)));
                    k = k + 1;
                }
                assert(sv.subrange(0, k as int) =~= sv);
            },
            Section::Custom { name, data, .. } => {
                if !is_claim_name(name) {
                    acc.extend_from_slice(data.as_slice());
                }
            },
            Section::CodeEntry(None) | Section::DataEntry(None) => {
                return None;
            },
            Section::Nested { .. } | Section::Other => {},
        }
        i = i + 1;
    }
    assert(views.subrange(0, i as int) =~= views);
    Some(acc)
}

/// The canonical hash of a scanned module: the upper-case hex SHA-256 of its
/// code, data and non-claim custom sections in scan order. Fails where the
/// module did not parse.
pub fn hash_of_scan(scan: &Scan) -> (r: Result<String, ErrorKind>)
    ensures
        hashable(*scan) ==> (r matches Ok(h) && h@ == canonical_hash(*scan)),
        !hashable(*scan) ==> r == Err::<String, ErrorKind>(ErrorKind::MalformedContainer),
        r matches Ok(h) ==> h@.len() == 64,
{
    if !scan.complete {
        return Err(ErrorKind::MalformedContainer);
    }
    let ghost views = scan_views(*scan);
    assert(views =~= scan.sections@.map_values(|s: Section| s@));
    assert(forall|i: int| 0 <= i < views.len() ==> views[i] == #[trigger] scan.sections@[i]@);
    match collect_hash_input(&scan.sections) {
        None => {
            assert(!hashable(*scan));
            Err(ErrorKind::MalformedContainer)
        },
        Some(input) => {
            let digest = sha256(input.as_slice());
            proof {
                lemma_hex_upper_len(digest@);
            }
            Ok(hex_encode_upper(digest.as_slice()))
        },
    }
}

/// Computes the canonical hash of a module's bytes.
pub fn compute_hash_without_jwt(modbytes: &[u8]) -> (r: Result<String, ErrorKind>)
    ensures
        module_hashable(modbytes@) ==> (r matches Ok(h) && h@ == module_hash(modbytes@) && h@.len() == 64),
        !module_hashable(modbytes@) ==> r == Err::<String, ErrorKind>(ErrorKind::MalformedContainer),
{
    let scan = scan_module(modbytes);
    hash_of_scan(&scan)
}

} // verus!
