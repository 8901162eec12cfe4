//! The top-level structure of a module: its payloads in on-disk order.
use vstd::prelude::*;
use wasmparser::{Parser, Payload};

verus! {

#[verifier::external_type_specification]
#[verifier::external_body]
pub struct ExPayload<'a>(wasmparser::Payload<'a>);

/// One payload of a module, as far as claims and hashing need to see it.
pub enum Section {
    /// The bytes of one function body, or `None` where they cannot be read.
    CodeEntry(Option<Vec<u8>>),
    /// The bytes of each segment of a data section, or `None` where a
    /// segment does not parse.
    DataEntry(Option<Vec<Vec<u8>>>),
    /// A custom section: the UTF-8 bytes of its name, its payload, and the
    /// position in the module at which the payload starts.
    Custom { name: Vec<u8>, data: Vec<u8>, offset: usize },
    /// The start of a nested module, with the positions where its bytes
    /// start and end.
    Nested { start: usize, end: usize },
    /// Any other payload (the header, types, imports, exports, ...).
    Other,
}

/// The mathematical value of a [`Section`].
pub enum SectionView {
    CodeEntry(Option<Seq<u8>>),
    DataEntry(Option<Seq<Seq<u8>>>),
    Custom { name: Seq<u8>, data: Seq<u8>, offset: int },
    Nested { start: int, end: int },
    Other,
}

impl View for Section {
    type V = SectionView;

    open spec fn view(&self) -> SectionView {
        match self {
            Section::CodeEntry(b) => SectionView::CodeEntry(
                match b {
                    Some(v) => Some(v@),
                    None => None,
                },
            ),
            Section::DataEntry(d) => SectionView::DataEntry(
                match d {
                    Some(segs) => Some(segs@.map_values(|s: Vec<u8>| s@)),
                    None => None,
                },
            ),
            Section::Custom { name, data, offset } => SectionView::Custom {
                name: name@,
                data: data@,
                offset: *offset as int,
            },
            Section::Nested { start, end } => SectionView::Nested { start: *start as int, end: *end as int },
            Section::Other => SectionView::Other,
        }
    }
}

/// The payloads of a module in the order in which they occur.
pub struct Scan {
    /// Every payload read before the scan stopped.
    pub sections: Vec<Section>,
    /// Whether the scan reached the end of the module; `false` where the
    /// bytes broke the container's structure.
    pub complete: bool,
}

/// The views of the payloads of a scan.
pub open spec fn scan_views(scan: Scan) -> Seq<SectionView> {
    scan.sections@.map_values(|s: Section| s@)
}

/// The payloads that wasmparser reads from a module's bytes, nested
/// modules included, up to the end or to the first structural error.
pub uninterp spec fn module_payloads(bytes: Seq<u8>) -> Seq<SectionView>;

/// Whether wasmparser reads a module's bytes to the end without a
/// structural error.
pub uninterp spec fn module_parses(bytes: Seq<u8>) -> bool;

/// Relies on FunctionBody::get_binary_reader and on DataSectionReader's
/// iterator to read out the bytes that a payload holds, and on the range
/// of a nested module's entry.
#[verifier::external_body]
fn section_of(payload: Payload) -> Section {
    match payload {
        Payload::CustomSection { name, data_offset, data } =>
            Section::Custom { name: name.as_bytes().to_vec(), data: data.to_vec(), offset: data_offset },
        Payload::CodeSectionEntry(body) => {
            let mut r = body.get_binary_reader();
            Section::CodeEntry(r.read_bytes(r.bytes_remaining()).ok().map(|b| b.to_vec()))
        },
        Payload::DataSection(r) => Section::DataEntry(
            r.into_iter().map(|d| d.map(|d| d.data.to_vec())).collect::<Result<Vec<_>, _>>().ok(),
        ),
        Payload::ModuleCodeSectionEntry { range, .. } => Section::Nested { start: range.start, end: range.end },
        _ => Section::Other,
    }
}

/// Relies on wasmparser::Parser::parse_all: the payloads of the module in
/// order, up to its end or to the first error. The result depends on the
/// bytes alone.
#[verifier::external_body]
fn parse_all(bytes: &[u8]) -> (r: Scan)
    ensures
        scan_views(r) == module_payloads(bytes@),
        r.complete == module_parses(bytes@),
{
    let mut sections = Vec::new();
    for payload in Parser::new(0).parse_all(bytes) {
        match payload {
            Ok(p) => sections.push(section_of(p)),
            Err(_) => return Scan { sections, complete: false },
        }
    }
    Scan { sections, complete: true }
}

/// Reads the payloads of `bytes` in order, nested modules included, until
/// the module ends or its structure breaks.
pub fn scan_module(bytes: &[u8]) -> (r: Scan)
    ensures
        scan_views(r) == module_payloads(bytes@),
        r.complete == module_parses(bytes@),
{
    parse_all(bytes)
}

} // verus!
