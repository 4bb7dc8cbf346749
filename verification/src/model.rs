//! The data model: the kinds and descriptors the scan reports, the
//! library's own form of a parsed module's top-level items, and the
//! specification functions that say which descriptors a scan yields and
//! what the specifier rewrite produces.

use crate::position::col_spec;
use crate::position::line_spec;
use vstd::prelude::*;

verus! {

/// Whether a declaration pulls a binding in or forwards one out; both
/// carry a module specifier.
#[derive(Copy, Clone, Debug, PartialEq, Eq, Structural)]
pub enum ImportKind {
    Import,
    Export,
}

/// One record per recognized specifier-bearing declaration: the literal
/// specifier text exactly as written, the kind, and the source position of
/// the start of the whole declaration (1-based line, 0-based UTF-16
/// column).
#[derive(Debug, PartialEq, Eq)]
pub struct ImportDescriptor {
    pub specifier: String,
    pub kind: ImportKind,
    pub col: usize,
    pub line: usize,
}

/// The mathematical value of a descriptor.
#[verifier::ext_equal]
pub ghost struct DescV {
    pub specifier: Seq<char>,
    pub kind: ImportKind,
    pub col: int,
    pub line: int,
}

impl View for ImportDescriptor {
    type V = DescV;

    open spec fn view(&self) -> DescV {
        DescV {
            specifier: self.specifier@,
            kind: self.kind,
            col: self.col as int,
            line: self.line as int,
        }
    }
}

impl DeepView for ImportDescriptor {
    type V = DescV;

    open spec fn deep_view(&self) -> DescV {
        self.view()
    }
}

/// One top-level item of a parsed module, reduced to what the scan reads:
/// the declaration shape, the specifier it carries (if any), and the byte
/// offset of the start of the declaration in the source text. Everything
/// that is not one of the three specifier-carrying shapes is `Other`.
#[derive(Debug, PartialEq, Eq)]
pub enum RawItem {
    Import { specifier: String, lo: usize },
    ExportNamed { specifier: Option<String>, lo: usize },
    ExportAll { specifier: String, lo: usize },
    Other,
}

/// The mathematical value of a top-level item.
#[verifier::ext_equal]
pub ghost enum RawItemV {
    Import { specifier: Seq<char>, lo: int },
    ExportNamed { specifier: Option<Seq<char>>, lo: int },
    ExportAll { specifier: Seq<char>, lo: int },
    Other,
}

impl View for RawItem {
    type V = RawItemV;

    open spec fn view(&self) -> RawItemV {
        match self {
            RawItem::Import { specifier, lo } => RawItemV::Import {
                specifier: specifier@,
                lo: *lo as int,
            },
            RawItem::ExportNamed { specifier, lo } => RawItemV::ExportNamed {
                specifier: match specifier {
                    Some(s) => Some(s@),
                    None => None,
                },
                lo: *lo as int,
            },
            RawItem::ExportAll { specifier, lo } => RawItemV::ExportAll {
                specifier: specifier@,
                lo: *lo as int,
            },
            RawItem::Other => RawItemV::Other,
        }
    }
}

impl DeepView for RawItem {
    type V = RawItemV;

    open spec fn deep_view(&self) -> RawItemV {
        self.view()
    }
}

/// Whether a top-level item carries a module specifier and so yields a
/// descriptor: every import does, a named export only when it re-exports
/// from a source module, a wildcard re-export always, anything else never.
pub open spec fn bearing(it: RawItemV) -> bool {
    match it {
        RawItemV::Import { .. } => true,
        RawItemV::ExportNamed { specifier, .. } => specifier is Some,
        RawItemV::ExportAll { .. } => true,
        RawItemV::Other => false,
    }
}

/// The byte offset at which a top-level item starts.
pub open spec fn item_lo(it: RawItemV) -> int {
    match it {
        RawItemV::Import { lo, .. } => lo,
        RawItemV::ExportNamed { lo, .. } => lo,
        RawItemV::ExportAll { lo, .. } => lo,
        RawItemV::Other => 0,
    }
}

/// The specifier a bearing item carries.
pub open spec fn item_specifier(it: RawItemV) -> Seq<char>
    recommends
        bearing(it),
{
    match it {
        RawItemV::Import { specifier, .. } => specifier,
        RawItemV::ExportNamed { specifier, .. } => specifier->0,
        RawItemV::ExportAll { specifier, .. } => specifier,
        RawItemV::Other => Seq::empty(),
    }
}

/// The kind a bearing item is reported under.
pub open spec fn item_kind(it: RawItemV) -> ImportKind
    recommends
        bearing(it),
{
    match it {
        RawItemV::Import { .. } => ImportKind::Import,
        _ => ImportKind::Export,
    }
}

/// The descriptor a bearing item yields against source text `src`: its
/// specifier exactly as written, its kind, and the line and UTF-16 column
/// of the start of the declaration.
pub open spec fn item_desc(it: RawItemV, src: Seq<u8>) -> DescV
    recommends
        bearing(it),
{
    DescV {
        specifier: item_specifier(it),
        kind: item_kind(it),
        col: col_spec(src, item_lo(it)),
        line: line_spec(src, item_lo(it)),
    }
}

/// The ordered descriptor sequence of a top-level item list: one entry per
/// bearing item, in document order, nothing reordered and nothing
/// deduplicated.
pub open spec fn descriptors_spec(items: Seq<RawItemV>, src: Seq<u8>) -> Seq<DescV>
    decreases items.len(),
{
    if items.len() == 0 {
        Seq::empty()
    } else {
        descriptors_spec(items.drop_last(), src) + if bearing(items.last()) {
            seq![item_desc(items.last(), src)]
        } else {
            Seq::empty()
        }
    }
}

/// An item offset never points past the end of the source text; the
/// outside parser guarantees this of every span it produces.
pub open spec fn item_wf(it: RawItemV, len: int) -> bool {
    0 <= item_lo(it) <= len
}

pub open spec fn wf_items(items: Seq<RawItemV>, len: int) -> bool {
    forall|i: int| 0 <= i < items.len() ==> item_wf(#[trigger] items[i], len)
}

/// The specifier rewrite: a specifier whose first character is the private
/// prefix marker `#` becomes `./` + the origin's basename + the original
/// text; any other specifier is left exactly as written.
pub open spec fn rewrite_spec(s: Seq<char>, base: Seq<char>) -> Seq<char> {
    if s.len() > 0 && s[0] == '#' {
        seq!['.', '/'] + base + s
    } else {
        s
    }
}

/// The rewrite applied to one top-level item: the specifier it carries (if
/// any) is rewritten, the shape and the position are kept.
pub open spec fn rewrite_item_spec(it: RawItemV, base: Seq<char>) -> RawItemV {
    match it {
        RawItemV::Import { specifier, lo } => RawItemV::Import {
            specifier: rewrite_spec(specifier, base),
            lo: lo,
        },
        RawItemV::ExportNamed { specifier, lo } => RawItemV::ExportNamed {
            specifier: match specifier {
                Some(s) => Some(rewrite_spec(s, base)),
                None => None,
            },
            lo: lo,
        },
        RawItemV::ExportAll { specifier, lo } => RawItemV::ExportAll {
            specifier: rewrite_spec(specifier, base),
            lo: lo,
        },
        RawItemV::Other => RawItemV::Other,
    }
}

/// The rewrite applied to a whole item list, item by item.
pub open spec fn rewrite_all_spec(items: Seq<RawItemV>, base: Seq<char>) -> Seq<RawItemV> {
    items.map_values(|it: RawItemV| rewrite_item_spec(it, base))
}

} // verus!
