//! The boundary to the outside parser: the source text is handed to the
//! swc ECMAScript parser with a permissive grammar configuration, and each
//! top-level item of the parsed module is brought over, one to one, into
//! the library's own item form. The origin URL's basename, needed by the
//! rewriting mode, comes from the url crate the same way.

use crate::model::wf_items;
use crate::model::RawItem;
use crate::model::RawItemV;
use swc_common::BytePos;
use swc_ecmascript::ast::Module;
use swc_ecmascript::ast::ModuleDecl;
use swc_ecmascript::parser::EsSyntax;
use swc_ecmascript::parser::Parser;
use swc_ecmascript::parser::StringInput;
use swc_ecmascript::parser::Syntax;
use vstd::prelude::*;

verus! {

#[verifier::external_type_specification]
#[verifier::external_body]
pub struct ExModule(Module);

/// What parsing a source text yields: `None` when the text does not parse
/// as a module, otherwise the module's top-level item list in the
/// library's own form. Parsing is a function of the source text alone.
pub uninterp spec fn parse_of(source: Seq<u8>) -> Option<Seq<RawItemV>>;

/// The top-level item list a parsed module holds, in the library's own
/// form.
pub uninterp spec fn items_of(m: Module) -> Seq<RawItemV>;

/// The basename of an origin URL: `None` when the text is not a valid URL
/// or the URL cannot carry path segments, otherwise its last path segment
/// (possibly empty). A function of the origin text alone.
pub uninterp spec fn origin_base_of(origin: Seq<char>) -> Option<Seq<char>>;

/// Relies on swc_ecma_parser's Parser::parse_module, through the
/// swc_ecmascript facade: parsing is deterministic in the source text, a
/// text that is not a syntactically valid module is answered with an
/// error, and every span's low end is a byte offset into the given text.
#[verifier::external_body]
pub(crate) fn parse_es_module(source: &Vec<u8>) -> (r: Option<Module>)
    requires
        source@.len() <= 0xffff_ffff,
    ensures
        r is Some <==> parse_of(source@) is Some,
        r matches Some(m) ==> items_of(m) == parse_of(source@)->0,
        r matches Some(m) ==> wf_items(items_of(m), source@.len() as int),
{
    let text = match core::str::from_utf8(source) { Ok(t) => t, Err(_) => return None };
    let input = StringInput::new(text, BytePos(0), BytePos(text.len() as u32));
    let es = EsSyntax {
        jsx: true, decorators: true, decorators_before_export: true,
        export_default_from: true, import_attributes: true, ..Default::default()
    };
    let mut parser = Parser::new(Syntax::Es(es), input, None);
    let parsed = parser.parse_module();
    if !parser.take_errors().is_empty() {
        return None;
    }
    parsed.ok()
}

/// Relies on Vec::len for the module's top-level item list.
#[verifier::external_body]
pub(crate) fn module_len(m: &Module) -> (n: usize)
    ensures
        n == items_of(*m).len(),
{
    m.body.len()
}

/// Relies on the swc AST shapes: the module's i-th top-level item is
/// brought into the library's item form, one variant arm each, taking the
/// specifier text and the span's low byte offset.
#[verifier::external_body]
pub(crate) fn module_item(m: &Module, i: usize) -> (it: RawItem)
    requires
        i < items_of(*m).len(),
    ensures
        it@ == items_of(*m)[i as int],
{
    match m.body[i].as_module_decl() {
        Some(ModuleDecl::Import(d)) => RawItem::Import {
            specifier: d.src.value.to_atom_lossy().as_str().to_owned(), lo: d.span.lo.0 as usize,
        },
        Some(ModuleDecl::ExportNamed(d)) => RawItem::ExportNamed {
            specifier: d.src.as_ref().map(|s| s.value.to_atom_lossy().as_str().to_owned()),
            lo: d.span.lo.0 as usize,
        },
        Some(ModuleDecl::ExportAll(d)) => RawItem::ExportAll {
            specifier: d.src.value.to_atom_lossy().as_str().to_owned(), lo: d.span.lo.0 as usize,
        },
        _ => RawItem::Other,
    }
}

/// Relies on url::Url::parse and url::Url::path_segments: both are
/// deterministic in the origin text; path_segments is `Some` exactly when
/// the URL can be a base, and then splitting the path yields at least one
/// (possibly empty) segment, whose last one is taken.
#[verifier::external_body]
pub(crate) fn origin_basename(origin: &str) -> (r: Option<String>)
    ensures
        r is Some <==> origin_base_of(origin@) is Some,
        r matches Some(b) ==> b@ == origin_base_of(origin@)->0,
{
    match url::Url::parse(origin) {
        Ok(u) => match u.path_segments() {
            Some(mut segs) => segs.next_back().map(|s| s.to_owned()),
            None => None,
        },
        Err(_) => None,
    }
}

} // verus!
