//! The import/export scan: walk a module's top-level item list exactly
//! once, in order, and report one descriptor per specifier-bearing
//! declaration; optionally rewrite prefix-marked specifiers afterwards.
//! The boundary functions hand the source text to the outside parser and
//! run the scan on what it returns.

use crate::model::bearing;
use crate::model::descriptors_spec;
use crate::model::item_desc;
use crate::model::item_lo;
use crate::model::rewrite_all_spec;
use crate::model::rewrite_item_spec;
use crate::model::rewrite_spec;
use crate::model::wf_items;
use crate::model::DescV;
use crate::model::ImportDescriptor;
use crate::model::ImportKind;
use crate::model::RawItem;
use crate::model::RawItemV;
use crate::parse::items_of;
use crate::parse::module_item;
use crate::parse::module_len;
use crate::parse::origin_base_of;
use crate::parse::origin_basename;
use crate::parse::parse_es_module;
use crate::parse::parse_of;
use crate::position::position_of;
use swc_ecmascript::ast::Module;
use vstd::prelude::*;

verus! {

/// Bring a parsed module's top-level items over into the library's own
/// form, in order.
fn collect_items(m: &Module) -> (r: Vec<RawItem>)
    ensures
        r.deep_view() == items_of(*m),
{
    let n = module_len(m);
    let mut out: Vec<RawItem> = Vec::new();
    let mut i: usize = 0;
    while i < n
        invariant
            i <= n,
            n == items_of(*m).len(),
            out.deep_view() =~= items_of(*m).take(i as int),
        decreases n - i,
    {
        let ghost pre = out.deep_view();
        let it = module_item(m, i);
        out.push(it);
        proof {
            assert(out.deep_view() =~= pre.push(it@));
            assert(items_of(*m).take(i + 1) =~= items_of(*m).take(i as int).push(
                items_of(*m)[i as int],
            ));
        }
        i = i + 1;
    }
    proof {
        assert(items_of(*m).take(n as int) =~= items_of(*m));
    }
    out
}

/// One scan step: the descriptors of the first `i + 1` items are those of
/// the first `i` followed by whatever the i-th item yields.
proof fn lemma_descriptors_step(items: Seq<RawItemV>, src: Seq<u8>, i: int)
    requires
        0 <= i < items.len(),
    ensures
        descriptors_spec(items.take(i + 1), src) == descriptors_spec(items.take(i), src) + (
        if bearing(items[i]) {
            seq![item_desc(items[i], src)]
        } else {
            Seq::<DescV>::empty()
        }),
{
    assert(items.take(i + 1).drop_last() =~= items.take(i));
    assert(items.take(i + 1).last() == items[i]);
}

/// The scanning visitor: walk the top-level items once, in document
/// order, and yield one descriptor per specifier-bearing declaration,
/// carrying the specifier exactly as written and the position of the
/// start of the declaration. Never fails, and never looks inside
/// statement bodies: only the given top-level list is read.
pub fn scan_items(source: &Vec<u8>, items: &Vec<RawItem>) -> (r: Vec<ImportDescriptor>)
    requires
        wf_items(items.deep_view(), source@.len() as int),
        source@.len() < usize::MAX / 2,
    ensures
        r.deep_view() == descriptors_spec(items.deep_view(), source@),
{
    let ghost dv = items.deep_view();
    let n = items.len();
    let mut out: Vec<ImportDescriptor> = Vec::new();
    let mut i: usize = 0;
    while i < n
        invariant
            i <= n,
            n == dv.len(),
            dv == items.deep_view(),
            wf_items(dv, source@.len() as int),
            source@.len() < usize::MAX / 2,
            out.deep_view() =~= descriptors_spec(dv.take(i as int), source@),
        decreases n - i,
    {
        let ghost pre = out.deep_view();
        proof {
            assert(dv[i as int] == items@[i as int]@);
            assert(item_lo(dv[i as int]) <= source@.len());
            lemma_descriptors_step(dv, source@, i as int);
        }
        match &items[i] {
            RawItem::Import { specifier, lo } => {
                let (line, col) = position_of(source, *lo);
                let d = ImportDescriptor {
                    specifier: specifier.clone(),
                    kind: ImportKind::Import,
                    col,
                    line,
                };
                out.push(d);
                proof {
                    assert(d@ =~= item_desc(dv[i as int], source@));
                    assert(out.deep_view() =~= pre.push(d@));
                }
            }
            RawItem::ExportNamed { specifier, lo } => {
                match specifier {
                    Some(s) => {
                        let (line, col) = position_of(source, *lo);
                        let d = ImportDescriptor {
                            specifier: s.clone(),
                            kind: ImportKind::Export,
                            col,
                            line,
                        };
                        out.push(d);
                        proof {
                            assert(d@ =~= item_desc(dv[i as int], source@));
                            assert(out.deep_view() =~= pre.push(d@));
                        }
                    }
                    None => {
                        proof {
                            assert(!bearing(dv[i as int]));
                        }
                    }
                }
            }
            RawItem::ExportAll { specifier, lo } => {
                let (line, col) = position_of(source, *lo);
                let d = ImportDescriptor {
                    specifier: specifier.clone(),
                    kind: ImportKind::Export,
                    col,
                    line,
                };
                out.push(d);
                proof {
                    assert(d@ =~= item_desc(dv[i as int], source@));
                    assert(out.deep_view() =~= pre.push(d@));
                }
            }
            RawItem::Other => {
                proof {
                    assert(!bearing(dv[i as int]));
                }
            }
        }
        i = i + 1;
        proof {
            assert(out.deep_view() =~= descriptors_spec(dv.take(i as int), source@));
        }
    }
    proof {
        assert(dv.take(n as int) =~= dv);
    }
    out
}

/// Rewrite one specifier: a specifier whose first character is `#` becomes
/// `./` + the origin's basename + the original text; any other specifier
/// comes back exactly as written.
pub fn rewrite_specifier(specifier: &String, base_name: &String) -> (r: String)
    ensures
        r@ == rewrite_spec(specifier@, base_name@),
{
    let s = specifier.as_str();
    if s.unicode_len() > 0 && s.get_char(0) == '#' {
        let mut out = String::from_str("./");
        out.append(base_name.as_str());
        out.append(specifier.as_str());
        proof {
            reveal_strlit("./");
            assert("./"@ =~= seq!['.', '/']);
            assert(out@ =~= seq!['.', '/'] + base_name@ + specifier@);
        }
        out
    } else {
        specifier.clone()
    }
}

/// Rewrite whatever specifier one item carries; shape and position are
/// kept.
fn rewrite_item(it: &RawItem, base_name: &String) -> (r: RawItem)
    ensures
        r@ == rewrite_item_spec(it@, base_name@),
{
    match it {
        RawItem::Import { specifier, lo } => RawItem::Import {
            specifier: rewrite_specifier(specifier, base_name),
            lo: *lo,
        },
        RawItem::ExportNamed { specifier, lo } => RawItem::ExportNamed {
            specifier: match specifier {
                Some(s) => Some(rewrite_specifier(s, base_name)),
                None => None,
            },
            lo: *lo,
        },
        RawItem::ExportAll { specifier, lo } => RawItem::ExportAll {
            specifier: rewrite_specifier(specifier, base_name),
            lo: *lo,
        },
        RawItem::Other => RawItem::Other,
    }
}

/// Rewrite the items in place: every prefix-marked specifier becomes
/// `./` + basename + original, every other item is left exactly as it
/// was; order and positions are kept.
pub fn rewrite_items(items: &mut Vec<RawItem>, base_name: &String)
    ensures
        final (items).deep_view() == rewrite_all_spec(old(items).deep_view(), base_name@),
{
    let ghost dv = items.deep_view();
    let n = items.len();
    let mut out: Vec<RawItem> = Vec::new();
    let mut i: usize = 0;
    while i < n
        invariant
            i <= n,
            n == dv.len(),
            dv == items.deep_view(),
            out.deep_view() =~= rewrite_all_spec(dv.take(i as int), base_name@),
        decreases n - i,
    {
        let ghost pre = out.deep_view();
        proof {
            assert(dv[i as int] == items@[i as int]@);
        }
        let r = rewrite_item(&items[i], base_name);
        out.push(r);
        i = i + 1;
        proof {
            assert(out.deep_view() =~= pre.push(r@));
            assert(rewrite_all_spec(dv.take(i as int), base_name@) =~= rewrite_all_spec(
                dv.take(i - 1),
                base_name@,
            ).push(rewrite_item_spec(dv[i - 1], base_name@)));
        }
    }
    proof {
        assert(dv.take(n as int) =~= dv);
    }
    *items = out;
}

/// Record first, rewrite second: the returned descriptors report every
/// specifier exactly as it stands in the given items, while the items
/// themselves are left holding the rewritten specifiers. The report is
/// taken before the mutation, so it always shows the source as written.
pub fn scan_and_rewrite(source: &Vec<u8>, items: &mut Vec<RawItem>, base_name: &String) -> (r: Vec<
    ImportDescriptor,
>)
    requires
        wf_items(old(items).deep_view(), source@.len() as int),
        source@.len() < usize::MAX / 2,
    ensures
        r.deep_view() == descriptors_spec(old(items).deep_view(), source@),
        final (items).deep_view() == rewrite_all_spec(old(items).deep_view(), base_name@),
{
    let r = scan_items(source, items);
    rewrite_items(items, base_name);
    r
}

/// Scan one source text: hand it to the outside parser and, when it
/// parses as a module, report the ordered descriptor list of its
/// top-level declarations. A text that does not parse yields `None`,
/// never a partial or empty list; a parsed text always yields `Some`,
/// with the empty list when no declaration carries a specifier.
pub fn scan_source(source: &Vec<u8>) -> (r: Option<Vec<ImportDescriptor>>)
    requires
        source@.len() <= 0xffff_ffff,
        source@.len() < usize::MAX / 2,
    ensures
        r is Some <==> parse_of(source@) is Some,
        r matches Some(ds) ==> ds.deep_view() == descriptors_spec(
            parse_of(source@)->0,
            source@,
        ),
{
    match parse_es_module(source) {
        None => None,
        Some(m) => {
            let items = collect_items(&m);
            Some(scan_items(source, &items))
        }
    }
}

/// Scan one source text in the rewriting mode: the descriptors report the
/// source as written, and the returned items carry the rewritten
/// specifiers. Yields `None` exactly when the source does not parse or
/// the origin URL yields no basename; both are failure, never a guess.
pub fn scan_source_rewrite(source: &Vec<u8>, origin: &str) -> (r: Option<
    (Vec<ImportDescriptor>, Vec<RawItem>),
>)
    requires
        source@.len() <= 0xffff_ffff,
        source@.len() < usize::MAX / 2,
    ensures
        r is Some <==> (parse_of(source@) is Some && origin_base_of(origin@) is Some),
        r matches Some(p) ==> p.0.deep_view() == descriptors_spec(parse_of(source@)->0, source@),
        r matches Some(p) ==> p.1.deep_view() == rewrite_all_spec(
            parse_of(source@)->0,
            origin_base_of(origin@)->0,
        ),
{
    let base_name = match origin_basename(origin) {
        None => {
            return None;
        }
        Some(b) => b,
    };
    match parse_es_module(source) {
        None => None,
        Some(m) => {
            let mut items = collect_items(&m);
            let ds = scan_and_rewrite(source, &mut items, &base_name);
            Some((ds, items))
        }
    }
}

} // verus!
