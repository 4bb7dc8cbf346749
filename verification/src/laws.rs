//! The general laws of the scan, stated and proved once over the
//! specification functions: a specifier-free module yields the empty
//! report, document order is kept, each report shows the source text as
//! written, and the rewrite touches exactly the prefix-marked specifiers.

use crate::model::bearing;
use crate::model::descriptors_spec;
use crate::model::item_desc;
use crate::model::item_specifier;
use crate::model::rewrite_all_spec;
use crate::model::rewrite_item_spec;
use crate::model::rewrite_spec;
use crate::model::DescV;
use crate::model::RawItemV;
use vstd::prelude::*;

verus! {

/// How many of the items carry a specifier.
pub open spec fn bearing_count(items: Seq<RawItemV>) -> int
    decreases items.len(),
{
    if items.len() == 0 {
        0
    } else {
        bearing_count(items.drop_last()) + if bearing(items.last()) {
            1int
        } else {
            0int
        }
    }
}

/// The output position of the descriptor of the k-th item: the number of
/// specifier-bearing items strictly before it.
pub open spec fn out_index(items: Seq<RawItemV>, k: int) -> int {
    bearing_count(items.take(k))
}

/// The report holds exactly one descriptor per specifier-bearing item.
pub proof fn lemma_descriptors_len(items: Seq<RawItemV>, src: Seq<u8>)
    ensures
        descriptors_spec(items, src).len() == bearing_count(items),
        0 <= bearing_count(items) <= items.len(),
    decreases items.len(),
{
    if items.len() > 0 {
        lemma_descriptors_len(items.drop_last(), src);
    }
}

/// A module whose top-level items carry no specifier yields the empty
/// descriptor sequence: success with no entries, which is distinct from
/// the absent result of a text that does not parse.
pub proof fn lemma_no_bearing_empty(items: Seq<RawItemV>, src: Seq<u8>)
    requires
        forall|i: int| 0 <= i < items.len() ==> !bearing(#[trigger] items[i]),
    ensures
        descriptors_spec(items, src) == Seq::<DescV>::empty(),
    decreases items.len(),
{
    if items.len() > 0 {
        let sub = items.drop_last();
        assert forall|i: int| 0 <= i < sub.len() implies !bearing(#[trigger] sub[i]) by {
            assert(sub[i] == items[i]);
        }
        lemma_no_bearing_empty(sub, src);
        assert(!bearing(items.last()));
        assert(descriptors_spec(items, src) =~= Seq::<DescV>::empty());
    }
}

proof fn lemma_bearing_count_step(items: Seq<RawItemV>, i: int)
    requires
        0 <= i < items.len(),
    ensures
        bearing_count(items.take(i + 1)) == bearing_count(items.take(i)) + if bearing(
            items[i],
        ) {
            1int
        } else {
            0int
        },
{
    assert(items.take(i + 1).drop_last() =~= items.take(i));
    assert(items.take(i + 1).last() == items[i]);
}

proof fn lemma_bearing_count_mono(items: Seq<RawItemV>, i: int, j: int)
    requires
        0 <= i <= j <= items.len(),
    ensures
        bearing_count(items.take(i)) <= bearing_count(items.take(j)),
    decreases j - i,
{
    if i < j {
        lemma_bearing_count_mono(items, i, j - 1);
        lemma_bearing_count_step(items, j - 1);
    }
}

/// Document order, placement: the descriptor of the k-th item, when that
/// item bears a specifier, stands in the report at the index given by the
/// number of bearing items before it, and it is exactly that item's
/// descriptor.
pub proof fn lemma_document_order(items: Seq<RawItemV>, src: Seq<u8>, k: int)
    requires
        0 <= k < items.len(),
        bearing(items[k]),
    ensures
        0 <= out_index(items, k) < descriptors_spec(items, src).len(),
        descriptors_spec(items, src)[out_index(items, k)] == item_desc(items[k], src),
    decreases items.len(),
{
    lemma_descriptors_len(items, src);
    let sub = items.drop_last();
    lemma_descriptors_len(sub, src);
    if k == items.len() - 1 {
        assert(items.take(k) =~= sub);
    } else {
        assert(sub[k] == items[k]);
        lemma_document_order(sub, src, k);
        assert(items.take(k) =~= sub.take(k));
    }
}

/// Document order, monotonicity: of two specifier-bearing items in source
/// order, the earlier one's descriptor precedes the later one's in the
/// report.
pub proof fn lemma_order_kept(items: Seq<RawItemV>, i: int, j: int)
    requires
        0 <= i < j < items.len(),
        bearing(items[i]),
    ensures
        out_index(items, i) < out_index(items, j),
{
    lemma_bearing_count_step(items, i);
    lemma_bearing_count_mono(items, i + 1, j);
}

/// The reported specifier of each bearing declaration is its literal
/// specifier text exactly as written: the report is taken from the items
/// as given, so it is independent of any rewrite applied to them
/// afterwards.
pub proof fn lemma_report_is_source_text(items: Seq<RawItemV>, src: Seq<u8>, k: int)
    requires
        0 <= k < items.len(),
        bearing(items[k]),
    ensures
        descriptors_spec(items, src)[out_index(items, k)].specifier == item_specifier(items[k]),
{
    lemma_document_order(items, src, k);
}

/// The rewrite's two cases: a specifier that does not begin with the
/// prefix marker is left untouched; one that begins with it becomes
/// `./` + basename + the original text.
pub proof fn lemma_rewrite_cases(s: Seq<char>, base: Seq<char>)
    ensures
        (s.len() == 0 || s[0] != '#') ==> rewrite_spec(s, base) == s,
        (s.len() > 0 && s[0] == '#') ==> rewrite_spec(s, base) == seq!['.', '/'] + base + s,
{
}

/// The rewrite keeps length and order, and works item by item: the i-th
/// rewritten item is exactly the i-th original item with its specifier
/// rewritten (shape and position kept).
pub proof fn lemma_rewrite_pointwise(items: Seq<RawItemV>, base: Seq<char>, i: int)
    requires
        0 <= i < items.len(),
    ensures
        rewrite_all_spec(items, base).len() == items.len(),
        rewrite_all_spec(items, base)[i] == rewrite_item_spec(items[i], base),
{
}

} // verus!
