//! Placeholder items found in a laid-out page, and how the two selector
//! passes are merged into the layout manifest.
use crate::canvas::{canvas_height_spec, MIN_HEIGHT};
use vstd::prelude::*;

verus! {

/// A placeholder element of the page: its identifier, the image source it
/// stands for, and its rounded position and size in page coordinates.
pub struct PlaceholderItem {
    pub eltid: String,
    pub src: String,
    pub x: i32,
    pub y: i32,
    pub w: i32,
    pub h: i32,
}

/// The layout manifest: the placeholder items in the order they were found.
pub struct LayoutJson {
    pub items: Vec<PlaceholderItem>,
}

impl PlaceholderItem {
    /// An item with the given identifier, source, position and size.
    pub fn new(eltid: String, src: String, x: i32, y: i32, w: i32, h: i32) -> (r: PlaceholderItem)
        ensures
            r == (PlaceholderItem { eltid, src, x, y, w, h }),
    {
        PlaceholderItem { eltid, src, x, y, w, h }
    }

    /// A copy of this item, equal to it in every field.
    pub fn duplicate(&self) -> (r: PlaceholderItem)
        ensures
            r == *self,
    {
        PlaceholderItem {
            eltid: self.eltid.clone(),
            src: self.src.clone(),
            x: self.x,
            y: self.y,
            w: self.w,
            h: self.h,
        }
    }
}

/// An identifier is taken when it is non-empty and some item already
/// carries it. An empty identifier is never taken.
pub open spec fn eltid_taken(items: Seq<PlaceholderItem>, eltid: Seq<char>) -> bool {
    eltid.len() > 0 && exists|i: int| 0 <= i < items.len() && (#[trigger] items[i]).eltid@ == eltid
}

/// The manifest items: every item of the first pass, in order, followed by
/// each item of the second pass, in order, whose identifier is not taken by
/// an item before it.
pub open spec fn merged_items(first: Seq<PlaceholderItem>, second: Seq<PlaceholderItem>) -> Seq<PlaceholderItem>
    decreases second.len(),
{
    if second.len() == 0 {
        first
    } else {
        let prev = merged_items(first, second.drop_last());
        if eltid_taken(prev, second.last().eltid@) {
            prev
        } else {
            prev.push(second.last())
        }
    }
}

/// Whether an item of `items` already carries the non-empty identifier `eltid`.
pub fn has_eltid(items: &Vec<PlaceholderItem>, eltid: &String) -> (r: bool)
    ensures
        r == eltid_taken(items@, eltid@),
{
    if eltid.as_str().is_empty() {
        return false;
    }
    let mut i: usize = 0;
    while i < items.len()
        invariant
            0 <= i <= items@.len(),
            eltid@.len() > 0,
            forall|k: int| 0 <= k < i ==> (#[trigger] items@[k]).eltid@ != eltid@,
        decreases items@.len() - i,
    {
        if items[i].eltid == *eltid {
            return true;
        }
        i = i + 1;
    }
    false
}

/// Builds the manifest from the items of the class pass and of the
/// attribute pass, each in document order. Items of the attribute pass whose
/// non-empty identifier is already present are left out.
pub fn collect_items(first: Vec<PlaceholderItem>, second: Vec<PlaceholderItem>) -> (r: LayoutJson)
    ensures
        r.items@ == merged_items(first@, second@),
{
    let mut items = first;
    let mut j: usize = 0;
    while j < second.len()
        invariant
            0 <= j <= second@.len(),
            items@ == merged_items(first@, second@.subrange(0, j as int)),
        decreases second@.len() - j,
    {
        proof {
            let s = second@.subrange(0, j as int + 1);
            assert(s.drop_last() == second@.subrange(0, j as int));
            assert(s.last() == second@[j as int]);
        }
        if !has_eltid(&items, &second[j].eltid) {
            items.push(second[j].duplicate());
        }
        j = j + 1;
    }
    assert(second@.subrange(0, second@.len() as int) == second@);
    LayoutJson { items }
}

/// Every coordinate and extent of the item is non-negative.
pub open spec fn geometry_non_negative(item: PlaceholderItem) -> bool {
    item.x >= 0 && item.y >= 0 && item.w >= 0 && item.h >= 0
}

/// The class pass is kept whole at the front of the manifest; after it, no
/// item carries a non-empty identifier that an earlier item carries; and
/// every item of the manifest is an item of one of the two passes.
proof fn lemma_merged_shape(first: Seq<PlaceholderItem>, second: Seq<PlaceholderItem>)
    ensures
        merged_items(first, second).len() >= first.len(),
        forall|k: int| 0 <= k < first.len() ==> #[trigger] merged_items(first, second)[k] == first[k],
        forall|j: int, k: int|
            first.len() <= j < merged_items(first, second).len() && 0 <= k < j
                && (#[trigger] merged_items(first, second)[j]).eltid@.len() > 0
                ==> (#[trigger] merged_items(first, second)[k]).eltid@ != merged_items(first, second)[j].eltid@,
        forall|j: int|
            0 <= j < merged_items(first, second).len() ==> first.contains(#[trigger] merged_items(first, second)[j])
                || second.contains(merged_items(first, second)[j]),
    decreases second.len(),
{
    if second.len() > 0 {
        let prev = merged_items(first, second.drop_last());
        lemma_merged_shape(first, second.drop_last());
        let m = merged_items(first, second);
        assert forall|j: int| 0 <= j < m.len() implies first.contains(#[trigger] m[j]) || second.contains(m[j]) by {
            if j < prev.len() {
                assert(m[j] == prev[j]);
                if !first.contains(prev[j]) {
                    let t = choose|t: int| 0 <= t < second.drop_last().len() && second.drop_last()[t] == prev[j];
                    assert(second[t] == prev[j]);
                }
            } else {
                assert(m[j] == second[second.len() - 1]);
            }
        }
        if !eltid_taken(prev, second.last().eltid@) {
            assert forall|j: int, k: int|
                first.len() <= j < m.len() && 0 <= k < j && (#[trigger] m[j]).eltid@.len() > 0
                implies (#[trigger] m[k]).eltid@ != m[j].eltid@ by {
                if j == prev.len() {
                    assert(m[k] == prev[k]);
                } else {
                    assert(m[k] == prev[k] && m[j] == prev[j]);
                }
            }
        }
    }
}

/// With no element matching either pass, the manifest has no items, and
/// the page is still rendered at least the minimum height tall.
pub proof fn no_matches_no_items(content_h: i32)
    ensures
        merged_items(Seq::empty(), Seq::empty()) == Seq::<PlaceholderItem>::empty(),
        canvas_height_spec(content_h as int) >= MIN_HEIGHT,
{
}

/// An element found by the class pass whose non-empty identifier no other
/// class-pass element carries appears exactly once in the manifest, at its
/// class-pass position and with its class-pass geometry, whatever the
/// attribute pass holds.
pub proof fn first_pass_wins(first: Seq<PlaceholderItem>, second: Seq<PlaceholderItem>, i: int)
    requires
        0 <= i < first.len(),
        first[i].eltid@.len() > 0,
        forall|k: int| 0 <= k < first.len() && k != i ==> (#[trigger] first[k]).eltid@ != first[i].eltid@,
    ensures
        merged_items(first, second)[i] == first[i],
        forall|j: int|
            0 <= j < merged_items(first, second).len() && (#[trigger] merged_items(first, second)[j]).eltid@
                == first[i].eltid@ ==> j == i,
{
    lemma_merged_shape(first, second);
    let m = merged_items(first, second);
    assert forall|j: int| 0 <= j < m.len() && (#[trigger] m[j]).eltid@ == first[i].eltid@ implies j == i by {
        if j < first.len() {
            assert(m[j] == first[j]);
        } else {
            assert(m[i] == first[i]);
        }
    }
}

/// Items without an identifier are never dropped: those of the manifest are
/// those of the class pass followed by those of the attribute pass.
pub proof fn unnamed_items_kept(first: Seq<PlaceholderItem>, second: Seq<PlaceholderItem>)
    ensures
        merged_items(first, second).filter(|it: PlaceholderItem| it.eltid@.len() == 0)
            == first.filter(|it: PlaceholderItem| it.eltid@.len() == 0) + second.filter(
            |it: PlaceholderItem| it.eltid@.len() == 0,
        ),
    decreases second.len(),
{
    let pred = |it: PlaceholderItem| it.eltid@.len() == 0;
    reveal(Seq::filter);
    if second.len() == 0 {
        assert(second.filter(pred) == Seq::<PlaceholderItem>::empty());
        assert(first.filter(pred) + Seq::<PlaceholderItem>::empty() == first.filter(pred));
    } else {
        unnamed_items_kept(first, second.drop_last());
        let prev = merged_items(first, second.drop_last());
        let last = second.last();
        if !eltid_taken(prev, last.eltid@) {
            assert(prev.push(last).drop_last() == prev);
            assert(prev.push(last).last() == last);
        }
        if pred(last) {
            assert(first.filter(pred) + second.drop_last().filter(pred).push(last)
                == (first.filter(pred) + second.drop_last().filter(pred)).push(last));
        }
    }
}

/// When every element of both passes has a non-negative position and size,
/// so does every item of the manifest: its geometry is taken unchanged.
pub proof fn geometry_carried_over(first: Seq<PlaceholderItem>, second: Seq<PlaceholderItem>)
    requires
        forall|k: int| 0 <= k < first.len() ==> geometry_non_negative(#[trigger] first[k]),
        forall|k: int| 0 <= k < second.len() ==> geometry_non_negative(#[trigger] second[k]),
    ensures
        forall|j: int|
            0 <= j < merged_items(first, second).len() ==> geometry_non_negative(
                #[trigger] merged_items(first, second)[j],
            ),
{
    lemma_merged_shape(first, second);
}

} // verus!
