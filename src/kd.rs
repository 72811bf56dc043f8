//! The nearest-neighbour search structure, taken from the `kd-tree` crate.
//!
//! An item of the tree is a point in RGB space together with the palette
//! index that it stands for.
use vstd::multiset::Multiset;
use vstd::prelude::*;

verus! {

/// A point of the tree with the output index that it carries.
pub type KdItem = ([i32; 3], u8);

/// Squared Euclidean distance between two points of the tree.
pub open spec fn kd_squared_distance(a: [i32; 3], b: [i32; 3]) -> int {
    (a[0] - b[0]) * (a[0] - b[0]) + (a[1] - b[1]) * (a[1] - b[1]) + (a[2] - b[2]) * (a[2] - b[2])
}

/// A point whose coordinates are channel values.
pub open spec fn kd_point_in_range(p: [i32; 3]) -> bool {
    &&& 0 <= p[0] <= 255
    &&& 0 <= p[1] <= 255
    &&& 0 <= p[2] <= 255
}

/// A three-dimensional tree of the `kd-tree` crate. Verus cannot read the
/// crate's type, so it is held here, out of Verus's sight; `kd_contents`
/// names what it holds.
#[verifier::external_body]
pub struct KdColorTree {
    tree: kd_tree::KdTree3<KdItem>,
}

/// The items that a tree holds.
pub uninterp spec fn kd_contents(t: KdColorTree) -> Multiset<KdItem>;

/// Relies on `KdTreeN::build`: it reorders the given items along the axes and
/// keeps every one of them.
#[verifier::external_body]
pub(crate) fn kd_build(items: Vec<KdItem>) -> (t: KdColorTree)
    ensures
        kd_contents(t) == items@.to_multiset(),
{
    KdColorTree { tree: kd_tree::KdTreeN::build(items) }
}

/// Relies on `KdSliceN::nearest`: `None` on an empty tree, else an item of the
/// tree at the least squared distance from the query (which of several at the
/// same distance is left to the search order). The distance is summed in `i32`,
/// so the coordinates are kept to channel values.
#[verifier::external_body]
pub(crate) fn kd_nearest(t: &KdColorTree, query: [i32; 3]) -> (r: Option<KdItem>)
    requires
        kd_point_in_range(query),
        forall|e: KdItem| kd_contents(*t).count(e) > 0 ==> kd_point_in_range(e.0),
    ensures
        r is None <==> kd_contents(*t).len() == 0,
        r matches Some(e) ==> kd_contents(*t).count(e) > 0,
        r matches Some(e) ==> forall|o: KdItem|
            kd_contents(*t).count(o) > 0 ==> kd_squared_distance(e.0, query)
                <= kd_squared_distance(o.0, query),
{
    t.tree.nearest(&query).map(|found| *found.item)
}

} // verus!
