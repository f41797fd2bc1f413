//! The pane layout of a terminal tab: a binary tree of splits whose leaves are panes,
//! and the plan that turns any small layout into a genuine 2x2 grid.

use vstd::prelude::*;

verus! {

/// Identifies one terminal pane.
#[derive(Clone, Copy, Debug, PartialEq, Eq, Hash, Structural)]
pub struct PaneId(pub u64);

/// The direction in which a split divides its area.
#[derive(Clone, Copy, Debug, PartialEq, Eq, Hash, Structural)]
pub enum SplitAxis {
    Horizontal,
    Vertical,
}

/// A layout of panes: a single pane, or an area split in two along an axis.
#[derive(Debug)]
pub enum PaneTree {
    Leaf { pane_id: PaneId },
    Split { axis: SplitAxis, first: Box<PaneTree>, second: Box<PaneTree> },
}

/// Why a layout operation was refused.
#[derive(Clone, Copy, Debug, PartialEq, Eq, Structural)]
pub enum PaneTreeError {
    /// The pane named by the operation is not in the layout.
    PaneNotFound,
    /// The pane to add is already in the layout.
    DuplicatePane,
    /// The last pane of a layout cannot be closed.
    LastPane,
}

/// The axis crossing `axis`.
pub open spec fn spec_orthogonal(axis: SplitAxis) -> SplitAxis {
    match axis {
        SplitAxis::Horizontal => SplitAxis::Vertical,
        SplitAxis::Vertical => SplitAxis::Horizontal,
    }
}

impl PaneTree {
    /// The panes of the layout, first child before second child.
    pub open spec fn ids(self) -> Seq<PaneId>
        decreases self,
    {
        match self {
            PaneTree::Leaf { pane_id } => seq![pane_id],
            PaneTree::Split { first, second, .. } => first.ids() + second.ids(),
        }
    }

    /// Whether `pane` is a leaf of the layout.
    pub open spec fn has(self, pane: PaneId) -> bool
        decreases self,
    {
        match self {
            PaneTree::Leaf { pane_id } => pane_id == pane,
            PaneTree::Split { first, second, .. } => first.has(pane) || second.has(pane),
        }
    }

    /// The number of panes.
    pub open spec fn count(self) -> nat
        decreases self,
    {
        match self {
            PaneTree::Leaf { .. } => 1,
            PaneTree::Split { first, second, .. } => first.count() + second.count(),
        }
    }

    /// No pane occurs twice.
    pub open spec fn distinct(self) -> bool
        decreases self,
    {
        match self {
            PaneTree::Leaf { .. } => true,
            PaneTree::Split { first, second, .. } => {
                &&& first.distinct()
                &&& second.distinct()
                &&& forall|p: PaneId| !(first.has(p) && second.has(p))
            },
        }
    }

    pub open spec fn is_leaf(self) -> bool {
        self is Leaf
    }

    /// The layout with the pane `pane` replaced by a split along `axis` whose first child
    /// is `pane` and whose second child is the new pane `new_pane`.
    pub open spec fn spec_split(self, pane: PaneId, axis: SplitAxis, new_pane: PaneId) -> PaneTree
        decreases self,
    {
        match self {
            PaneTree::Leaf { pane_id } => if pane_id == pane {
                PaneTree::Split {
                    axis,
                    first: Box::new(PaneTree::Leaf { pane_id }),
                    second: Box::new(PaneTree::Leaf { pane_id: new_pane }),
                }
            } else {
                self
            },
            PaneTree::Split { axis: a, first, second } => PaneTree::Split {
                axis: a,
                first: Box::new(first.spec_split(pane, axis, new_pane)),
                second: Box::new(second.spec_split(pane, axis, new_pane)),
            },
        }
    }

    /// The layout without the first leaf `pane`: its parent split gives way to the other
    /// child. `None` when the layout is that leaf alone.
    pub open spec fn spec_close(self, pane: PaneId) -> Option<PaneTree>
        decreases self,
    {
        match self {
            PaneTree::Leaf { pane_id } => if pane_id == pane {
                None
            } else {
                Some(self)
            },
            PaneTree::Split { axis, first, second } => if first.has(pane) {
                match first.spec_close(pane) {
                    None => Some(*second),
                    Some(rest) => Some(
                        PaneTree::Split { axis, first: Box::new(rest), second },
                    ),
                }
            } else if second.has(pane) {
                match second.spec_close(pane) {
                    None => Some(*first),
                    Some(rest) => Some(
                        PaneTree::Split { axis, first, second: Box::new(rest) },
                    ),
                }
            } else {
                Some(self)
            },
        }
    }
}

impl Clone for PaneTree {
    fn clone(&self) -> (r: Self)
        ensures
            r == *self,
        decreases self,
    {
        match self {
            PaneTree::Leaf { pane_id } => PaneTree::Leaf { pane_id: *pane_id },
            PaneTree::Split { axis, first, second } => PaneTree::Split {
                axis: *axis,
                first: Box::new((&**first).clone()),
                second: Box::new((&**second).clone()),
            },
        }
    }
}

/// A split along `axis` whose two children are single panes.
pub open spec fn spec_leaf_pair(tree: PaneTree, axis: SplitAxis) -> bool {
    match tree {
        PaneTree::Split { axis: a, first, second } => a == axis && first.is_leaf()
            && second.is_leaf(),
        _ => false,
    }
}

/// A genuine 2x2 grid: a root split whose two children are both pairs of panes split
/// across the root's axis.
pub open spec fn spec_is_grid(tree: PaneTree) -> bool {
    match tree {
        PaneTree::Split { axis, first, second } => spec_leaf_pair(*first, spec_orthogonal(axis))
            && spec_leaf_pair(*second, spec_orthogonal(axis)),
        _ => false,
    }
}

/// The next split (pane and axis) on the way to a 2x2 grid, when the layout can still grow
/// into one: a single pane is split horizontally; a pair of panes splits its first pane
/// across the pair; a pane beside a crossing pair is split across the root.
pub open spec fn spec_next_grid_split(tree: PaneTree) -> Option<(PaneId, SplitAxis)> {
    match tree {
        PaneTree::Leaf { pane_id } => Some((pane_id, SplitAxis::Horizontal)),
        PaneTree::Split { axis, first, second } => {
            let cross = spec_orthogonal(axis);
            match (*first, *second) {
                (PaneTree::Leaf { pane_id }, PaneTree::Leaf { .. }) => Some((pane_id, cross)),
                (PaneTree::Leaf { pane_id }, other) => if spec_leaf_pair(other, cross) {
                    Some((pane_id, cross))
                } else {
                    None
                },
                (other, PaneTree::Leaf { pane_id }) => if spec_leaf_pair(other, cross) {
                    Some((pane_id, cross))
                } else {
                    None
                },
                _ => None,
            }
        },
    }
}

/// The axis of the root split and the number of panes, or `None` for a single pane.
pub open spec fn spec_root_split(tree: PaneTree) -> Option<(SplitAxis, nat)> {
    match tree {
        PaneTree::Split { axis, .. } => Some((axis, tree.count())),
        PaneTree::Leaf { .. } => None,
    }
}

/// A root split with a child split whose axis differs from the root's: the first child that
/// is a split decides.
pub open spec fn spec_nested_axes(tree: PaneTree) -> bool {
    match tree {
        PaneTree::Split { axis, first, second } => match *first {
            PaneTree::Split { axis: child, .. } => child != axis,
            PaneTree::Leaf { .. } => match *second {
                PaneTree::Split { axis: child, .. } => child != axis,
                PaneTree::Leaf { .. } => false,
            },
        },
        PaneTree::Leaf { .. } => false,
    }
}

impl PaneTree {
    /// A layout of the single pane `pane_id`.
    pub fn leaf(pane_id: PaneId) -> (r: PaneTree)
        ensures
            r == (PaneTree::Leaf { pane_id }),
    {
        PaneTree::Leaf { pane_id }
    }

    /// The panes of the layout in order, first child before second child.
    pub fn pane_ids(&self) -> (r: Vec<PaneId>)
        ensures
            r@ == self.ids(),
        decreases self,
    {
        match self {
            PaneTree::Leaf { pane_id } => {
                let mut ids = Vec::new();
                ids.push(*pane_id);
                ids
            },
            PaneTree::Split { first, second, .. } => {
                let mut ids = (&**first).pane_ids();
                let mut rest = (&**second).pane_ids();
                ids.append(&mut rest);
                ids
            },
        }
    }

    /// Whether `pane` is in the layout.
    pub fn contains(&self, pane: PaneId) -> (r: bool)
        ensures
            r == self.has(pane),
        decreases self,
    {
        match self {
            PaneTree::Leaf { pane_id } => *pane_id == pane,
            PaneTree::Split { first, second, .. } => (&**first).contains(pane) || (
            &**second).contains(pane),
        }
    }

    fn split_at(self, pane: PaneId, axis: SplitAxis, new_pane: PaneId) -> (r: PaneTree)
        ensures
            r == self.spec_split(pane, axis, new_pane),
        decreases self,
    {
        match self {
            PaneTree::Leaf { pane_id } => {
                if pane_id == pane {
                    PaneTree::Split {
                        axis,
                        first: Box::new(PaneTree::Leaf { pane_id }),
                        second: Box::new(PaneTree::Leaf { pane_id: new_pane }),
                    }
                } else {
                    PaneTree::Leaf { pane_id }
                }
            },
            PaneTree::Split { axis: a, first, second } => {
                let first = (*first).split_at(pane, axis, new_pane);
                let second = (*second).split_at(pane, axis, new_pane);
                PaneTree::Split { axis: a, first: Box::new(first), second: Box::new(second) }
            },
        }
    }

    /// Splits the pane `pane` along `axis`: `pane` stays first and the new pane
    /// `new_pane` comes second. Refused when `pane` is absent or `new_pane` present.
    pub fn split(self, pane: PaneId, axis: SplitAxis, new_pane: PaneId) -> (r: Result<
        PaneTree,
        PaneTreeError,
    >)
        ensures
            !self.has(pane) ==> r == Err::<PaneTree, PaneTreeError>(PaneTreeError::PaneNotFound),
            self.has(pane) && self.has(new_pane) ==> r == Err::<PaneTree, PaneTreeError>(
                PaneTreeError::DuplicatePane,
            ),
            self.has(pane) && !self.has(new_pane) ==> r == Ok::<PaneTree, PaneTreeError>(
                self.spec_split(pane, axis, new_pane),
            ),
    {
        if !self.contains(pane) {
            Err(PaneTreeError::PaneNotFound)
        } else if self.contains(new_pane) {
            Err(PaneTreeError::DuplicatePane)
        } else {
            Ok(self.split_at(pane, axis, new_pane))
        }
    }

    fn close_at(self, pane: PaneId) -> (r: Option<PaneTree>)
        ensures
            r == self.spec_close(pane),
        decreases self,
    {
        match self {
            PaneTree::Leaf { pane_id } => {
                if pane_id == pane {
                    None
                } else {
                    Some(PaneTree::Leaf { pane_id })
                }
            },
            PaneTree::Split { axis, first, second } => {
                if (&*first).contains(pane) {
                    match (*first).close_at(pane) {
                        None => Some(*second),
                        Some(rest) => Some(PaneTree::Split { axis, first: Box::new(rest), second }),
                    }
                } else if (&*second).contains(pane) {
                    match (*second).close_at(pane) {
                        None => Some(*first),
                        Some(rest) => Some(PaneTree::Split { axis, first, second: Box::new(rest) }),
                    }
                } else {
                    Some(PaneTree::Split { axis, first, second })
                }
            },
        }
    }

    /// Closes the pane `pane`; its parent split gives way to the other child. Refused when
    /// `pane` is absent or is the only pane.
    pub fn close(self, pane: PaneId) -> (r: Result<PaneTree, PaneTreeError>)
        ensures
            !self.has(pane) ==> r == Err::<PaneTree, PaneTreeError>(PaneTreeError::PaneNotFound),
            self.has(pane) ==> match self.spec_close(pane) {
                None => r == Err::<PaneTree, PaneTreeError>(PaneTreeError::LastPane),
                Some(rest) => r == Ok::<PaneTree, PaneTreeError>(rest),
            },
    {
        if !self.contains(pane) {
            return Err(PaneTreeError::PaneNotFound);
        }
        match self.close_at(pane) {
            None => Err(PaneTreeError::LastPane),
            Some(rest) => Ok(rest),
        }
    }
}

/// The axis crossing `axis`.
pub fn orthogonal(axis: SplitAxis) -> (r: SplitAxis)
    ensures
        r == spec_orthogonal(axis),
{
    match axis {
        SplitAxis::Horizontal => SplitAxis::Vertical,
        SplitAxis::Vertical => SplitAxis::Horizontal,
    }
}

/// Whether `tree` is a split along `expected` of two single panes.
pub fn leaf_pair(tree: &PaneTree, expected: SplitAxis) -> (r: bool)
    ensures
        r == spec_leaf_pair(*tree, expected),
{
    match tree {
        PaneTree::Split { axis, first, second } => {
            *axis == expected && matches!(**first, PaneTree::Leaf { .. }) && matches!(
                **second,
                PaneTree::Leaf { .. }
            )
        },
        PaneTree::Leaf { .. } => false,
    }
}

/// Whether `tree` is a genuine 2x2 grid.
pub fn is_grid(tree: &PaneTree) -> (r: bool)
    ensures
        r == spec_is_grid(*tree),
{
    match tree {
        PaneTree::Split { axis, first, second } => {
            let cross = orthogonal(*axis);
            leaf_pair(first, cross) && leaf_pair(second, cross)
        },
        PaneTree::Leaf { .. } => false,
    }
}

/// The next pane to split, and along which axis, to grow `tree` into a 2x2 grid; `None`
/// when `tree` is a grid already or cannot become one by splitting.
pub fn next_grid_split(tree: &PaneTree) -> (r: Option<(PaneId, SplitAxis)>)
    ensures
        r == spec_next_grid_split(*tree),
{
    match tree {
        PaneTree::Leaf { pane_id } => Some((*pane_id, SplitAxis::Horizontal)),
        PaneTree::Split { axis, first, second } => {
            let cross = orthogonal(*axis);
            match (&**first, &**second) {
                (PaneTree::Leaf { pane_id }, PaneTree::Leaf { .. }) => Some((*pane_id, cross)),
                (PaneTree::Leaf { pane_id }, other) => {
                    if leaf_pair(other, cross) {
                        Some((*pane_id, cross))
                    } else {
                        None
                    }
                },
                (other, PaneTree::Leaf { pane_id }) => {
                    if leaf_pair(other, cross) {
                        Some((*pane_id, cross))
                    } else {
                        None
                    }
                },
                _ => None,
            }
        },
    }
}

/// The axis of the root split and the number of panes; `None` for a single pane.
pub fn root_split(tree: &PaneTree) -> (r: Option<(SplitAxis, usize)>)
    ensures
        match spec_root_split(*tree) {
            None => r is None,
            Some((axis, count)) => r == Some((axis, count as usize)) && count <= usize::MAX,
        },
{
    match tree {
        PaneTree::Split { axis, .. } => {
            let ids = tree.pane_ids();
            proof {
                lemma_ids_count(*tree);
            }
            Some((*axis, ids.len()))
        },
        PaneTree::Leaf { .. } => None,
    }
}

/// Whether the root splits along one axis and its first child that is a split crosses it.
pub fn nested_axes(tree: &PaneTree) -> (r: bool)
    ensures
        r == spec_nested_axes(*tree),
{
    match tree {
        PaneTree::Split { axis, first, second } => {
            let child_axis = match &**first {
                PaneTree::Split { axis: child, .. } => Some(*child),
                PaneTree::Leaf { .. } => match &**second {
                    PaneTree::Split { axis: child, .. } => Some(*child),
                    PaneTree::Leaf { .. } => None,
                },
            };
            match child_axis {
                Some(child) => child != *axis,
                None => false,
            }
        },
        PaneTree::Leaf { .. } => false,
    }
}

/// The panes listed by `ids` are the panes of the layout, one entry per pane.
pub proof fn lemma_ids_count(tree: PaneTree)
    ensures
        tree.ids().len() == tree.count(),
        forall|p: PaneId| tree.has(p) <==> tree.ids().contains(p),
    decreases tree,
{
    match tree {
        PaneTree::Leaf { pane_id } => {
            assert(tree.ids()[0] == pane_id);
        },
        PaneTree::Split { first, second, .. } => {
            lemma_ids_count(*first);
            lemma_ids_count(*second);
            let a = first.ids();
            let b = second.ids();
            assert forall|p: PaneId| tree.has(p) <==> tree.ids().contains(p) by {
                if first.has(p) {
                    let i = choose|i: int| 0 <= i < a.len() && a[i] == p;
                    assert((a + b)[i] == p);
                } else if second.has(p) {
                    let i = choose|i: int| 0 <= i < b.len() && b[i] == p;
                    assert((a + b)[a.len() + i] == p);
                }
                if tree.ids().contains(p) {
                    let i = choose|i: int| 0 <= i < (a + b).len() && (a + b)[i] == p;
                    if i < a.len() {
                        assert(a[i] == p);
                    } else {
                        assert(b[i - a.len()] == p);
                    }
                }
            }
        },
    }
}

/// Splitting a pane of a layout with distinct panes adds exactly the new pane: one pane
/// more, every former pane kept, and still no pane twice.
pub proof fn lemma_split_panes(tree: PaneTree, pane: PaneId, axis: SplitAxis, new_pane: PaneId)
    requires
        tree.distinct(),
        tree.has(pane),
        !tree.has(new_pane),
    ensures
        tree.spec_split(pane, axis, new_pane).count() == tree.count() + 1,
        tree.spec_split(pane, axis, new_pane).distinct(),
        forall|q: PaneId|
            tree.spec_split(pane, axis, new_pane).has(q) <==> (tree.has(q) || q == new_pane),
    decreases tree,
{
    reveal_with_fuel(PaneTree::count, 3);
    reveal_with_fuel(PaneTree::has, 3);
    reveal_with_fuel(PaneTree::distinct, 3);
    reveal_with_fuel(PaneTree::spec_split, 2);
    lemma_split_absent_unchanged(tree, pane, axis, new_pane);
    let result = tree.spec_split(pane, axis, new_pane);
    match tree {
        PaneTree::Leaf { pane_id } => {
            assert forall|q: PaneId| result.has(q) <==> (tree.has(q) || q == new_pane) by {
                assert(result.has(q) == (pane_id == q || new_pane == q));
            }
        },
        PaneTree::Split { first, second, .. } => {
            let f = first.spec_split(pane, axis, new_pane);
            let g = second.spec_split(pane, axis, new_pane);
            if first.has(pane) {
                assert(!second.has(pane));
                lemma_split_panes(*first, pane, axis, new_pane);
                lemma_split_absent_unchanged(*second, pane, axis, new_pane);
                assert(g == *second);
            } else {
                lemma_split_panes(*second, pane, axis, new_pane);
                lemma_split_absent_unchanged(*first, pane, axis, new_pane);
                assert(f == *first);
            }
            assert forall|q: PaneId| result.has(q) <==> (tree.has(q) || q == new_pane) by {
                assert(result.has(q) == (f.has(q) || g.has(q)));
                assert(f.has(q) == (first.has(q) || (first.has(pane) && q == new_pane)));
                assert(g.has(q) == (second.has(q) || (second.has(pane) && q == new_pane)));
            }
            assert forall|p: PaneId| !(f.has(p) && g.has(p)) by {
                if f.has(p) && g.has(p) {
                    assert(first.has(p) || p == new_pane);
                    assert(second.has(p) || p == new_pane);
                }
            }
        },
    }
}

/// Splitting a pane that a layout does not hold leaves the layout as it is.
pub proof fn lemma_split_absent_unchanged(
    tree: PaneTree,
    pane: PaneId,
    axis: SplitAxis,
    new_pane: PaneId,
)
    ensures
        !tree.has(pane) ==> tree.spec_split(pane, axis, new_pane) == tree,
    decreases tree,
{
    match tree {
        PaneTree::Leaf { .. } => {},
        PaneTree::Split { first, second, .. } => {
            lemma_split_absent_unchanged(*first, pane, axis, new_pane);
            lemma_split_absent_unchanged(*second, pane, axis, new_pane);
        },
    }
}

/// Closing a pane of a layout with distinct panes removes exactly that pane: the layout
/// vanishes only when it was that pane alone, and otherwise keeps one pane fewer, every
/// other pane, and no pane twice.
pub proof fn lemma_close_panes(tree: PaneTree, pane: PaneId)
    requires
        tree.distinct(),
        tree.has(pane),
    ensures
        tree.spec_close(pane) is None <==> tree == (PaneTree::Leaf { pane_id: pane }),
        tree.spec_close(pane) matches Some(rest) ==> {
            &&& rest.count() + 1 == tree.count()
            &&& rest.distinct()
            &&& forall|q: PaneId| rest.has(q) <==> (tree.has(q) && q != pane)
        },
    decreases tree,
{
    reveal_with_fuel(PaneTree::count, 3);
    reveal_with_fuel(PaneTree::has, 3);
    reveal_with_fuel(PaneTree::distinct, 3);
    reveal_with_fuel(PaneTree::spec_split, 2);
    match tree {
        PaneTree::Leaf { .. } => {},
        PaneTree::Split { axis, first, second } => {
            if first.has(pane) {
                lemma_close_panes(*first, pane);
                assert(!second.has(pane));
                match first.spec_close(pane) {
                    None => {
                        assert forall|q: PaneId| second.has(q) <==> (tree.has(q) && q != pane) by {
                            if second.has(q) {
                                assert(!first.has(q));
                            }
                        }
                    },
                    Some(r) => {
                        let rest = PaneTree::Split { axis, first: Box::new(r), second };
                        assert(rest.count() == r.count() + second.count());
                        assert forall|q: PaneId| rest.has(q) <==> (tree.has(q) && q != pane) by {
                            assert(rest.has(q) == (r.has(q) || second.has(q)));
                        }
                        assert forall|p: PaneId| !(r.has(p) && second.has(p)) by {
                            if r.has(p) {
                                assert(first.has(p));
                            }
                        }
                    },
                }
            } else {
                lemma_close_panes(*second, pane);
                assert(!first.has(pane));
                match second.spec_close(pane) {
                    None => {
                        assert forall|q: PaneId| first.has(q) <==> (tree.has(q) && q != pane) by {
                            if first.has(q) {
                                assert(!second.has(q));
                            }
                        }
                    },
                    Some(r) => {
                        let rest = PaneTree::Split { axis, first, second: Box::new(r) };
                        assert(rest.count() == first.count() + r.count());
                        assert forall|q: PaneId| rest.has(q) <==> (tree.has(q) && q != pane) by {
                            assert(rest.has(q) == (first.has(q) || r.has(q)));
                        }
                        assert forall|p: PaneId| !(first.has(p) && r.has(p)) by {
                            if r.has(p) {
                                assert(second.has(p));
                            }
                        }
                    },
                }
            }
        },
    }
}

/// A grid holds four panes and needs no further split.
pub proof fn lemma_grid_is_final(tree: PaneTree)
    requires
        spec_is_grid(tree),
    ensures
        tree.count() == 4,
        spec_next_grid_split(tree) is None,
{
    reveal_with_fuel(PaneTree::count, 3);
    reveal_with_fuel(PaneTree::has, 3);
    reveal_with_fuel(PaneTree::distinct, 3);
    reveal_with_fuel(PaneTree::spec_split, 2);
}

/// A planned split names a pane of the layout, adds one pane, and leaves either a grid
/// or a layout that still has a planned split. A layout with a planned split holds at most
/// three panes, so at most three planned splits reach a grid.
pub proof fn lemma_planned_split_progresses(tree: PaneTree, new_pane: PaneId)
    requires
        tree.distinct(),
        !tree.has(new_pane),
        spec_next_grid_split(tree) is Some,
    ensures
        ({
            let (pane, axis) = spec_next_grid_split(tree)->0;
            let next = tree.spec_split(pane, axis, new_pane);
            &&& tree.has(pane)
            &&& tree.count() <= 3
            &&& next.count() == tree.count() + 1
            &&& next.distinct()
            &&& forall|q: PaneId| next.has(q) <==> (tree.has(q) || q == new_pane)
            &&& spec_is_grid(next) || spec_next_grid_split(next) is Some
        }),
{
    reveal_with_fuel(PaneTree::count, 3);
    reveal_with_fuel(PaneTree::has, 3);
    reveal_with_fuel(PaneTree::spec_split, 3);
    let (pane, axis) = spec_next_grid_split(tree)->0;
    let next = tree.spec_split(pane, axis, new_pane);
    match tree {
        PaneTree::Leaf { pane_id } => {
            assert(next == PaneTree::Split {
                axis,
                first: Box::new(PaneTree::Leaf { pane_id }),
                second: Box::new(PaneTree::Leaf { pane_id: new_pane }),
            });
        },
        PaneTree::Split { axis: root, first, second } => {
            let cross = spec_orthogonal(root);
            assert(axis == cross);
            let pair = PaneTree::Split {
                axis: cross,
                first: Box::new(PaneTree::Leaf { pane_id: pane }),
                second: Box::new(PaneTree::Leaf { pane_id: new_pane }),
            };
            if first.is_leaf() {
                assert(*first == PaneTree::Leaf { pane_id: pane });
                assert(first.spec_split(pane, axis, new_pane) == pair);
                assert(!second.has(pane));
                lemma_split_absent_unchanged(*second, pane, axis, new_pane);
                assert(next == PaneTree::Split { axis: root, first: Box::new(pair), second });
                assert(spec_leaf_pair(pair, cross));
            } else {
                assert(second.is_leaf());
                assert(*second == PaneTree::Leaf { pane_id: pane });
                assert(second.spec_split(pane, axis, new_pane) == pair);
                assert(!first.has(pane));
                lemma_split_absent_unchanged(*first, pane, axis, new_pane);
                assert(next == PaneTree::Split { axis: root, first, second: Box::new(pair) });
                assert(spec_leaf_pair(pair, cross));
            }
        },
    }
    lemma_split_panes(tree, pane, axis, new_pane);
}

/// A layout that still has a planned split holds at most three panes.
pub proof fn lemma_planned_split_small(tree: PaneTree)
    requires
        spec_next_grid_split(tree) is Some,
    ensures
        tree.count() <= 3,
{
    reveal_with_fuel(PaneTree::count, 3);
}

/// Every layout has at least one pane.
pub proof fn lemma_count_positive(tree: PaneTree)
    ensures
        tree.count() >= 1,
    decreases tree,
{
    match tree {
        PaneTree::Leaf { .. } => {},
        PaneTree::Split { first, second, .. } => {
            lemma_count_positive(*first);
            lemma_count_positive(*second);
        },
    }
}

/// A layout of one or two panes always has a planned split.
pub proof fn lemma_small_layout_has_planned_split(tree: PaneTree)
    requires
        tree.count() <= 2,
    ensures
        spec_next_grid_split(tree) is Some,
{
    reveal_with_fuel(PaneTree::count, 2);
    match tree {
        PaneTree::Leaf { .. } => {},
        PaneTree::Split { first, second, .. } => {
            lemma_count_positive(*first);
            lemma_count_positive(*second);
            if let PaneTree::Split { first: f, second: s, .. } = *first {
                lemma_count_positive(*f);
                lemma_count_positive(*s);
            }
            if let PaneTree::Split { first: f, second: s, .. } = *second {
                lemma_count_positive(*f);
                lemma_count_positive(*s);
            }
        },
    }
}

/// How far a layout is from a 2x2 grid under the grid plan (split where planned, otherwise
/// close a pane): nothing for a grid, the missing panes while a split is planned, and the
/// panes plus two otherwise.
pub open spec fn spec_grid_distance(tree: PaneTree) -> nat {
    if spec_is_grid(tree) {
        0
    } else if spec_next_grid_split(tree) is Some {
        (4 - tree.count()) as nat
    } else {
        tree.count() + 2
    }
}

/// The grid plan never stalls: from any layout with distinct panes that is not a grid, the
/// planned split (when there is one) or closing any pane (when there is none) brings the
/// layout strictly closer to a grid, so repeating the plan reaches a 2x2 grid.
pub proof fn lemma_grid_plan_makes_progress(tree: PaneTree, pane: PaneId, new_pane: PaneId)
    requires
        tree.distinct(),
        !spec_is_grid(tree),
    ensures
        spec_grid_distance(tree) > 0,
        spec_next_grid_split(tree) is Some && !tree.has(new_pane) ==> {
            let (p, a) = spec_next_grid_split(tree)->0;
            let next = tree.spec_split(p, a, new_pane);
            &&& next.distinct()
            &&& spec_grid_distance(next) < spec_grid_distance(tree)
        },
        spec_next_grid_split(tree) is None && tree.has(pane) ==> {
            &&& tree.spec_close(pane) is Some
            &&& tree.spec_close(pane)->0.distinct()
            &&& spec_grid_distance(tree.spec_close(pane)->0) < spec_grid_distance(tree)
        },
{
    if spec_next_grid_split(tree) is Some {
        lemma_planned_split_small(tree);
        if !tree.has(new_pane) {
            lemma_planned_split_progresses(tree, new_pane);
        }
    } else {
        if tree.count() <= 2 {
            lemma_small_layout_has_planned_split(tree);
        }
        if tree.has(pane) {
            lemma_close_panes(tree, pane);
            assert(tree.count() >= 3);
            assert(tree != (PaneTree::Leaf { pane_id: pane }));
            let rest = tree.spec_close(pane)->0;
            assert(rest.count() + 1 == tree.count());
            assert(spec_grid_distance(tree) == tree.count() + 2);
            if spec_next_grid_split(rest) is Some {
                lemma_planned_split_small(rest);
            }
        }
    }
}

/// Three planned splits turn a single pane into a 2x2 grid, whichever fresh panes they add.
pub proof fn lemma_planned_splits_build_grid(pane: PaneId, n1: PaneId, n2: PaneId, n3: PaneId)
    requires
        pane != n1,
        pane != n2,
        pane != n3,
        n1 != n2,
        n1 != n3,
        n2 != n3,
    ensures
        ({
            let t0 = PaneTree::Leaf { pane_id: pane };
            let s1 = spec_next_grid_split(t0)->0;
            let t1 = t0.spec_split(s1.0, s1.1, n1);
            let s2 = spec_next_grid_split(t1)->0;
            let t2 = t1.spec_split(s2.0, s2.1, n2);
            let s3 = spec_next_grid_split(t2)->0;
            let t3 = t2.spec_split(s3.0, s3.1, n3);
            &&& spec_next_grid_split(t0) is Some
            &&& spec_next_grid_split(t1) is Some
            &&& spec_next_grid_split(t2) is Some
            &&& spec_is_grid(t3)
            &&& spec_next_grid_split(t3) is None
        }),
{
    let t0 = PaneTree::Leaf { pane_id: pane };
    let s1 = spec_next_grid_split(t0)->0;
    let t1 = t0.spec_split(s1.0, s1.1, n1);
    lemma_planned_split_progresses(t0, n1);
    if spec_is_grid(t1) {
        lemma_grid_is_final(t1);
    }
    let s2 = spec_next_grid_split(t1)->0;
    let t2 = t1.spec_split(s2.0, s2.1, n2);
    lemma_planned_split_progresses(t1, n2);
    let s3 = spec_next_grid_split(t2)->0;
    let t3 = t2.spec_split(s3.0, s3.1, n3);
    if spec_is_grid(t2) {
        lemma_grid_is_final(t2);
    }
    lemma_planned_split_progresses(t2, n3);
    if spec_next_grid_split(t3) is Some {
        lemma_planned_split_small(t3);
    }
    lemma_grid_is_final(t3);
}

/// The shape of a 2x2 grid: a root split whose two children each split two single panes
/// along the other axis (a horizontal root holds two vertical pairs, a vertical root two
/// horizontal pairs). On the way there a single pane is split horizontally first, and a pair
/// of single panes splits its first pane across the pair.
pub proof fn lemma_grid_shape(tree: PaneTree, pane: PaneId)
    ensures
        spec_is_grid(tree) <==> match tree {
            PaneTree::Split { axis, first, second } => match (*first, *second) {
                (
                    PaneTree::Split { axis: a1, first: f1, second: s1 },
                    PaneTree::Split { axis: a2, first: f2, second: s2 },
                ) => a1 != axis && a2 != axis && f1.is_leaf() && s1.is_leaf() && f2.is_leaf()
                    && s2.is_leaf(),
                _ => false,
            },
            _ => false,
        },
        spec_next_grid_split(PaneTree::Leaf { pane_id: pane }) == Some(
            (pane, SplitAxis::Horizontal),
        ),
        match tree {
            PaneTree::Split { axis, first, second } => (*first == PaneTree::Leaf { pane_id: pane }
                && second.is_leaf()) ==> spec_next_grid_split(tree) == Some(
                (
                    pane,
                    if axis == SplitAxis::Horizontal {
                        SplitAxis::Vertical
                    } else {
                        SplitAxis::Horizontal
                    },
                ),
            ),
            _ => true,
        },
{
}

} // verus!
