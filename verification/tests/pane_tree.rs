use rshell::pane_tree::{
    is_grid, nested_axes, next_grid_split, orthogonal, root_split, PaneId, PaneTree,
    PaneTreeError, SplitAxis,
};

struct Ids {
    next: u64,
}

impl Ids {
    fn fresh(&mut self) -> PaneId {
        self.next += 1;
        PaneId(self.next)
    }
}

fn split(tree: PaneTree, pane: PaneId, axis: SplitAxis, ids: &mut Ids) -> PaneTree {
    tree.split(pane, axis, ids.fresh()).unwrap()
}

#[test]
fn grid_requires_two_orthogonal_leaf_pairs_in_either_orientation() {
    let mut ids = Ids { next: 0 };
    for axis in [SplitAxis::Horizontal, SplitAxis::Vertical] {
        let pane = ids.fresh();
        let leaf = PaneTree::leaf(pane);
        assert!(!is_grid(&leaf));
        assert_eq!(next_grid_split(&leaf), Some((pane, SplitAxis::Horizontal)));
        let two = split(leaf, pane, axis, &mut ids);
        assert!(!is_grid(&two));
        assert_eq!(next_grid_split(&two), Some((pane, orthogonal(axis))));
        let other = two.pane_ids()[1];
        for half in [pane, other] {
            let three = split(two.clone(), half, orthogonal(axis), &mut ids);
            let remaining = if half == pane { other } else { pane };
            assert!(!is_grid(&three));
            assert_eq!(next_grid_split(&three), Some((remaining, orthogonal(axis))));
            let grid = split(three.clone(), remaining, orthogonal(axis), &mut ids);
            assert!(is_grid(&grid));
            assert_eq!(next_grid_split(&grid), None);
            let comb = split(three, half, axis, &mut ids);
            assert!(!is_grid(&comb));
            assert_eq!(next_grid_split(&comb), None);
            let five = split(grid, half, axis, &mut ids);
            assert!(!is_grid(&five));
            assert_eq!(next_grid_split(&five), None);
        }
        let parallel_three = split(two, pane, axis, &mut ids);
        assert!(!is_grid(&parallel_three));
        assert_eq!(next_grid_split(&parallel_three), None);
    }
}

#[test]
fn planned_commands_build_a_real_grid_without_active_pane_assumptions() {
    let mut ids = Ids { next: 0 };
    let mut tree = PaneTree::leaf(ids.fresh());
    for _ in 0..3 {
        let (pane, axis) = next_grid_split(&tree).unwrap();
        tree = split(tree, pane, axis, &mut ids);
    }
    assert!(is_grid(&tree));
    assert_eq!(next_grid_split(&tree), None);
}

#[test]
fn malformed_four_leaf_comb_can_reduce_then_rebuild() {
    let mut ids = Ids { next: 0 };
    let pane = ids.fresh();
    let mut tree = PaneTree::leaf(pane);
    for axis in [SplitAxis::Horizontal, SplitAxis::Vertical, SplitAxis::Horizontal] {
        let last = *tree.pane_ids().last().unwrap();
        tree = split(tree, last, axis, &mut ids);
    }
    assert_eq!(tree.pane_ids().len(), 4);
    assert!(!is_grid(&tree));
    assert_eq!(next_grid_split(&tree), None);
    for _ in 0..8 {
        if is_grid(&tree) {
            return;
        }
        tree = if let Some((pane, axis)) = next_grid_split(&tree) {
            split(tree, pane, axis, &mut ids)
        } else {
            let pane = *tree.pane_ids().last().unwrap();
            tree.close(pane).unwrap()
        };
    }
    panic!("malformed shape must converge without count-four readiness or a stall");
}

#[test]
fn split_places_new_pane_after_the_split_one() {
    let tree = PaneTree::leaf(PaneId(1));
    let tree = tree.split(PaneId(1), SplitAxis::Vertical, PaneId(2)).unwrap();
    let tree = tree.split(PaneId(1), SplitAxis::Horizontal, PaneId(3)).unwrap();
    assert_eq!(tree.pane_ids(), vec![PaneId(1), PaneId(3), PaneId(2)]);
    assert!(tree.contains(PaneId(3)));
    assert!(!tree.contains(PaneId(4)));
}

#[test]
fn split_refuses_missing_or_duplicate_panes() {
    let tree = PaneTree::leaf(PaneId(1)).split(PaneId(1), SplitAxis::Vertical, PaneId(2)).unwrap();
    assert_eq!(
        tree.clone().split(PaneId(9), SplitAxis::Vertical, PaneId(10)).unwrap_err(),
        PaneTreeError::PaneNotFound
    );
    assert_eq!(
        tree.split(PaneId(1), SplitAxis::Vertical, PaneId(2)).unwrap_err(),
        PaneTreeError::DuplicatePane
    );
}

#[test]
fn close_gives_the_parent_area_to_the_sibling() {
    let tree = PaneTree::leaf(PaneId(1))
        .split(PaneId(1), SplitAxis::Horizontal, PaneId(2))
        .unwrap()
        .split(PaneId(2), SplitAxis::Vertical, PaneId(3))
        .unwrap();
    let closed = tree.clone().close(PaneId(2)).unwrap();
    assert_eq!(closed.pane_ids(), vec![PaneId(1), PaneId(3)]);
    assert_eq!(root_split(&closed), Some((SplitAxis::Horizontal, 2)));
    assert_eq!(tree.clone().close(PaneId(7)).unwrap_err(), PaneTreeError::PaneNotFound);
    assert_eq!(PaneTree::leaf(PaneId(1)).close(PaneId(1)).unwrap_err(), PaneTreeError::LastPane);
}

#[test]
fn root_split_and_nested_axes_describe_the_layout() {
    let leaf = PaneTree::leaf(PaneId(1));
    assert_eq!(root_split(&leaf), None);
    assert!(!nested_axes(&leaf));
    let two = leaf.split(PaneId(1), SplitAxis::Vertical, PaneId(2)).unwrap();
    assert_eq!(root_split(&two), Some((SplitAxis::Vertical, 2)));
    assert!(!nested_axes(&two));
    let crossed = two.clone().split(PaneId(2), SplitAxis::Horizontal, PaneId(3)).unwrap();
    assert_eq!(root_split(&crossed), Some((SplitAxis::Vertical, 3)));
    assert!(nested_axes(&crossed));
    let parallel = two.split(PaneId(2), SplitAxis::Vertical, PaneId(3)).unwrap();
    assert!(!nested_axes(&parallel));
}
