use rubiks_cube::depth_limited_search;
use rubiks_cube::iterative_deepening_dfs;
use rubiks_cube::Tree;

#[test]
fn test_depth_limited_search() {
    let tree = Tree::Node(vec![
        Tree::Node(vec![Tree::Node(vec![Tree::Leaf(1)]), Tree::Leaf(2)]),
        Tree::Leaf(3),
        Tree::Leaf(4),
    ]);

    assert_eq!(depth_limited_search(&tree, 0), None);
    assert_eq!(depth_limited_search(&tree, 1), Some(Tree::Leaf(3)));
    assert_eq!(depth_limited_search(&tree, 2), Some(Tree::Leaf(3)));
}

#[test]
fn test_depth_limited_search_root() {
    let tree = Tree::Leaf(1);

    assert_eq!(depth_limited_search(&tree, 1), Some(Tree::Leaf(1)));
}

#[test]
fn test_iterative_deepening_dfs() {
    let tree = Tree::Node(vec![
        Tree::Node(vec![Tree::Node(vec![Tree::Leaf(1)]), Tree::Leaf(2)]),
        Tree::Node(vec![Tree::Node(vec![Tree::Leaf(3)]), Tree::Leaf(4)]),
        Tree::Node(vec![Tree::Leaf(5), Tree::Leaf(6), Tree::Leaf(7)]),
    ]);

    assert_eq!(iterative_deepening_dfs(&tree, 3), Some(Tree::Leaf(5)));
}

#[test]
fn test_iterative_deepening_dfs_root() {
    let tree = Tree::Leaf(1);

    assert_eq!(iterative_deepening_dfs(&tree, 1), Some(Tree::Leaf(1)));
}

#[test]
fn test_depth_limited_search_smallest_bound() {
    // The goal nearest the root in successor order sits one level down; the
    // search at the smallest sufficient bound returns it, and a deeper bound
    // returns no deeper goal.
    let tree = Tree::Node(vec![
        Tree::Node(vec![Tree::Leaf(1), Tree::Leaf(2), Tree::Leaf(3)]),
        Tree::Leaf(4),
        Tree::Leaf(5),
    ]);

    assert_eq!(depth_limited_search(&tree, 0), None);
    assert_eq!(depth_limited_search(&tree, 1), Some(Tree::Leaf(4)));
    assert_eq!(depth_limited_search(&tree, 2), Some(Tree::Leaf(1)));
    assert_eq!(iterative_deepening_dfs(&tree, 2), Some(Tree::Leaf(4)));
}

#[test]
fn test_search_skips_pruned_branch() {
    // The first branch holds the shallowest goal but has exactly two
    // branches, so it is pruned; the goal comes from the unpruned branch.
    let tree = Tree::Node(vec![
        Tree::Node(vec![Tree::Leaf(1), Tree::Leaf(2)]),
        Tree::Node(vec![Tree::Leaf(3), Tree::Leaf(4), Tree::Leaf(5)]),
        Tree::Node(vec![Tree::Node(vec![Tree::Leaf(6)])]),
    ]);

    assert_eq!(iterative_deepening_dfs(&tree, 3), Some(Tree::Leaf(3)));
}

#[test]
fn test_search_no_expansion_marker() {
    // A tree with no goal below the bound: every bound fails.
    let tree = Tree::Node(vec![Tree::Node(vec![Tree::Node(vec![Tree::Leaf(1)])])]);

    assert_eq!(depth_limited_search(&tree, 2), None);
    assert_eq!(iterative_deepening_dfs(&tree, 2), None);
    assert_eq!(iterative_deepening_dfs(&tree, 3), Some(Tree::Leaf(1)));
}
