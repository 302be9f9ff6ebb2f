use gimbal::util::IndexTree;

#[test]
fn test_index_tree() {
    let mut tree = IndexTree::new();
    tree.add_node(None, "Root".to_string());
    assert_eq!(tree.root().val, "Root");
    let child01 = tree.add_node(Some(0), "Child01".to_string());
    let _ = tree.add_node(Some(0), "Child02".to_string());
    assert_eq!(tree.children_val(0), vec!["Child01", "Child02"]);
    let _ = tree.add_node(Some(child01), "GChild01".to_string());
    let _ = tree.add_node(Some(child01), "GChild02".to_string());
    assert_eq!(tree.children_val(child01), vec!["GChild01", "GChild02"]);
}

#[test]
fn index_tree_structure() {
    let mut tree = IndexTree::new();
    let root = tree.add_node(None, 10u32);
    let a = tree.add_node(Some(root), 20u32);
    let b = tree.add_node(Some(root), 30u32);
    assert_eq!(root, 0);
    assert_eq!(a, 1);
    assert_eq!(b, 2);
    assert_eq!(tree.node_idx(a), 1);
    assert_eq!(*tree.node_val(b), 30);
    assert_eq!(tree.children_idx(root), vec![1, 2]);
    assert_eq!(tree.parent(a), Some(&10));
    assert_eq!(tree.parent(root), None);
    assert_eq!(tree.node(b).idx(), 2);
    assert_eq!(*tree.node(a).val(), 20);
    let grandchild = tree.add_node(Some(a), 40u32);
    assert_eq!(tree.children_idx(a), vec![grandchild]);
    assert_eq!(tree.children(root).len(), 2);
}
