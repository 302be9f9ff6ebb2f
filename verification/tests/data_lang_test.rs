use gimbal::lang::data_lang::data_lang_parser::Node;

#[test]
fn named_node_splits_into_tuple() {
    let attr = Node::Attr("age".to_string(), Node::TypeName("Int".to_string()).bx());
    let (name, content) = attr.node_to_tuple();
    assert_eq!(name, "age");
    assert!(matches!(content, Node::TypeName(t) if t == "Int"));
}

#[test]
fn module_reshapes_to_named_contents() {
    let alias = Node::TypeAlias(
        "Name".to_string(),
        Node::TypeName("String".to_string()).bx(),
    );
    let entity = Node::Entity(
        "Person".to_string(),
        Node::EntityDef { extends: None, attrs: vec![] }.bx(),
    );
    let module = Node::Module("people".to_string(), vec![alias, entity]);
    let (module_name, contents) = module.to_hm();
    assert_eq!(module_name, "people");
    assert_eq!(contents.len(), 2);
    assert_eq!(contents[0].0, "Name");
    assert!(matches!(&contents[0].1, Node::TypeName(t) if t == "String"));
    assert_eq!(contents[1].0, "Person");
    assert!(matches!(&contents[1].1, Node::EntityDef { .. }));
}
