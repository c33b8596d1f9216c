use rdf_literal::{Class, DataType, Graph, Literal, Namespace, Predicate, Prefix, RDFStoreError};

#[test]
fn test_a_class_01() {
    let prefix = Prefix::declare("test:", "https://whatever.com/test#").unwrap();
    let class = Class::declare(prefix, "SomeClass");
    let s = class.display();
    assert_eq!(s, "test:SomeClass")
}

#[test]
fn test_a_class_02() {
    let prefix = Prefix::declare("test:", "https://whatever.com/test#").unwrap();
    let class = Class::declare(prefix, "SomeClass");
    let s = class.as_iri().unwrap();
    assert_eq!(s, "https://whatever.com/test#SomeClass");
}

#[test]
fn test_is_literal() {
    let prefix = Prefix::declare("test:", "https://whatever.com/test#").unwrap();
    let class = Class::declare(prefix, "SomeClass");
    let literal = Literal::parse(DataType::AnyUri, "https://whatever.com/test#SomeClass").unwrap();
    assert!(literal.is_some());
    assert_eq!(class.as_iri().unwrap().as_str(), "https://whatever.com/test#SomeClass");
    assert!(class.is_literal(&literal.unwrap()))
}

#[test]
fn test_display_iri() {
    let graph_prefix = Namespace::declare("graph:", "https://whatever.kom/graph/").unwrap();
    let graph = Graph::declare(graph_prefix, "somedataset");
    assert_eq!(graph.display().as_str(), "graph:somedataset");
    assert_eq!(
        graph.as_display_iri().display().as_str(),
        "<https://whatever.kom/graph/somedataset>"
    );
}

#[test]
fn test_graph_ns() {
    let graph_prefix = Namespace::declare("kggraph:", "https://whatever.kom/graph/").unwrap();
    let graph = Graph::declare(graph_prefix, "somedataset");
    let c_string = graph.as_lexical_value().unwrap().render_plain();
    assert_eq!(c_string, "<https://whatever.kom/graph/somedataset>");
}

#[test]
fn namespace_test_a_prefix() {
    let namespace = Namespace::declare("test:", "http://whatever.kom/test#").unwrap();
    let x = namespace.with_local_name("abc").unwrap();
    assert_eq!(x.as_str(), "http://whatever.kom/test#abc");
}

#[test]
fn namespace_test_b_prefix() {
    let namespace = Namespace::declare("test:", "http://whatever.kom/test/").unwrap();
    let x = namespace.with_local_name("abc").unwrap();
    assert_eq!(x.as_str(), "http://whatever.kom/test/abc");
}

#[test]
fn test_predicate() {
    let ns = Namespace::declare("abc:", "https://whatever.kg/def/").unwrap();
    let prd = Predicate::declare(&ns, "xyz");
    let str_prd = prd.display();
    assert_eq!(str_prd.as_str(), "<https://whatever.kg/def/xyz>");
    let str_prd = prd.display_turtle();
    assert_eq!(str_prd.as_str(), "abc:xyz");
}

#[test]
fn prefix_test_a_prefix() {
    let prefix = Prefix::declare("test:", "http://whatever.kom/test#").unwrap();
    let x = prefix.with_local_name("abc").unwrap();
    assert_eq!(x.as_str(), "http://whatever.kom/test#abc");
}

#[test]
fn prefix_test_b_prefix() {
    let prefix = Prefix::declare("test:", "http://whatever.kom/test/").unwrap();
    let x = prefix.with_local_name("abc").unwrap();
    assert_eq!(x.as_str(), "http://whatever.kom/test/abc");
}

#[test]
fn namespace_iri_gets_a_slash() {
    let namespace = Namespace::declare_from_str("ex:", "https://example.org/ns").unwrap();
    assert_eq!(namespace.iri(), "https://example.org/ns/");
    assert_eq!(namespace.name(), "ex:");
    assert_eq!(namespace.display(), "ex: <https://example.org/ns/>");
    match Namespace::declare("bad:", "no scheme") {
        Err(RDFStoreError::InvalidIri { value }) => assert_eq!(value, "no scheme"),
        other => panic!("unexpected {:?}", other),
    }
    assert!(namespace.with_local_name("a b").is_err());
}

#[test]
fn class_labels_and_test_graphs() {
    let prefix = Prefix::declare_from_str("owl:", "http://www.w3.org/2002/07/owl#").unwrap();
    let class = Class::declare(prefix, "Thing");
    assert_eq!(class.plural_label(), "Things");
    assert_eq!(class.display_turtle(), "owl:Thing");
    let other = Literal::parse(DataType::AnyUri, "http://www.w3.org/2002/07/owl#Other").unwrap().unwrap();
    assert!(!class.is_literal(&other));
    assert!(!class.is_literal(&Literal::new_boolean(true, DataType::Boolean)));
    let namespace = Namespace::declare("graph:", "https://x/graph/").unwrap();
    let graph = Graph::test_dataset_from_file_name(namespace, "data.ttl");
    assert_eq!(graph.local_name, "test-data.ttl");
    assert_eq!(graph.as_iri_buf().unwrap(), "https://x/graph/test-data.ttl");
}
