use embjs::error::EngineError;
use embjs::names::{file_stem, is_valid_identifier, namespace_name};
use embjs::namespace::{ListedEntry, NamespaceGraph, NodeKind};
use embjs::script::{construction_expression, factory_outcome};

fn entry(dir: usize, file_name: &str, is_dir: bool) -> ListedEntry {
    ListedEntry { dir, file_name: file_name.to_string(), is_dir }
}

fn scenario_a() -> Vec<ListedEntry> {
    vec![entry(0, "a.js", false), entry(0, "ns", true), entry(2, "b.js", false)]
}

#[test]
fn stems_drop_the_last_extension() {
    assert_eq!(file_stem("a.js"), "a");
    assert_eq!(file_stem("archive.tar.gz"), "archive.tar");
    assert_eq!(file_stem("ns"), "ns");
    assert_eq!(file_stem(".hidden"), ".hidden");
    assert_eq!(file_stem("trailing."), "trailing");
    assert_eq!(file_stem(""), "");
}

#[test]
fn identifiers() {
    assert!(is_valid_identifier("namespace1"));
    assert!(is_valid_identifier("_x$"));
    assert!(!is_valid_identifier("1abc"));
    assert!(!is_valid_identifier("my-dir"));
    assert!(!is_valid_identifier(""));
}

#[test]
fn namespace_names() {
    assert_eq!(namespace_name("ns").unwrap(), "ns");
    assert_eq!(namespace_name("lib.d").unwrap(), "lib");
    match namespace_name("bad name") {
        Err(EngineError::InvalidNamespaceName(s)) => assert_eq!(s, "bad name"),
        other => panic!("unexpected {:?}", other),
    }
}

#[test]
fn scenario_a_builds_nested_namespaces() {
    let g = NamespaceGraph::load_listing(&scenario_a()).unwrap();
    assert_eq!(g.nodes.len(), 4);
    assert_eq!(g.nodes[1].name, "a");
    assert_eq!(g.nodes[1].kind, NodeKind::Factory);
    assert_eq!(g.nodes[1].parent, 0);
    assert_eq!(g.nodes[2].name, "ns");
    assert_eq!(g.nodes[2].kind, NodeKind::Namespace);
    assert_eq!(g.nodes[3].name, "b");
    assert_eq!(g.nodes[3].kind, NodeKind::Factory);
    assert_eq!(g.nodes[3].parent, 2);
    assert_eq!(g.find_child(0, &"ns".to_string()), Some(2));
    assert_eq!(g.find_child(2, &"b".to_string()), Some(3));
    assert_eq!(g.find_child(0, &"b".to_string()), None);
    assert_eq!(g.qualified_name(3), "ns.b");
    assert_eq!(g.qualified_name(1), "a");
    assert_eq!(construction_expression(&g.qualified_name(3)), "new ns.b()");
}

#[test]
fn scenario_b_file_and_directory_collide() {
    let listing = vec![entry(0, "x.js", false), entry(0, "x", true)];
    match NamespaceGraph::load_listing(&listing) {
        Err(EngineError::DuplicateNamespaceEntry(s)) => assert_eq!(s, "x"),
        other => panic!("unexpected {:?}", other.map(|g| g.nodes.len())),
    }
    let reversed = vec![entry(0, "x", true), entry(0, "x.js", false)];
    assert!(matches!(
        NamespaceGraph::load_listing(&reversed),
        Err(EngineError::DuplicateNamespaceEntry(_))
    ));
}

#[test]
fn same_name_in_different_namespaces_is_fine() {
    let listing = vec![entry(0, "a", true), entry(0, "b", true), entry(1, "x.js", false), entry(2, "x.js", false)];
    let g = NamespaceGraph::load_listing(&listing).unwrap();
    assert_eq!(g.qualified_name(3), "a.x");
    assert_eq!(g.qualified_name(4), "b.x");
}

#[test]
fn invalid_directory_name_aborts_load() {
    let listing = vec![entry(0, "a.js", false), entry(0, "not-ok", true)];
    match NamespaceGraph::load_listing(&listing) {
        Err(EngineError::InvalidNamespaceName(s)) => assert_eq!(s, "not-ok"),
        other => panic!("unexpected {:?}", other.map(|g| g.nodes.len())),
    }
}

#[test]
fn loading_twice_gives_the_same_graph() {
    let g1 = NamespaceGraph::load_listing(&scenario_a()).unwrap();
    let g2 = NamespaceGraph::load_listing(&scenario_a()).unwrap();
    assert_eq!(g1.nodes.len(), g2.nodes.len());
    for i in 0..g1.nodes.len() {
        assert_eq!(g1.nodes[i].name, g2.nodes[i].name);
        assert_eq!(g1.nodes[i].parent, g2.nodes[i].parent);
        assert_eq!(g1.nodes[i].kind, g2.nodes[i].kind);
    }
}

#[test]
fn empty_listing_gives_only_the_root() {
    let g = NamespaceGraph::load_listing(&Vec::new()).unwrap();
    assert_eq!(g.nodes.len(), 1);
    assert_eq!(g.nodes[0].kind, NodeKind::Namespace);
}

#[test]
fn non_constructible_module_is_rejected_and_not_attached() {
    let mut g = NamespaceGraph::new();
    let outcome = factory_outcome(Ok(()), false);
    match &outcome {
        Err(EngineError::ScriptCompilation(m)) => assert_eq!(m, "Not a function"),
        other => panic!("unexpected {:?}", other),
    }
    let r = g.add_factory(0, &"m.js".to_string(), outcome);
    assert!(matches!(r, Err(EngineError::ScriptCompilation(_))));
    assert_eq!(g.nodes.len(), 1);
    assert_eq!(g.find_child(0, &"m".to_string()), None);
}

#[test]
fn parse_error_keeps_engine_message() {
    match factory_outcome(Err("SyntaxError: bad".to_string()), true) {
        Err(EngineError::ScriptCompilation(m)) => assert_eq!(m, "SyntaxError: bad"),
        other => panic!("unexpected {:?}", other),
    }
    assert!(factory_outcome(Ok(()), true).is_ok());
}

#[test]
fn add_entry_step_by_step() {
    let mut g = NamespaceGraph::new();
    let ns = g.add_entry(0, &"ns".to_string(), true).unwrap();
    assert_eq!(ns, 1);
    let f = g.add_factory(ns, &"file3.js".to_string(), Ok(())).unwrap();
    assert_eq!(f, 2);
    assert!(matches!(g.add_entry(ns, &"file3.ts".to_string(), false), Err(EngineError::DuplicateNamespaceEntry(_))));
    assert_eq!(g.nodes.len(), 3);
    assert!(g.attach(0, "top".to_string(), NodeKind::Factory).is_ok());
    assert_eq!(construction_expression(&g.qualified_name(f)), "new ns.file3()");
}
