use akashic::{
    create_graph_store, FalkorDbStore, GraphBackend, GraphConfig, GraphDbType, GraphitiStore,
    Neo4jStore, StoreError,
};

fn config(uri: Option<&str>, user: Option<&str>, password: Option<&str>, graph: Option<&str>) -> GraphConfig {
    GraphConfig {
        uri: uri.map(|s| s.to_string()),
        user: user.map(|s| s.to_string()),
        password: password.map(|s| s.to_string()),
        graph_name: graph.map(|s| s.to_string()),
        script_path: None,
    }
}

#[test]
fn falkordb_query_escapes_quotes() {
    let s = FalkorDbStore::new("redis://localhost:6379", "akashic");
    let q = s.create_query("d'1", "it's", "{}");
    assert_eq!(
        q,
        "CREATE (d:Document {id: 'd\\'1', text: 'it\\'s', metadata: '{}', created_at: timestamp()})"
    );
}

#[test]
fn falkordb_query_cuts_text() {
    let s = FalkorDbStore::new("redis://x", "g");
    let long = "x".repeat(1500);
    let q = s.create_query("1", &long, "{\"k\":\"v\"}");
    let expected = format!(
        "CREATE (d:Document {{id: '1', text: '{}', metadata: '{{\"k\":\"v\"}}', created_at: timestamp()}})",
        "x".repeat(1000)
    );
    assert_eq!(q, expected);
    let quoted = "'".repeat(600);
    let q = s.create_query("1", &quoted, "");
    let expected = format!(
        "CREATE (d:Document {{id: '1', text: '{}', metadata: '', created_at: timestamp()}})",
        "\\'".repeat(600)
    );
    assert_eq!(q, expected);
    let mixed = format!("{}'tail", "y".repeat(999));
    let q = s.create_query("1", &mixed, "");
    let expected = format!(
        "CREATE (d:Document {{id: '1', text: '{}\\'', metadata: '', created_at: timestamp()}})",
        "y".repeat(999)
    );
    assert_eq!(q, expected);
}

#[test]
fn neo4j_query_binds_parameters() {
    assert_eq!(
        Neo4jStore::create_query(),
        "CREATE (d:Document {id: $id, text: $text, metadata: $metadata, created_at: datetime()})"
    );
    let s = Neo4jStore::new("bolt://h:7687", "neo4j", "pw");
    assert_eq!(s.user, "neo4j");
}

#[test]
fn graph_store_factory_neo4j() {
    match create_graph_store(GraphDbType::Neo4j, &config(Some("bolt://h"), Some("u"), Some("p"), None)) {
        Ok(GraphBackend::Neo4j(s)) => {
            assert_eq!(s.uri, "bolt://h");
            assert_eq!(s.user, "u");
            assert_eq!(s.password, "p");
        }
        other => panic!("unexpected {:?}", other),
    }
    let e = create_graph_store(GraphDbType::Neo4j, &config(None, Some("u"), Some("p"), None)).unwrap_err();
    assert_eq!(e, StoreError::MissingNeo4jUri);
    assert_eq!(e.message(), "Missing neo4j uri");
    let e = create_graph_store(GraphDbType::Neo4j, &config(Some("b"), None, Some("p"), None)).unwrap_err();
    assert_eq!(e, StoreError::MissingNeo4jUser);
    let e = create_graph_store(GraphDbType::Neo4j, &config(Some("b"), Some("u"), None, None)).unwrap_err();
    assert_eq!(e, StoreError::MissingNeo4jPassword);
}

#[test]
fn graph_store_factory_falkordb() {
    match create_graph_store(GraphDbType::Falkordb, &config(Some("redis://h"), None, None, None)) {
        Ok(GraphBackend::Falkordb(s)) => {
            assert_eq!(s.url, "redis://h");
            assert_eq!(s.graph_name, "akashic");
        }
        other => panic!("unexpected {:?}", other),
    }
    match create_graph_store(GraphDbType::Falkordb, &config(Some("redis://h"), None, None, Some("kg"))) {
        Ok(GraphBackend::Falkordb(s)) => assert_eq!(s.graph_name, "kg"),
        other => panic!("unexpected {:?}", other),
    }
    let e = create_graph_store(GraphDbType::Falkordb, &config(None, None, None, Some("kg"))).unwrap_err();
    assert_eq!(e, StoreError::MissingFalkordbUri);
    assert_eq!(e.message(), "Missing falkordb uri");
}

#[test]
fn graph_store_factory_graphiti_unavailable() {
    let e = create_graph_store(GraphDbType::Graphiti, &config(Some("x"), None, None, None)).unwrap_err();
    assert_eq!(e, StoreError::GraphitiDisabled);
    assert_eq!(e.message(), "Graphiti support not enabled. Rebuild with --features graphiti");
    assert_eq!(GraphitiStore::new("graphiti_ingest.py").python_script_path, "graphiti_ingest.py");
}
