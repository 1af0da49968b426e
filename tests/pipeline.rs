use akashic::{
    chunk_document, get_extractor, ExtractError, GraphConfig, GraphDbType, IngestionPipeline,
    IngestionRun, IngestionTarget, JobStatus, Step,
};

fn pipeline(vector: bool, graph: bool) -> IngestionPipeline {
    let config = GraphConfig {
        uri: Some("redis://localhost:6379".to_string()),
        user: None,
        password: None,
        graph_name: None,
        script_path: None,
    };
    IngestionPipeline::new(
        if vector { Some("http://localhost:8000") } else { None },
        if graph { Some(GraphDbType::Falkordb) } else { None },
        if graph { Some(&config) } else { None },
    )
    .unwrap()
}

fn run_all(run: &mut IngestionRun) -> Vec<Step> {
    let mut seen = Vec::new();
    let mut last = run.record.progress;
    while let Some(step) = run.current() {
        seen.push(step);
        run.complete_step();
        assert!(run.record.progress >= last);
        last = run.record.progress;
        assert_eq!(run.record.progress == 100, run.record.status == JobStatus::Completed);
    }
    seen
}

fn cp(progress: u32) -> Step {
    Step::Checkpoint { completed: false, progress }
}

const DONE: Step = Step::Checkpoint { completed: true, progress: 100 };

#[test]
fn file_run_both_plan() {
    let p = pipeline(true, true);
    let mut run = p.process_file(IngestionTarget::Both);
    let steps = run_all(&mut run);
    assert_eq!(
        steps,
        vec![cp(0), Step::Extract, cp(30), Step::StoreVector, cp(60), Step::StoreGraph, cp(80), DONE]
    );
    assert_eq!(run.record.status, JobStatus::Completed);
    assert_eq!(run.record.progress, 100);
    assert_eq!(run.record.error_message, None);
    assert_eq!(run.record.status_name(), "completed");
}

#[test]
fn failing_vector_store_never_reaches_graph() {
    let p = pipeline(true, true);
    let mut run = p.process_file(IngestionTarget::Both);
    let mut called = Vec::new();
    while let Some(step) = run.current() {
        called.push(step);
        if step == Step::StoreVector {
            p.handle_error(&mut run, "ChromaDB request failed: 500");
        } else {
            run.complete_step();
        }
    }
    assert!(!called.contains(&Step::StoreGraph));
    assert_eq!(run.record.status, JobStatus::Failed);
    assert_eq!(run.record.progress, 30);
    assert_eq!(run.record.error_message.as_deref(), Some("ChromaDB request failed: 500"));
    assert_eq!(run.record.status_name(), "failed");
}

#[test]
fn text_run_graph_without_store_completes() {
    let p = pipeline(true, false);
    let mut run = p.process_text(IngestionTarget::Graph);
    let steps = run_all(&mut run);
    assert_eq!(steps, vec![cp(10), DONE]);
    assert_eq!(run.record.status, JobStatus::Completed);
    assert_eq!(run.record.progress, 100);
    assert_eq!(run.record.error_message, None);
}

#[test]
fn text_run_vector_scenario() {
    let p = pipeline(true, false);
    let mut run = p.process_text(IngestionTarget::Vector);
    let mut ingested = Vec::new();
    while let Some(step) = run.current() {
        if step == Step::StoreVector {
            ingested = chunk_document("doc", "alpha\n\nbeta\n\ngamma");
        }
        run.complete_step();
    }
    let ids: Vec<&str> = ingested.iter().map(|c| c.id.as_str()).collect();
    let texts: Vec<&str> = ingested.iter().map(|c| c.text.as_str()).collect();
    assert_eq!(ids, vec!["doc_0", "doc_1", "doc_2"]);
    assert_eq!(texts, vec!["alpha", "beta", "gamma"]);
    assert_eq!(run.record.status, JobStatus::Completed);
}

#[test]
fn unsupported_file_fails_the_run() {
    let p = pipeline(true, true);
    let mut run = p.process_file(IngestionTarget::Vector);
    assert_eq!(run.current(), Some(cp(0)));
    run.complete_step();
    assert_eq!(run.current(), Some(Step::Extract));
    assert_eq!(get_extractor("report.xyz"), None);
    let before = run.record.progress;
    p.handle_error(&mut run, &ExtractError::NoExtractor.message());
    assert_eq!(run.current(), None);
    assert_eq!(run.record.status, JobStatus::Failed);
    assert_eq!(run.record.progress, before);
    assert_eq!(run.record.error_message.as_deref(), Some("No extractor found for this file type"));
}

#[test]
fn plans_skip_unconfigured_stores() {
    let p = pipeline(false, false);
    let mut run = p.process_file(IngestionTarget::Both);
    assert_eq!(run_all(&mut run), vec![cp(0), Step::Extract, cp(30), cp(60), cp(80), DONE]);
    let mut run = p.process_text(IngestionTarget::Both);
    assert_eq!(run_all(&mut run), vec![cp(10), DONE]);
    let q = pipeline(true, true);
    let mut run = q.process_text(IngestionTarget::Both);
    assert_eq!(run_all(&mut run), vec![cp(10), Step::StoreVector, Step::StoreGraph, DONE]);
    let mut run = q.process_file(IngestionTarget::Graph);
    assert_eq!(run_all(&mut run), vec![cp(0), Step::Extract, cp(30), Step::StoreGraph, cp(80), DONE]);
}

#[test]
fn new_run_is_queued() {
    let p = pipeline(false, false);
    let run = p.process_text(IngestionTarget::Vector);
    assert_eq!(run.record.status, JobStatus::Queued);
    assert_eq!(run.record.progress, 0);
    assert_eq!(run.record.status_name(), "queued");
}

#[test]
fn pipeline_rejects_incomplete_graph_settings() {
    let config = GraphConfig { uri: None, user: None, password: None, graph_name: None, script_path: None };
    let e = IngestionPipeline::new(None, Some(GraphDbType::Neo4j), Some(&config)).unwrap_err();
    assert_eq!(e.message(), "Missing neo4j uri");
    let p = IngestionPipeline::new(Some("http://h/"), Some(GraphDbType::Neo4j), None).unwrap();
    assert!(p.graph_store.is_none());
    assert_eq!(p.vector_store.unwrap().base_url, "http://h");
}
