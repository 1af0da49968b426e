use vstd::prelude::*;
use vstd::string::StringExecFns;
use crate::stores::{
    ChromaDbStore, GraphBackend, GraphConfig, StoreError, builds_backend, create_graph_store, graph_config_error,
    trim_trailing_slashes,
};
use crate::target::{GraphDbType, IngestionTarget};

verus! {

/// Where a job stands.
#[derive(Debug, Clone, Copy, PartialEq, Eq, Structural)]
pub enum JobStatus {
    Queued,
    Processing,
    Completed,
    Failed,
}

/// The persisted state of one ingestion job.
#[derive(Debug, Clone, PartialEq, Eq)]
pub struct JobRecord {
    pub status: JobStatus,
    pub progress: u32,
    pub error_message: Option<String>,
}

impl JobRecord {
    /// Progress is a percentage that reaches 100 exactly when the job is
    /// completed, and an error message is present exactly when it failed.
    pub open spec fn wf(&self) -> bool {
        &&& self.progress <= 100
        &&& (self.progress == 100 <==> self.status is Completed)
        &&& (self.status is Failed <==> self.error_message is Some)
    }

    /// A job as the driver creates it: queued, at progress 0.
    pub fn queued() -> (r: JobRecord)
        ensures
            r.wf(),
            r.status is Queued,
            r.progress == 0,
            r.error_message is None,
    {
        JobRecord { status: JobStatus::Queued, progress: 0, error_message: None }
    }

    /// The status as stored in the job record.
    pub fn status_name(&self) -> (r: String)
        ensures
            self.status is Queued ==> r@ == "queued"@,
            self.status is Processing ==> r@ == "processing"@,
            self.status is Completed ==> r@ == "completed"@,
            self.status is Failed ==> r@ == "failed"@,
    {
        match self.status {
            JobStatus::Queued => String::from_str("queued"),
            JobStatus::Processing => String::from_str("processing"),
            JobStatus::Completed => String::from_str("completed"),
            JobStatus::Failed => String::from_str("failed"),
        }
    }
}

/// One step of an ingestion run.
#[derive(Debug, Clone, Copy, PartialEq, Eq, Structural)]
pub enum Step {
    /// Write status and progress to the job record: `completed` or processing.
    Checkpoint { completed: bool, progress: u32 },
    /// Select an extractor for the file and extract its text.
    Extract,
    /// Hand the text to the vector store.
    StoreVector,
    /// Hand the text to the graph store.
    StoreGraph,
}

pub open spec fn cp(progress: u32) -> Step {
    Step::Checkpoint { completed: false, progress }
}

pub open spec fn done_cp() -> Step {
    Step::Checkpoint { completed: true, progress: 100 }
}

pub open spec fn opt_step(present: bool, s: Step) -> Seq<Step> {
    if present { seq![s] } else { Seq::empty() }
}

/// The store calls and checkpoints of a file run, after extraction.
pub open spec fn file_fan_out(target: IngestionTarget, has_vector: bool, has_graph: bool) -> Seq<Step> {
    match target {
        IngestionTarget::Vector => opt_step(has_vector, Step::StoreVector).push(cp(80)),
        IngestionTarget::Graph => opt_step(has_graph, Step::StoreGraph).push(cp(80)),
        IngestionTarget::Both => opt_step(has_vector, Step::StoreVector).push(cp(60))
            + opt_step(has_graph, Step::StoreGraph).push(cp(80)),
    }
}

/// The steps of a file run: progress 0, extraction, progress 30, the stores
/// that `target` selects and that are configured, then completion at 100.
pub open spec fn file_plan(target: IngestionTarget, has_vector: bool, has_graph: bool) -> Seq<Step> {
    seq![cp(0), Step::Extract, cp(30)] + file_fan_out(target, has_vector, has_graph) + seq![done_cp()]
}

/// The store calls of a text run.
pub open spec fn text_fan_out(target: IngestionTarget, has_vector: bool, has_graph: bool) -> Seq<Step> {
    match target {
        IngestionTarget::Vector => opt_step(has_vector, Step::StoreVector),
        IngestionTarget::Graph => opt_step(has_graph, Step::StoreGraph),
        IngestionTarget::Both => opt_step(has_vector, Step::StoreVector)
            + opt_step(has_graph, Step::StoreGraph),
    }
}

/// The steps of a text run: progress 10, the selected and configured stores,
/// then completion at 100.
pub open spec fn text_plan(target: IngestionTarget, has_vector: bool, has_graph: bool) -> Seq<Step> {
    seq![cp(10)] + text_fan_out(target, has_vector, has_graph) + seq![done_cp()]
}

/// A plan ends with completion at 100, which is its only completing
/// checkpoint, and its checkpoints never lower progress.
pub open spec fn plan_wf(steps: Seq<Step>) -> bool {
    &&& steps.len() >= 1
    &&& steps.last() == done_cp()
    &&& forall|i: int| 0 <= i < steps.len() ==> (#[trigger] steps[i] matches Step::Checkpoint { completed, progress }
        ==> progress <= 100 && (completed <==> progress == 100) && (completed ==> i == steps.len() - 1))
    &&& forall|i: int, j: int| 0 <= i < j < steps.len() && #[trigger] steps[i] is Checkpoint && #[trigger] steps[j] is Checkpoint
        ==> steps[i]->progress <= steps[j]->progress
}

proof fn lemma_plan_wf_small(steps: Seq<Step>)
    requires
        steps.len() >= 1,
        steps.last() == done_cp(),
        forall|i: int| 0 <= i < steps.len() - 1 ==> (#[trigger] steps[i] matches Step::Checkpoint { completed, progress }
            ==> !completed && progress < 100),
        forall|i: int, j: int| 0 <= i < j < steps.len() - 1 && #[trigger] steps[i] is Checkpoint && #[trigger] steps[j] is Checkpoint
            ==> steps[i]->progress <= steps[j]->progress,
    ensures
        plan_wf(steps),
{
}

proof fn lemma_file_plan_wf(target: IngestionTarget, has_vector: bool, has_graph: bool)
    ensures
        plan_wf(file_plan(target, has_vector, has_graph)),
{
    let p = file_plan(target, has_vector, has_graph);
    let f = file_fan_out(target, has_vector, has_graph);
    assert(forall|k: int| 0 <= k < f.len() ==> (#[trigger] f[k] matches Step::Checkpoint { completed, progress }
        ==> !completed && 30 <= progress < 100)) by {
        assert(opt_step(has_vector, Step::StoreVector).len() <= 1);
        assert(opt_step(has_graph, Step::StoreGraph).len() <= 1);
    };
    assert forall|i: int| 0 <= i < p.len() - 1 implies (#[trigger] p[i] matches Step::Checkpoint { completed, progress }
        ==> !completed && progress < 100) by {
        if i >= 3 {
            assert(p[i] == f[i - 3]);
        }
    };
    assert forall|i: int, j: int| 0 <= i < j < p.len() - 1 && #[trigger] p[i] is Checkpoint && #[trigger] p[j] is Checkpoint
        implies p[i]->progress <= p[j]->progress by {
        if i >= 3 {
            assert(p[i] == f[i - 3]);
            assert(p[j] == f[j - 3]);
            if target is Both {
                let a = opt_step(has_vector, Step::StoreVector).push(cp(60));
                let b = opt_step(has_graph, Step::StoreGraph).push(cp(80));
                assert(f == a + b);
                if i - 3 < a.len() && j - 3 >= a.len() {
                    assert(f[j - 3] == b[j - 3 - a.len()]);
                }
            }
        } else if j >= 3 {
            assert(p[j] == f[j - 3]);
        }
    };
    lemma_plan_wf_small(p);
}

proof fn lemma_text_plan_wf(target: IngestionTarget, has_vector: bool, has_graph: bool)
    ensures
        plan_wf(text_plan(target, has_vector, has_graph)),
{
    let p = text_plan(target, has_vector, has_graph);
    let f = text_fan_out(target, has_vector, has_graph);
    assert(forall|k: int| 0 <= k < f.len() ==> !(#[trigger] f[k] is Checkpoint)) by {
        assert(opt_step(has_vector, Step::StoreVector).len() <= 1);
        assert(opt_step(has_graph, Step::StoreGraph).len() <= 1);
        if target is Both {
            let a = opt_step(has_vector, Step::StoreVector);
            let b = opt_step(has_graph, Step::StoreGraph);
            assert forall|k: int| 0 <= k < f.len() implies !(#[trigger] f[k] is Checkpoint) by {
                if k >= a.len() {
                    assert(f[k] == b[k - a.len()]);
                }
            };
        }
    };
    assert forall|i: int| 0 <= i < p.len() - 1 implies (#[trigger] p[i] matches Step::Checkpoint { completed, progress }
        ==> !completed && progress < 100) by {
        if i >= 1 {
            assert(p[i] == f[i - 1]);
        }
    };
    assert forall|i: int, j: int| 0 <= i < j < p.len() - 1 && #[trigger] p[i] is Checkpoint && #[trigger] p[j] is Checkpoint
        implies p[i]->progress <= p[j]->progress by {
        assert(p[j] == f[j - 1]);
    };
    lemma_plan_wf_small(p);
}

fn push_if(v: &mut Vec<Step>, present: bool, s: Step)
    ensures
        final(v)@ == old(v)@ + opt_step(present, s),
{
    if present {
        v.push(s);
    }
    assert(final(v)@ =~= old(v)@ + opt_step(present, s));
}

/// The steps of a file run, in order.
pub fn build_file_plan(target: IngestionTarget, has_vector: bool, has_graph: bool) -> (r: Vec<Step>)
    ensures
        r@ == file_plan(target, has_vector, has_graph),
{
    let mut v: Vec<Step> = Vec::new();
    v.push(Step::Checkpoint { completed: false, progress: 0 });
    v.push(Step::Extract);
    v.push(Step::Checkpoint { completed: false, progress: 30 });
    let ghost head = v@;
    match target {
        IngestionTarget::Vector => {
            push_if(&mut v, has_vector, Step::StoreVector);
            v.push(Step::Checkpoint { completed: false, progress: 80 });
        },
        IngestionTarget::Graph => {
            push_if(&mut v, has_graph, Step::StoreGraph);
            v.push(Step::Checkpoint { completed: false, progress: 80 });
        },
        IngestionTarget::Both => {
            push_if(&mut v, has_vector, Step::StoreVector);
            v.push(Step::Checkpoint { completed: false, progress: 60 });
            push_if(&mut v, has_graph, Step::StoreGraph);
            v.push(Step::Checkpoint { completed: false, progress: 80 });
        },
    }
    assert(v@ =~= head + file_fan_out(target, has_vector, has_graph));
    v.push(Step::Checkpoint { completed: true, progress: 100 });
    assert(v@ =~= file_plan(target, has_vector, has_graph));
    v
}

/// The steps of a text run, in order.
pub fn build_text_plan(target: IngestionTarget, has_vector: bool, has_graph: bool) -> (r: Vec<Step>)
    ensures
        r@ == text_plan(target, has_vector, has_graph),
{
    let mut v: Vec<Step> = Vec::new();
    v.push(Step::Checkpoint { completed: false, progress: 10 });
    let ghost head = v@;
    match target {
        IngestionTarget::Vector => push_if(&mut v, has_vector, Step::StoreVector),
        IngestionTarget::Graph => push_if(&mut v, has_graph, Step::StoreGraph),
        IngestionTarget::Both => {
            push_if(&mut v, has_vector, Step::StoreVector);
            push_if(&mut v, has_graph, Step::StoreGraph);
        },
    }
    assert(v@ =~= head + text_fan_out(target, has_vector, has_graph));
    v.push(Step::Checkpoint { completed: true, progress: 100 });
    assert(v@ =~= text_plan(target, has_vector, has_graph));
    v
}

/// One ingestion run: its plan, how far it has come, and the job record it
/// keeps up to date.
#[derive(Debug)]
pub struct IngestionRun {
    pub steps: Vec<Step>,
    pub next: usize,
    pub aborted: bool,
    pub record: JobRecord,
}

impl IngestionRun {
    pub open spec fn wf(&self) -> bool {
        &&& self.record.wf()
        &&& plan_wf(self.steps@)
        &&& self.next <= self.steps@.len()
        &&& forall|i: int| self.next <= i < self.steps@.len() && (#[trigger] self.steps@[i]) is Checkpoint
            ==> self.record.progress <= self.steps@[i]->progress
        &&& (self.aborted <==> self.record.status is Failed)
        &&& !self.aborted && self.next < self.steps@.len() ==> (self.record.status is Queued || self.record.status is Processing)
        &&& !self.aborted && self.next == self.steps@.len() ==> self.record.status is Completed
    }

    /// The step to perform now; `None` once the run has completed or failed.
    pub open spec fn spec_current(&self) -> Option<Step> {
        if self.aborted || self.next >= self.steps@.len() {
            None
        } else {
            Some(self.steps@[self.next as int])
        }
    }

    fn start(steps: Vec<Step>) -> (r: IngestionRun)
        requires
            plan_wf(steps@),
        ensures
            r.wf(),
            r.steps@ == steps@,
            r.next == 0,
            !r.aborted,
            r.record.status is Queued,
            r.record.progress == 0,
    {
        IngestionRun { steps, next: 0, aborted: false, record: JobRecord::queued() }
    }

    /// The step to perform now; `None` once the run has completed or failed.
    pub fn current(&self) -> (r: Option<Step>)
        requires
            self.wf(),
        ensures
            r == self.spec_current(),
    {
        if self.aborted || self.next >= self.steps.len() {
            None
        } else {
            Some(self.steps[self.next])
        }
    }

    /// Records that the current step succeeded: a checkpoint writes its status
    /// and progress to the job record, and the run moves to the next step.
    /// Progress never goes down, and reaches 100 exactly at completion.
    pub fn complete_step(&mut self)
        requires
            old(self).wf(),
            old(self).spec_current() is Some,
        ensures
            final(self).wf(),
            final(self).steps@ == old(self).steps@,
            final(self).next == old(self).next + 1,
            !final(self).aborted,
            final(self).record.progress >= old(self).record.progress,
            old(self).spec_current() matches Some(Step::Checkpoint { completed, progress }) ==> {
                &&& final(self).record.progress == progress
                &&& final(self).record.status == (if completed { JobStatus::Completed } else { JobStatus::Processing })
                &&& final(self).record.error_message is None
            },
            !(old(self).spec_current() matches Some(Step::Checkpoint { .. })) ==> final(self).record == old(self).record,
    {
        let len = self.steps.len();
        let step = self.steps[self.next];
        match step {
            Step::Checkpoint { completed, progress } => {
                self.record.status = if completed { JobStatus::Completed } else { JobStatus::Processing };
                self.record.progress = progress;
            },
            _ => {},
        }
        assert(self.next < len);
        self.next = self.next + 1;
        proof {
            let st = self.steps@;
            assert(st[st.len() - 1] == done_cp());
            if self.next < st.len() {
                assert(!(st[self.next - 1] matches Step::Checkpoint { completed: true, .. }));
            }
        }
    }

    /// Ends the run as failed with `message`: the job record turns `failed`,
    /// keeps its progress, and no further step is performed.
    pub fn handle_error(&mut self, message: &str)
        requires
            old(self).wf(),
            !(old(self).record.status is Completed),
        ensures
            final(self).wf(),
            final(self).aborted,
            final(self).spec_current() is None,
            final(self).steps@ == old(self).steps@,
            final(self).record.status is Failed,
            final(self).record.progress == old(self).record.progress,
            final(self).record.error_message matches Some(m) && m@ == message@,
    {
        self.aborted = true;
        self.record.status = JobStatus::Failed;
        self.record.error_message = Some(String::from_str(message));
    }
}

/// The orchestrator: the stores that a run may write to.
#[derive(Debug, Clone)]
pub struct IngestionPipeline {
    pub vector_store: Option<ChromaDbStore>,
    pub graph_store: Option<GraphBackend>,
}

impl IngestionPipeline {
    /// A pipeline with a vector store when `chroma_url` is given (collection
    /// `akashic`), and a graph store when both `graph_db_type` and
    /// `graph_config` are given; fails when the graph store's settings are
    /// incomplete or its backend is unavailable.
    pub fn new(chroma_url: Option<&str>, graph_db_type: Option<GraphDbType>, graph_config: Option<&GraphConfig>)
        -> (r: Result<IngestionPipeline, StoreError>)
        ensures
            graph_db_type is Some && graph_config is Some ==> (match graph_config_error(graph_db_type->0, *graph_config->0) {
                Some(e) => r == Err::<IngestionPipeline, StoreError>(e),
                None => r matches Ok(p) && p.graph_store matches Some(b)
                    && builds_backend(graph_db_type->0, *graph_config->0, b),
            }),
            !(graph_db_type is Some && graph_config is Some) ==> r is Ok,
            r matches Ok(p) ==> {
                &&& (p.vector_store is Some <==> chroma_url is Some)
                &&& (chroma_url matches Some(u) ==> p.vector_store->0.base_url@ == trim_trailing_slashes(u@)
                    && p.vector_store->0.collection_name@ == "akashic"@)
                &&& (p.graph_store is Some <==> graph_db_type is Some && graph_config is Some)
            },
    {
        let vector_store = match chroma_url {
            Some(url) => Some(ChromaDbStore::new(url, "akashic")),
            None => None,
        };
        let mut graph_store: Option<GraphBackend> = None;
        if let Some(t) = graph_db_type {
            if let Some(c) = graph_config {
                match create_graph_store(t, c) {
                    Ok(g) => {
                        graph_store = Some(g);
                    },
                    Err(e) => {
                        return Err(e);
                    },
                }
            }
        }
        Ok(IngestionPipeline { vector_store, graph_store })
    }

    pub open spec fn has_vector(&self) -> bool {
        self.vector_store is Some
    }

    pub open spec fn has_graph(&self) -> bool {
        self.graph_store is Some
    }

    /// A run that ingests a file: extraction, then the stores that `target`
    /// selects, skipping any that is not configured.
    pub fn process_file(&self, target: IngestionTarget) -> (r: IngestionRun)
        ensures
            r.wf(),
            r.steps@ == file_plan(target, self.has_vector(), self.has_graph()),
            r.next == 0,
            !r.aborted,
            r.record.status is Queued,
            r.record.progress == 0,
    {
        let steps = build_file_plan(target, self.vector_store.is_some(), self.graph_store.is_some());
        proof { lemma_file_plan_wf(target, self.has_vector(), self.has_graph()); }
        IngestionRun::start(steps)
    }

    /// A run that ingests literal text: no extraction, then the stores that
    /// `target` selects, skipping any that is not configured.
    pub fn process_text(&self, target: IngestionTarget) -> (r: IngestionRun)
        ensures
            r.wf(),
            r.steps@ == text_plan(target, self.has_vector(), self.has_graph()),
            r.next == 0,
            !r.aborted,
            r.record.status is Queued,
            r.record.progress == 0,
    {
        let steps = build_text_plan(target, self.vector_store.is_some(), self.graph_store.is_some());
        proof { lemma_text_plan_wf(target, self.has_vector(), self.has_graph()); }
        IngestionRun::start(steps)
    }

    /// Ends `run` as failed with `error`.
    pub fn handle_error(&self, run: &mut IngestionRun, error: &str)
        requires
            old(run).wf(),
            !(old(run).record.status is Completed),
        ensures
            final(run).wf(),
            final(run).aborted,
            final(run).spec_current() is None,
            final(run).steps@ == old(run).steps@,
            final(run).record.status is Failed,
            final(run).record.progress == old(run).record.progress,
            final(run).record.error_message matches Some(m) && m@ == error@,
    {
        run.handle_error(error);
    }
}

/// In every run, progress never exceeds 100 and is 100 exactly when the job
/// is completed; a failed job carries its message. Performing a step never
/// lowers progress (see `IngestionRun::complete_step`).
pub proof fn progress_matches_completion(run: IngestionRun)
    requires
        run.wf(),
    ensures
        run.record.progress <= 100,
        run.record.progress == 100 <==> run.record.status is Completed,
        run.record.status is Failed <==> run.record.error_message is Some,
        forall|i: int, j: int| 0 <= i < j < run.steps@.len() && #[trigger] run.steps@[i] is Checkpoint
            && #[trigger] run.steps@[j] is Checkpoint ==> run.steps@[i]->progress <= run.steps@[j]->progress,
{
}

/// A file run with target `Both` calls the vector store before the graph
/// store; once a failure is handled the run has no current step, so a failing
/// vector store means the graph store is never called.
pub proof fn vector_failure_skips_graph(has_vector: bool, has_graph: bool, run: IngestionRun)
    requires
        run.wf(),
        run.aborted,
    ensures
        forall|i: int, j: int| 0 <= i < file_plan(IngestionTarget::Both, has_vector, has_graph).len()
            && 0 <= j < file_plan(IngestionTarget::Both, has_vector, has_graph).len()
            && #[trigger] file_plan(IngestionTarget::Both, has_vector, has_graph)[i] == Step::StoreVector
            && #[trigger] file_plan(IngestionTarget::Both, has_vector, has_graph)[j] == Step::StoreGraph
            ==> i < j,
        run.spec_current() is None,
{
    let p = file_plan(IngestionTarget::Both, has_vector, has_graph);
    let a = opt_step(has_vector, Step::StoreVector);
    let b = opt_step(has_graph, Step::StoreGraph);
    assert forall|i: int, j: int| 0 <= i < p.len() && 0 <= j < p.len()
        && #[trigger] p[i] == Step::StoreVector && #[trigger] p[j] == Step::StoreGraph implies i < j by {
        if has_vector {
            assert(p[3] == Step::StoreVector);
            assert(p[4] == cp(60));
        } else {
            assert(p[3] == cp(60));
        }
        let k = 3 + a.len() + 1;
        assert forall|m: int| 0 <= m < k implies p[m] != Step::StoreGraph by {
            if m >= 3 {
                assert(p[m] == file_fan_out(IngestionTarget::Both, has_vector, has_graph)[m - 3]);
            }
        };
        assert forall|m: int| k <= m < p.len() implies p[m] != Step::StoreVector by {
            if m < p.len() - 1 {
                assert(p[m] == b.push(cp(80))[m - k]);
            }
        };
    };
}

/// A text run with target `Graph` and no graph store calls no store: it
/// checkpoints at 10, then completes at 100, and so ends `completed` at 100
/// with no error once both steps are done.
pub proof fn text_graph_without_store_completes(has_vector: bool, run: IngestionRun)
    requires
        run.wf(),
        run.steps@ == text_plan(IngestionTarget::Graph, has_vector, false),
        !run.aborted,
        run.next == 2,
    ensures
        text_plan(IngestionTarget::Graph, has_vector, false)
            == seq![cp(10), done_cp()],
        run.record.status is Completed,
        run.record.progress == 100,
        run.record.error_message is None,
{
    assert(text_plan(IngestionTarget::Graph, has_vector, false) =~= seq![cp(10), done_cp()]);
}

} // verus!
