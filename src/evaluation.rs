//! Decisions of the evaluation harness: which evaluator runs, which results
//! become feedback, how task and feedback failures end up in the result, and
//! what an inference request for a datapoint holds. The calls themselves
//! (inference, feedback, task joins) are the caller's.
use vstd::prelude::*;

verus! {

#[verifier::external_type_specification]
#[verifier::external_body]
pub struct ExValue(serde_json::Value);

/// Relies on serde_json's derived `Clone` for `Value`: the copy equals the value it was made from.
pub assume_specification[ <serde_json::Value as Clone>::clone ](v: &serde_json::Value) -> (r:
    serde_json::Value)
    ensures
        r == *v,
;

/// The kind of an evaluator, as its configuration says.
#[derive(PartialEq, Eq, Structural, Clone, Copy, Debug)]
pub enum EvaluatorKind {
    ExactMatch,
    LlmJudge,
}

/// Where an evaluator is routed.
#[derive(Debug)]
pub enum EvaluatorRoute {
    ExactMatch,
    LlmJudge,
    /// The evaluator has no configuration.
    NotFound { message: String },
}

/// The message for an evaluator that has no configuration.
pub open spec fn not_found_message(name: Seq<char>) -> Seq<char> {
    "Evaluator config not found for "@ + name
        + ". This should never happen. Please file a bug report at https://github.com/tensorzero/tensorzero/discussions/categories/bug-reports."@
}

/// Routes evaluator `evaluator_name` by the kind its configuration gives, if any.
pub fn route_evaluator(evaluator_name: &String, kind: Option<EvaluatorKind>) -> (r: EvaluatorRoute)
    ensures
        match kind {
            Some(EvaluatorKind::ExactMatch) => r is ExactMatch,
            Some(EvaluatorKind::LlmJudge) => r is LlmJudge,
            None => match r {
                EvaluatorRoute::NotFound { message } => message@ == not_found_message(
                    evaluator_name@,
                ),
                _ => false,
            },
        },
{
    match kind {
        Some(EvaluatorKind::ExactMatch) => EvaluatorRoute::ExactMatch,
        Some(EvaluatorKind::LlmJudge) => EvaluatorRoute::LlmJudge,
        None => {
            let message = String::from_str("Evaluator config not found for ").concat(
                evaluator_name.as_str(),
            ).concat(
                ". This should never happen. Please file a bug report at https://github.com/tensorzero/tensorzero/discussions/categories/bug-reports.",
            );
            EvaluatorRoute::NotFound { message }
        },
    }
}

/// What one evaluator produced.
#[derive(Debug)]
pub enum EvaluatorOutcome {
    /// It ran and produced a value.
    Value(serde_json::Value),
    /// It ran but had nothing to judge (e.g. no reference output).
    NoValue,
    /// It failed to run.
    Failed { message: String },
}

/// Feedback to send for one evaluator's value.
#[derive(Debug)]
pub struct FeedbackRequest {
    pub evaluation_name: String,
    pub evaluator_name: String,
    pub value: serde_json::Value,
    pub tags: Vec<(String, String)>,
    pub internal: bool,
    pub dryrun: bool,
}

/// The evaluators that produced a value, with the value, in order.
pub open spec fn valued(outcomes: Seq<(String, EvaluatorOutcome)>) -> Seq<(String, serde_json::Value)>
    decreases outcomes.len(),
{
    if outcomes.len() == 0 {
        seq![]
    } else {
        let rest = valued(outcomes.drop_last());
        match outcomes.last().1 {
            EvaluatorOutcome::Value(v) => rest.push((outcomes.last().0, v)),
            _ => rest,
        }
    }
}

/// Tags as plain character sequences.
pub open spec fn tag_view(tags: Seq<(String, String)>) -> Seq<(Seq<char>, Seq<char>)> {
    tags.map_values(|p: (String, String)| (p.0@, p.1@))
}

/// The tags of feedback: the run id alone, or with `Some` datapoint id, the
/// run id, the datapoint id and the evaluation name.
pub open spec fn feedback_tags(
    run_id: Seq<char>,
    datapoint_id: Option<Seq<char>>,
    evaluation_name: Seq<char>,
) -> Seq<(Seq<char>, Seq<char>)> {
    match datapoint_id {
        None => seq![("tensorzero::eval_run_id"@, run_id)],
        Some(dp) => seq![
            ("tensorzero::evaluation_run_id"@, run_id),
            ("tensorzero::datapoint_id"@, dp),
            ("tensorzero::evaluation_name"@, evaluation_name),
        ],
    }
}

/// The feedback requests for `outcomes`: one for each evaluator that produced
/// a value, in order, carrying its value and the tags.
pub open spec fn requests_match(
    r: Seq<FeedbackRequest>,
    outcomes: Seq<(String, EvaluatorOutcome)>,
    evaluation_name: String,
    run_id: Seq<char>,
    datapoint_id: Option<Seq<char>>,
) -> bool {
    let v = valued(outcomes);
    &&& r.len() == v.len()
    &&& forall|k: int|
        0 <= k < r.len() ==> {
            &&& (#[trigger] r[k]).evaluator_name == v[k].0
            &&& r[k].value == v[k].1
            &&& r[k].evaluation_name == evaluation_name
            &&& tag_view(r[k].tags@) == feedback_tags(run_id, datapoint_id, evaluation_name@)
            &&& r[k].internal == datapoint_id is Some
            &&& !r[k].dryrun
        }
}

/// The characters of an optional string.
pub open spec fn opt_view(d: Option<&String>) -> Option<Seq<char>> {
    match d {
        Some(d) => Some(d@),
        None => None,
    }
}

fn tag(key: &str, value: &String) -> (r: (String, String))
    ensures
        r.0@ == key@,
        r.1@ == value@,
{
    (String::from_str(key), value.clone())
}

fn tags(run_id: &String, datapoint_id: Option<&String>, evaluation_name: &String) -> (r: Vec<
    (String, String),
>)
    ensures
        tag_view(r@) == feedback_tags(run_id@, opt_view(datapoint_id), evaluation_name@),
{
    let mut r: Vec<(String, String)> = Vec::new();
    match datapoint_id {
        None => {
            r.push(tag("tensorzero::eval_run_id", run_id));
        },
        Some(dp) => {
            r.push(tag("tensorzero::evaluation_run_id", run_id));
            r.push(tag("tensorzero::datapoint_id", dp));
            r.push(tag("tensorzero::evaluation_name", evaluation_name));
        },
    }
    assert(tag_view(r@) =~= feedback_tags(
        run_id@,
        opt_view(datapoint_id),
        evaluation_name@,
    ));
    r
}

fn requests_for(
    outcomes: &Vec<(String, EvaluatorOutcome)>,
    evaluation_name: &String,
    run_id: &String,
    datapoint_id: Option<&String>,
) -> (r: Vec<FeedbackRequest>)
    ensures
        requests_match(
            r@,
            outcomes@,
            *evaluation_name,
            run_id@,
            opt_view(datapoint_id),
        ),
{
    let ghost dp = opt_view(datapoint_id);
    let mut r: Vec<FeedbackRequest> = Vec::new();
    let mut i: usize = 0;
    while i < outcomes.len()
        invariant
            i <= outcomes@.len(),
            dp == opt_view(datapoint_id),
            requests_match(r@, outcomes@.subrange(0, i as int), *evaluation_name, run_id@, dp),
        decreases outcomes@.len() - i,
    {
        let ghost before = r@;
        assert(outcomes@.subrange(0, i + 1).drop_last() =~= outcomes@.subrange(0, i as int));
        match &outcomes[i].1 {
            EvaluatorOutcome::Value(v) => {
                let req = FeedbackRequest {
                    evaluation_name: evaluation_name.clone(),
                    evaluator_name: outcomes[i].0.clone(),
                    value: v.clone(),
                    tags: tags(run_id, datapoint_id, evaluation_name),
                    internal: datapoint_id.is_some(),
                    dryrun: false,
                };
                r.push(req);
                assert forall|k: int| 0 <= k < r@.len() - 1 implies #[trigger] r@[k] == before[k] by {}
            },
            _ => {},
        }
        i = i + 1;
    }
    assert(outcomes@.subrange(0, outcomes@.len() as int) =~= outcomes@);
    r
}

/// Feedback for a run of the evaluation CLI: one request per evaluator that
/// produced a value, in order, tagged with the run id.
pub fn feedback_requests(
    outcomes: &Vec<(String, EvaluatorOutcome)>,
    evaluation_name: &String,
    eval_run_id: &String,
) -> (r: Vec<FeedbackRequest>)
    ensures
        requests_match(r@, outcomes@, *evaluation_name, eval_run_id@, None),
{
    requests_for(outcomes, evaluation_name, eval_run_id, None)
}

/// Feedback for an evaluation run: one internal request per evaluator that
/// produced a value, in order, tagged with the run id, the datapoint id and
/// the evaluation name.
pub fn evaluation_feedback_requests(
    outcomes: &Vec<(String, EvaluatorOutcome)>,
    evaluation_name: &String,
    evaluation_run_id: &String,
    datapoint_id: &String,
) -> (r: Vec<FeedbackRequest>)
    ensures
        requests_match(r@, outcomes@, *evaluation_name, evaluation_run_id@, Some(datapoint_id@)),
{
    requests_for(outcomes, evaluation_name, evaluation_run_id, Some(datapoint_id))
}

/// What became of one evaluator's task.
#[derive(Debug)]
pub enum TaskResult {
    /// The task completed with `outcome`; `feedback` is the result of sending
    /// its value as feedback, `None` when nothing was sent.
    Joined { outcome: EvaluatorOutcome, feedback: Option<Result<(), String>> },
    /// The task did not complete (it panicked or was cancelled).
    NotJoined { message: String },
}

/// One evaluator's task, by evaluator name.
#[derive(Debug)]
pub struct EvaluatorReport {
    pub evaluator_name: String,
    pub task: TaskResult,
}

/// The failure of a task, if it did not complete or its feedback failed.
pub open spec fn task_failure(t: TaskResult) -> Option<Seq<char>> {
    match t {
        TaskResult::NotJoined { message } => Some(message@),
        TaskResult::Joined { feedback: Some(Err(m)), .. } => Some(m@),
        _ => None,
    }
}

/// The outcome a completed task reports.
pub open spec fn task_outcome(t: TaskResult) -> EvaluatorOutcome {
    match t {
        TaskResult::Joined { outcome, .. } => outcome,
        TaskResult::NotJoined { message } => EvaluatorOutcome::Failed { message },
    }
}

/// The result of evaluating one inference in the evaluation CLI: the first
/// task (in the order given) that did not complete or whose feedback failed
/// fails the whole call with that task's message; otherwise every evaluator
/// with its outcome, in order.
pub fn evaluation_result(reports: Vec<EvaluatorReport>) -> (r: Result<
    Vec<(String, EvaluatorOutcome)>,
    String,
>)
    ensures
        r is Ok <==> forall|i: int| 0 <= i < reports@.len() ==> task_failure(#[trigger] reports@[i].task) is None,
        match r {
            Ok(v) => {
                &&& v@.len() == reports@.len()
                &&& forall|k: int|
                    0 <= k < v@.len() ==> (#[trigger] v@[k]).0 == reports@[k].evaluator_name
                        && v@[k].1 == task_outcome(reports@[k].task)
            },
            Err(m) => exists|i: int|
                0 <= i < reports@.len() && task_failure(#[trigger] reports@[i].task) == Some(m@)
                    && forall|j: int| 0 <= j < i ==> task_failure(#[trigger] reports@[j].task) is None,
        },
{
    let ghost orig = reports@;
    let mut rest = reports;
    let mut out: Vec<(String, EvaluatorOutcome)> = Vec::new();
    while rest.len() > 0
        invariant
            orig == reports@,
            out@.len() + rest@.len() == orig.len(),
            rest@ == orig.subrange(out@.len() as int, orig.len() as int),
            forall|k: int|
                0 <= k < out@.len() ==> (#[trigger] out@[k]).0 == orig[k].evaluator_name
                    && out@[k].1 == task_outcome(orig[k].task) && task_failure(orig[k].task) is None,
        decreases rest@.len(),
    {
        let ghost k = out@.len() as int;
        let report = rest.remove(0);
        assert(report == orig[k]);
        assert(rest@ =~= orig.subrange(k + 1, orig.len() as int));
        let EvaluatorReport { evaluator_name, task } = report;
        match task {
            TaskResult::NotJoined { message } => {
                proof {
                    lemma_none_before(orig, out@, k);
                    assert(task_failure(orig[k].task) == Some(message@));
                    assert(task_failure(reports@[k].task) == Some(message@));
                }
                return Err(message);
            },
            TaskResult::Joined { outcome, feedback } => {
                match feedback {
                    Some(Err(message)) => {
                        proof {
                            lemma_none_before(orig, out@, k);
                            assert(task_failure(orig[k].task) == Some(message@));
                            assert(task_failure(reports@[k].task) == Some(message@));
                        }
                        return Err(message);
                    },
                    _ => {
                        out.push((evaluator_name, outcome));
                    },
                }
            },
        }
    }
    proof {
        lemma_none_before(orig, out@, out@.len() as int);
    }
    Ok(out)
}

proof fn lemma_none_before(
    orig: Seq<EvaluatorReport>,
    out: Seq<(String, EvaluatorOutcome)>,
    k: int,
)
    requires
        0 <= k <= out.len(),
        forall|j: int|
            0 <= j < out.len() ==> (#[trigger] out[j]).0 == orig[j].evaluator_name && out[j].1
                == task_outcome(orig[j].task) && task_failure(orig[j].task) is None,
    ensures
        forall|j: int| 0 <= j < k ==> task_failure(#[trigger] orig[j].task) is None,
{
    assert forall|j: int| 0 <= j < k implies task_failure(#[trigger] orig[j].task) is None by {
        assert(out[j].0 == orig[j].evaluator_name);
    }
}

/// The outcome an evaluation run records for a task: a task that did not
/// complete fails with "Failed to join task: " and its message, failed
/// feedback fails the evaluator with the feedback's message, anything else is
/// the evaluator's own outcome.
pub open spec fn settled_outcome(o: EvaluatorOutcome, t: TaskResult) -> bool {
    match t {
        TaskResult::NotJoined { message } => match o {
            EvaluatorOutcome::Failed { message: m } => m@ == "Failed to join task: "@ + message@,
            _ => false,
        },
        TaskResult::Joined { feedback: Some(Err(f)), .. } => match o {
            EvaluatorOutcome::Failed { message: m } => m@ == f@,
            _ => false,
        },
        TaskResult::Joined { outcome, .. } => o == outcome,
    }
}

/// The result of evaluating one inference in an evaluation run: every
/// evaluator with its outcome, in order; a task or feedback failure becomes
/// that evaluator's failure and never fails the others.
pub fn evaluation_results(reports: Vec<EvaluatorReport>) -> (r: Vec<(String, EvaluatorOutcome)>)
    ensures
        r@.len() == reports@.len(),
        forall|k: int|
            0 <= k < r@.len() ==> (#[trigger] r@[k]).0 == reports@[k].evaluator_name
                && settled_outcome(r@[k].1, reports@[k].task),
{
    let ghost orig = reports@;
    let mut rest = reports;
    let mut out: Vec<(String, EvaluatorOutcome)> = Vec::new();
    while rest.len() > 0
        invariant
            out@.len() + rest@.len() == orig.len(),
            rest@ == orig.subrange(out@.len() as int, orig.len() as int),
            forall|k: int|
                0 <= k < out@.len() ==> (#[trigger] out@[k]).0 == orig[k].evaluator_name
                    && settled_outcome(out@[k].1, orig[k].task),
        decreases rest@.len(),
    {
        let ghost k = out@.len() as int;
        let report = rest.remove(0);
        assert(report == orig[k]);
        assert(rest@ =~= orig.subrange(k + 1, orig.len() as int));
        let EvaluatorReport { evaluator_name, task } = report;
        let outcome = match task {
            TaskResult::NotJoined { message } => EvaluatorOutcome::Failed {
                message: String::from_str("Failed to join task: ").concat(message.as_str()),
            },
            TaskResult::Joined { outcome, feedback } => match feedback {
                Some(Err(message)) => EvaluatorOutcome::Failed { message },
                _ => outcome,
            },
        };
        out.push((evaluator_name, outcome));
    }
    out
}

/// The parts of an inference request for a datapoint that the harness decides.
#[derive(Debug)]
pub struct InferenceRequest {
    pub function_name: String,
    pub variant_name: String,
    pub tags: Vec<(String, String)>,
    pub dryrun: bool,
    pub stream: bool,
    pub cache_enabled: bool,
    pub cache_max_age_s: Option<u32>,
}

/// The inference request for a datapoint of a run: the function and variant
/// as given, tagged with the run id only, neither a dry run nor streamed,
/// with the cache on and no maximum age.
pub fn inference_request(function_name: String, variant_name: String, eval_run_id: &String) -> (r:
    InferenceRequest)
    ensures
        r.function_name == function_name,
        r.variant_name == variant_name,
        tag_view(r.tags@) == seq![("tensorzero::eval_run_id"@, eval_run_id@)],
        !r.dryrun,
        !r.stream,
        r.cache_enabled,
        r.cache_max_age_s is None,
{
    let mut tags: Vec<(String, String)> = Vec::new();
    tags.push(tag("tensorzero::eval_run_id", eval_run_id));
    assert(tag_view(tags@) =~= seq![("tensorzero::eval_run_id"@, eval_run_id@)]);
    InferenceRequest {
        function_name,
        variant_name,
        tags,
        dryrun: false,
        stream: false,
        cache_enabled: true,
        cache_max_age_s: None,
    }
}

/// Accepts the output of an inference only when it is not streamed.
pub fn accept_output(streaming: bool) -> (r: Result<(), String>)
    ensures
        r is Err == streaming,
        match r {
            Err(m) => m@ == "Streaming inference should never happen in evals"@,
            Ok(_) => true,
        },
{
    if streaming {
        Err(String::from_str("Streaming inference should never happen in evals"))
    } else {
        Ok(())
    }
}

} // verus!
