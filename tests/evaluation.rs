use migration_manager::evaluation::{
    accept_output, evaluation_feedback_requests, evaluation_result, evaluation_results,
    feedback_requests, inference_request, route_evaluator, EvaluatorKind, EvaluatorOutcome,
    EvaluatorReport, EvaluatorRoute, TaskResult,
};
use serde_json::Value;

fn s(x: &str) -> String {
    x.to_string()
}

fn outcomes() -> Vec<(String, EvaluatorOutcome)> {
    vec![
        (s("exact_match"), EvaluatorOutcome::Value(Value::Bool(true))),
        (s("needs_reference"), EvaluatorOutcome::NoValue),
        (
            s("broken"),
            EvaluatorOutcome::Failed {
                message: s("judge failed"),
            },
        ),
        (s("llm_judge"), EvaluatorOutcome::Value(Value::from(7))),
    ]
}

fn pairs(tags: &[(String, String)]) -> Vec<(&str, &str)> {
    tags.iter().map(|(k, v)| (k.as_str(), v.as_str())).collect()
}

#[test]
fn evaluators_are_routed_by_kind() {
    let name = s("happy_bool");
    assert!(matches!(
        route_evaluator(&name, Some(EvaluatorKind::ExactMatch)),
        EvaluatorRoute::ExactMatch
    ));
    assert!(matches!(
        route_evaluator(&name, Some(EvaluatorKind::LlmJudge)),
        EvaluatorRoute::LlmJudge
    ));
    match route_evaluator(&name, None) {
        EvaluatorRoute::NotFound { message } => assert_eq!(
            message,
            "Evaluator config not found for happy_bool. This should never happen. Please file a bug report at https://github.com/tensorzero/tensorzero/discussions/categories/bug-reports."
        ),
        other => panic!("unexpected route {other:?}"),
    }
}

#[test]
fn feedback_goes_to_evaluators_with_a_value() {
    let run_id = s("0192-run");
    let r = feedback_requests(&outcomes(), &s("entity_extraction"), &run_id);
    assert_eq!(r.len(), 2);
    assert_eq!(r[0].evaluator_name, "exact_match");
    assert_eq!(r[0].value, Value::Bool(true));
    assert_eq!(r[1].evaluator_name, "llm_judge");
    assert_eq!(r[1].value, Value::from(7));
    for req in &r {
        assert_eq!(req.evaluation_name, "entity_extraction");
        assert_eq!(pairs(&req.tags), vec![("tensorzero::eval_run_id", "0192-run")]);
        assert!(!req.internal);
        assert!(!req.dryrun);
    }
    assert!(feedback_requests(&vec![], &s("e"), &run_id).is_empty());
}

#[test]
fn evaluation_feedback_is_internal_and_fully_tagged() {
    let r = evaluation_feedback_requests(&outcomes(), &s("haiku"), &s("run-7"), &s("dp-3"));
    assert_eq!(r.len(), 2);
    for req in &r {
        assert!(req.internal);
        assert!(!req.dryrun);
        assert_eq!(
            pairs(&req.tags),
            vec![
                ("tensorzero::evaluation_run_id", "run-7"),
                ("tensorzero::datapoint_id", "dp-3"),
                ("tensorzero::evaluation_name", "haiku"),
            ]
        );
    }
}

fn report(name: &str, task: TaskResult) -> EvaluatorReport {
    EvaluatorReport {
        evaluator_name: s(name),
        task,
    }
}

fn joined(outcome: EvaluatorOutcome, feedback: Option<Result<(), String>>) -> TaskResult {
    TaskResult::Joined { outcome, feedback }
}

#[test]
fn cli_result_keeps_every_evaluator_when_nothing_failed() {
    let r = evaluation_result(vec![
        report("a", joined(EvaluatorOutcome::Value(Value::Bool(false)), Some(Ok(())))),
        report("b", joined(EvaluatorOutcome::NoValue, None)),
        report(
            "c",
            joined(
                EvaluatorOutcome::Failed {
                    message: s("no judge"),
                },
                None,
            ),
        ),
    ])
    .unwrap();
    assert_eq!(r.len(), 3);
    assert_eq!(r[0].0, "a");
    assert!(matches!(&r[0].1, EvaluatorOutcome::Value(Value::Bool(false))));
    assert!(matches!(r[1].1, EvaluatorOutcome::NoValue));
    assert!(matches!(&r[2].1, EvaluatorOutcome::Failed { message } if message == "no judge"));
}

#[test]
fn cli_result_fails_at_the_first_join_or_feedback_failure() {
    let r = evaluation_result(vec![
        report("a", joined(EvaluatorOutcome::NoValue, None)),
        report(
            "b",
            TaskResult::NotJoined {
                message: s("task 2 panicked"),
            },
        ),
        report(
            "c",
            joined(EvaluatorOutcome::Value(Value::from(1)), Some(Err(s("gateway down")))),
        ),
    ]);
    assert_eq!(r.unwrap_err(), "task 2 panicked");
    let r = evaluation_result(vec![report(
        "c",
        joined(EvaluatorOutcome::Value(Value::from(1)), Some(Err(s("gateway down")))),
    )]);
    assert_eq!(r.unwrap_err(), "gateway down");
}

#[test]
fn evaluation_results_turn_failures_into_evaluator_errors() {
    let r = evaluation_results(vec![
        report(
            "a",
            TaskResult::NotJoined {
                message: s("cancelled"),
            },
        ),
        report(
            "b",
            joined(EvaluatorOutcome::Value(Value::from(2)), Some(Err(s("gateway down")))),
        ),
        report("c", joined(EvaluatorOutcome::Value(Value::from(3)), Some(Ok(())))),
    ]);
    assert_eq!(r.len(), 3);
    assert!(
        matches!(&r[0].1, EvaluatorOutcome::Failed { message } if message == "Failed to join task: cancelled")
    );
    assert!(matches!(&r[1].1, EvaluatorOutcome::Failed { message } if message == "gateway down"));
    assert_eq!(r[2].0, "c");
    assert!(matches!(&r[2].1, EvaluatorOutcome::Value(v) if *v == Value::from(3)));
}

#[test]
fn inference_request_for_a_datapoint() {
    let r = inference_request(s("extract_entities"), s("gpt_4o"), &s("run-1"));
    assert_eq!(r.function_name, "extract_entities");
    assert_eq!(r.variant_name, "gpt_4o");
    assert_eq!(pairs(&r.tags), vec![("tensorzero::eval_run_id", "run-1")]);
    assert!(!r.dryrun);
    assert!(!r.stream);
    assert!(r.cache_enabled);
    assert_eq!(r.cache_max_age_s, None);
}

#[test]
fn streaming_output_is_rejected() {
    assert!(accept_output(false).is_ok());
    assert_eq!(
        accept_output(true).unwrap_err(),
        "Streaming inference should never happen in evals"
    );
}
