use mmss::campaign::{
    default_max_steps, evaluate_research_progress, fallback_task_for_target, infer_default_target, progress,
    ResearchCampaign, CONVERGED,
};
use mmss::emergence::{integer_sqrt, rotation_request, squared_norm, EmergenceLogic, Quaternion, RotationTerms, MAX_COHERENCE, MIN_STABILITY};
use mmss::metrics::{GeometricMetrics, BASELINE_COHERENCE, ELECTRON_MASS, SCALE};
use mmss::params::{extract_scalar, normalize_axis, ParamEntry, ParamValue};
use mmss::rules::{delete_rule, register_rule, GeometricMetricEngine, RegisterRuleRequest, RuleDeltas, RuleError};
use mmss::tasks::{DelegateOutcome, ExecutionInputs, HopfionSolitonField, SemanticTaskProcessor, TaskError, TaskStatus};
use mmss::types::{GeometricOperator, GeometricTaskCommand};
use mmss::metrics::CustomMetric;

fn fixed(x: f64) -> i64 {
    (x * SCALE as f64).round() as i64
}

fn rotation_terms(theta: i64) -> RotationTerms {
    let t = theta as f64 / SCALE as f64;
    RotationTerms { half_angle_sine: fixed((t * 0.5).sin().abs()) }
}

fn inputs_for(params: &ParamValue) -> ExecutionInputs {
    let (theta, _) = rotation_request(params);
    ExecutionInputs { rotation: rotation_terms(theta), delegate: None }
}

fn no_terms() -> RotationTerms {
    RotationTerms { half_angle_sine: 0 }
}

fn entry(key: &str, value: ParamValue) -> ParamEntry {
    ParamEntry { key: key.to_string(), value }
}

fn command(op: GeometricOperator, parameters: ParamValue, id: Option<u128>) -> GeometricTaskCommand {
    GeometricTaskCommand {
        task_name: "Test Task".to_string(),
        geometric_operator: op,
        target_module: "test_module".to_string(),
        parameters,
        expected_output_metric: "v_geometric".to_string(),
        task_id: id,
    }
}

fn empty_params() -> ParamValue {
    ParamValue::Object(Vec::new())
}

fn sample_metrics() -> GeometricMetrics {
    GeometricMetrics {
        v_geometric: SCALE,
        s_geometric: SCALE,
        q_oscillator: SCALE,
        quaternion_coherence: 900_000_000,
        emergent_electron_mass: ELECTRON_MASS,
        fine_structure_constant: SCALE / 137,
        zitterbewegung_entropy: 500_000_000,
        topological_winding: 8_900_000_000,
        custom_metrics: Vec::new(),
    }
}

fn execute(p: &mut SemanticTaskProcessor, id: u128) -> Result<mmss::tasks::TaskExecutionResult, TaskError> {
    let params = empty_params();
    let inputs = inputs_for(&params);
    p.execute_task(id, inputs)
}

#[test]
fn test_register_and_apply_rule() {
    let mut engine = GeometricMetricEngine::new();
    engine.register_rule("boost_v".to_string(), RuleDeltas { delta_v: Some(500_000_000), delta_s: None, delta_q: None });
    let mut metrics = sample_metrics();
    assert!(engine.apply_rule("boost_v", &mut metrics));
    assert_eq!(metrics.v_geometric, 1_500_000_000);
}

#[test]
fn test_task_submission() {
    let mut processor = SemanticTaskProcessor::new();
    let task_id = processor.submit_task(command(GeometricOperator::QuaternionRotation, empty_params(), None)).unwrap();
    let status = processor.get_task_status(task_id).unwrap();
    assert!(matches!(status, TaskStatus::Pending));
}

#[test]
fn test_task_execution() {
    let mut processor = SemanticTaskProcessor::new();
    let initial_metrics = processor.get_metrics();
    let task_id = processor.submit_task(command(GeometricOperator::QuaternionRotation, empty_params(), None)).unwrap();
    let result = execute(&mut processor, task_id).unwrap();
    assert!(result.success);
    assert!(result.metrics.v_geometric > initial_metrics.v_geometric);
    let status = processor.get_task_status(task_id).unwrap();
    assert!(matches!(status, TaskStatus::Completed(_)));
}

#[test]
fn test_metrics_consistency() {
    let mut processor = SemanticTaskProcessor::new();
    let initial_metrics = processor.get_metrics();
    let task_id = processor.submit_task(command(GeometricOperator::QuaternionRotation, empty_params(), None)).unwrap();
    let _ = execute(&mut processor, task_id).unwrap();
    let updated_metrics = processor.get_metrics();
    assert!(updated_metrics.v_geometric > initial_metrics.v_geometric);
    assert!(updated_metrics.s_geometric >= initial_metrics.s_geometric);
    assert!(updated_metrics.q_oscillator >= initial_metrics.q_oscillator);
}

#[test]
fn rotation_scenario_matches_formula() {
    let mut processor = SemanticTaskProcessor::new();
    let c0 = processor.get_metrics().quaternion_coherence;
    let axis = ParamValue::List(vec![ParamValue::Number(0), ParamValue::Number(SCALE), ParamValue::Number(0)]);
    let params = ParamValue::Object(vec![entry("theta", ParamValue::Number(200_000_000)), entry("axis", axis)]);
    let inputs = inputs_for(&params);
    assert_eq!(inputs.rotation.half_angle_sine, 99_833_417);
    assert_eq!(integer_sqrt(squared_norm(rotation_request(&params).1)), SCALE as u64);
    let id = processor.submit_task(command(GeometricOperator::QuaternionRotation, params, None)).unwrap();
    let result = processor.execute_task(id, inputs).unwrap();
    let expected = (c0 + 99_833_417 / 200).clamp(0, MAX_COHERENCE);
    assert_eq!(expected, 900_499_167);
    assert_eq!(result.metrics.quaternion_coherence, expected);
    assert_eq!(result.metrics.v_geometric, expected);
}

#[test]
fn boost_rule_scenario() {
    let mut engine = GeometricMetricEngine::new();
    let request = RegisterRuleRequest { name: "boost".to_string(), delta_v: Some(500_000_000), delta_s: None, delta_q: None };
    let response = register_rule(&mut engine, request).unwrap();
    assert!(response.registered);
    assert_eq!(response.rule_count, 1);
    let mut metrics = sample_metrics();
    assert!(engine.apply_rule("boost", &mut metrics));
    assert_eq!(metrics.v_geometric, 1_500_000_000);
    assert_eq!(metrics.custom_metrics.len(), 1);
    assert_eq!(metrics.custom_metrics[0].key, "rule:boost");
    assert_eq!(metrics.custom_metrics[0].value, SCALE);
}

#[test]
fn winding_campaign_with_unreachable_planner() {
    let mut processor = SemanticTaskProcessor::new();
    let mut campaign = ResearchCampaign::start(
        "reach nine".to_string(),
        "topological_winding".to_string(),
        Some(9 * SCALE),
        1,
        processor.get_metrics(),
    );
    let mut executed = 0;
    while !campaign.is_finished() {
        let cmd = campaign.next_command(None);
        assert_eq!(cmd.geometric_operator, GeometricOperator::Zitterbewegung);
        assert_eq!(cmd.parameters.number_at("frequency_scale"), Some(SCALE));
        assert!(cmd.task_id.is_none());
        let inputs = inputs_for(&cmd.parameters);
        let id = processor.submit_task(cmd).unwrap();
        let result = processor.execute_task(id, inputs).unwrap();
        executed += 1;
        let recorded = fallback_task_for_target("topological_winding", 9 * SCALE);
        campaign.record_step(recorded, result.metrics);
    }
    assert_eq!(executed, 1);
    assert_eq!(processor.list_tasks().len(), 1);
    let report = campaign.finish();
    assert_eq!(report.goal, "reach nine");
    assert_eq!(report.completed_steps, 1);
    assert_eq!(report.history.len(), 1);
    assert_eq!(report.target_value, 9 * SCALE);
    let step = &report.history[0];
    assert_eq!(step.step, 1);
    assert_eq!(step.task.geometric_operator, GeometricOperator::Zitterbewegung);
    assert_eq!(step.task.task_name, "Fallback Zitterbewegung tuning");
    assert_eq!(step.task.parameters.number_at("frequency_scale"), Some(SCALE));
    assert_eq!(step.progress, evaluate_research_progress(&step.result_metrics, "topological_winding", 9 * SCALE));
    assert_eq!(report.final_metrics.topological_winding, step.result_metrics.topological_winding);
}

#[test]
fn duplicate_id_scenario() {
    let mut processor = SemanticTaskProcessor::new();
    let first = processor.submit_task(command(GeometricOperator::QuaternionRotation, empty_params(), Some(42))).unwrap();
    assert_eq!(first, 42);
    let second = processor.submit_task(command(GeometricOperator::GeometricDerivation, empty_params(), Some(42)));
    assert_eq!(second, Err(TaskError::DuplicateId(42)));
    assert!(matches!(processor.get_task_status(42).unwrap(), TaskStatus::Pending));
    assert_eq!(processor.list_tasks().len(), 1);
}

#[test]
fn duplicate_after_execution_keeps_record() {
    let mut processor = SemanticTaskProcessor::new();
    processor.submit_task(command(GeometricOperator::QuaternionRotation, empty_params(), Some(7))).unwrap();
    execute(&mut processor, 7).unwrap();
    let again = processor.submit_task(command(GeometricOperator::QuaternionRotation, empty_params(), Some(7)));
    assert_eq!(again, Err(TaskError::DuplicateId(7)));
    assert!(matches!(processor.get_task_status(7).unwrap(), TaskStatus::Completed(_)));
}

#[test]
fn unknown_id_is_not_found_and_leaves_metrics() {
    let mut processor = SemanticTaskProcessor::new();
    let before = processor.get_metrics();
    let r = execute(&mut processor, 99);
    assert!(matches!(r, Err(TaskError::NotFound(99))));
    let after = processor.get_metrics();
    assert_eq!(before.quaternion_coherence, after.quaternion_coherence);
    assert_eq!(before.v_geometric, after.v_geometric);
    assert_eq!(before.topological_winding, after.topological_winding);
    assert!(matches!(processor.get_task_status(99), Err(TaskError::NotFound(99))));
}

#[test]
fn fresh_ids_differ() {
    let mut processor = SemanticTaskProcessor::new();
    let a = processor.submit_task(command(GeometricOperator::QuaternionRotation, empty_params(), None)).unwrap();
    let b = processor.submit_task(command(GeometricOperator::QuaternionRotation, empty_params(), None)).unwrap();
    assert_ne!(a, b);
}

#[test]
fn rotation_coherence_stays_bounded_for_malformed_axis() {
    let mut engine = EmergenceLogic::new(None);
    let params = ParamValue::Object(vec![
        entry("theta", ParamValue::Number(3_000_000_000)),
        entry("axis", ParamValue::List(vec![ParamValue::Text("x".to_string())])),
    ]);
    let (_, axis) = rotation_request(&params);
    assert_eq!(axis, (0, SCALE, 0));
    let full = RotationTerms { half_angle_sine: SCALE };
    let m = engine.apply_operator(GeometricOperator::QuaternionRotation, &params, &full);
    assert_eq!(m.quaternion_coherence, BASELINE_COHERENCE + 5_000_000);
    let wide = ParamValue::Object(vec![entry(
        "axis",
        ParamValue::List(vec![ParamValue::Number(i64::MAX), ParamValue::Number(i64::MIN), ParamValue::Number(i64::MAX)]),
    )]);
    for _ in 0..3 {
        let m = engine.apply_operator(GeometricOperator::QuaternionRotation, &wide, &full);
        assert!(m.quaternion_coherence >= 0 && m.quaternion_coherence <= MAX_COHERENCE);
    }
    assert_eq!(engine.metrics().quaternion_coherence, MAX_COHERENCE);
    assert_eq!(engine.metrics().v_geometric, MAX_COHERENCE);
}

#[test]
fn derivation_stability_stays_bounded() {
    let mut engine = EmergenceLogic::new(None);
    let terms = no_terms();
    let up = ParamValue::Object(vec![entry("delta", ParamValue::Number(i64::MAX))]);
    let m = engine.apply_operator(GeometricOperator::GeometricDerivation, &up, &terms);
    assert_eq!(m.s_geometric, SCALE);
    assert_eq!(m.zitterbewegung_entropy, SCALE);
    let down = ParamValue::Object(vec![entry("delta", ParamValue::Number(i64::MIN))]);
    let m = engine.apply_operator(GeometricOperator::GeometricDerivation, &down, &terms);
    assert_eq!(m.s_geometric, MIN_STABILITY);
    let small = ParamValue::Number(10_000_000);
    let m = engine.apply_operator(GeometricOperator::GeometricDerivation, &small, &terms);
    assert_eq!(m.s_geometric, MIN_STABILITY + 10_000);
}

#[test]
fn oscillation_sets_mass_and_winding() {
    let mut engine = EmergenceLogic::new(None);
    let terms = no_terms();
    let params = ParamValue::Object(vec![entry("frequency_scale", ParamValue::Number(2 * SCALE))]);
    let m = engine.apply_operator(GeometricOperator::Zitterbewegung, &params, &terms);
    assert_eq!(m.emergent_electron_mass, 2 * ELECTRON_MASS);
    assert_eq!(m.topological_winding, 8_999_700_000 + 100_000);
    assert_eq!(m.q_oscillator, m.topological_winding);
}

#[test]
fn synthesis_writes_anchor_strength() {
    let mut engine = EmergenceLogic::new(None);
    let terms = no_terms();
    let params = ParamValue::Object(vec![entry("anchor", ParamValue::Text("root".to_string()))]);
    let m = engine.apply_operator(GeometricOperator::SemanticSynthesis, &params, &terms);
    assert_eq!(m.custom_metrics.len(), 1);
    assert_eq!(m.custom_metrics[0].key, "anchor:root");
    assert_eq!(m.custom_metrics[0].value, 8_550_000_000);
    let m = engine.integrate_quaternion(Quaternion { w: 1, x: 2, y: 3, z: 4 });
    assert_eq!(m.custom_metrics.len(), 5);
    assert_eq!(m.custom_metrics[4].key, "q_z");
    assert_eq!(m.custom_metrics[4].value, 4);
}

#[test]
fn fine_structure_follows_coherence() {
    let mut engine = EmergenceLogic::new(None);
    let terms = no_terms();
    let m = engine.apply_operator(GeometricOperator::SemanticSynthesis, &empty_params(), &terms);
    assert_eq!(m.fine_structure_constant, 7_297_353 * SCALE / BASELINE_COHERENCE);
}

#[test]
fn apply_all_on_empty_registry_changes_nothing() {
    let engine = GeometricMetricEngine::new();
    assert!(engine.is_empty());
    let mut metrics = sample_metrics();
    engine.apply_all(&mut metrics);
    let reference = sample_metrics();
    assert_eq!(metrics.v_geometric, reference.v_geometric);
    assert_eq!(metrics.s_geometric, reference.s_geometric);
    assert_eq!(metrics.q_oscillator, reference.q_oscillator);
    assert_eq!(metrics.topological_winding, reference.topological_winding);
    assert!(metrics.custom_metrics.is_empty());
}

#[test]
fn reregistering_replaces_without_growing() {
    let mut engine = GeometricMetricEngine::new();
    engine.register_rule("r".to_string(), RuleDeltas { delta_v: Some(1), delta_s: None, delta_q: None });
    engine.register_rule("other".to_string(), RuleDeltas { delta_v: None, delta_s: None, delta_q: Some(5) });
    assert_eq!(engine.len(), 2);
    engine.register_rule("r".to_string(), RuleDeltas { delta_v: Some(10), delta_s: None, delta_q: None });
    assert_eq!(engine.len(), 2);
    assert_eq!(engine.rule_names(), vec!["r".to_string(), "other".to_string()]);
    let mut metrics = sample_metrics();
    assert!(engine.apply_rule("r", &mut metrics));
    assert_eq!(metrics.v_geometric, SCALE + 10);
    engine.apply_all(&mut metrics);
    assert_eq!(metrics.v_geometric, SCALE + 20);
    assert_eq!(metrics.q_oscillator, SCALE + 5);
}

#[test]
fn rule_errors_and_removal() {
    let mut engine = GeometricMetricEngine::new();
    let blank = RegisterRuleRequest { name: " \t".to_string(), delta_v: None, delta_s: None, delta_q: None };
    assert_eq!(register_rule(&mut engine, blank), Err(RuleError::EmptyName));
    let wide = RegisterRuleRequest { name: "\u{A0}\u{2003}\u{3000}".to_string(), delta_v: None, delta_s: None, delta_q: None };
    assert!(wide.name.trim().is_empty());
    assert_eq!(register_rule(&mut engine, wide), Err(RuleError::EmptyName));
    let named = RegisterRuleRequest { name: "\u{A0}x".to_string(), delta_v: None, delta_s: None, delta_q: None };
    assert!(register_rule(&mut engine, named).is_ok());
    assert!(engine.remove_rule("\u{A0}x"));
    assert!(engine.is_empty());
    assert_eq!(delete_rule(&mut engine, "missing"), Err(RuleError::NotFound));
    let req = RegisterRuleRequest { name: "s".to_string(), delta_v: None, delta_s: Some(2 * SCALE), delta_q: None };
    register_rule(&mut engine, req).unwrap();
    let mut metrics = sample_metrics();
    metrics.s_geometric = 0;
    assert!(!engine.apply_rule("nope", &mut metrics));
    assert!(engine.apply_rule("s", &mut metrics));
    assert_eq!(metrics.s_geometric, SCALE);
    let response = delete_rule(&mut engine, "s").unwrap();
    assert!(!response.registered);
    assert_eq!(response.rule_count, 0);
    assert!(!engine.remove_rule("s"));
}

#[test]
fn campaign_stops_at_convergence() {
    let mut processor = SemanticTaskProcessor::new();
    let start = processor.get_metrics();
    let target = start.v_geometric;
    let mut campaign = ResearchCampaign::start("hold".to_string(), "s_geometric".to_string(), Some(start.s_geometric), 5, start);
    let mut executed = 0;
    while !campaign.is_finished() {
        let cmd = campaign.next_command(None);
        assert_eq!(cmd.geometric_operator, GeometricOperator::GeometricDerivation);
        let inputs = inputs_for(&cmd.parameters);
        let id = processor.submit_task(cmd).unwrap();
        let result = processor.execute_task(id, inputs).unwrap();
        executed += 1;
        let p = campaign.record_step(fallback_task_for_target("s_geometric", 0), result.metrics);
        assert!(p >= CONVERGED);
    }
    assert_eq!(executed, 1);
    assert!(target > 0);
}

#[test]
fn campaign_never_exceeds_budget() {
    let mut processor = SemanticTaskProcessor::new();
    let mut campaign = ResearchCampaign::start("far".to_string(), "topological_winding".to_string(), Some(1_000 * SCALE), 3, processor.get_metrics());
    let mut executed = 0;
    while !campaign.is_finished() {
        let cmd = campaign.next_command(None);
        let inputs = inputs_for(&cmd.parameters);
        let id = processor.submit_task(cmd).unwrap();
        let result = processor.execute_task(id, inputs).unwrap();
        executed += 1;
        campaign.record_step(fallback_task_for_target("topological_winding", 1_000 * SCALE), result.metrics);
    }
    assert_eq!(executed, 3);
    assert_eq!(campaign.completed_steps(), 3);
    let start_progress = evaluate_research_progress(&SemanticTaskProcessor::new().get_metrics(), "topological_winding", 1_000 * SCALE);
    let report = campaign.finish();
    let mut best = start_progress;
    for (i, s) in report.history.iter().enumerate() {
        assert_eq!(s.step, i + 1);
        assert_eq!(s.improvement, (s.progress - best).max(0));
        best = best.max(s.progress);
    }
    assert_eq!(report.goal_progress, best);
    let zero_budget = ResearchCampaign::start("none".to_string(), "x".to_string(), None, 0, processor.get_metrics());
    assert!(zero_budget.is_finished());
    assert_eq!(zero_budget.target_value(), SCALE);
}

#[test]
fn planner_command_loses_its_id() {
    let campaign = ResearchCampaign::start("g".to_string(), "v_geometric".to_string(), None, 2, GeometricMetrics::baseline());
    let planned = command(GeometricOperator::SemanticSynthesis, empty_params(), Some(5));
    let cmd = campaign.next_command(Some(planned));
    assert!(cmd.task_id.is_none());
    assert_eq!(cmd.geometric_operator, GeometricOperator::SemanticSynthesis);
}

#[test]
fn fallback_is_the_same_each_time() {
    for target in ["topological_winding", "q_oscillator", "quaternion_coherence", "v_geometric", "emergent_electron_mass", "fine_structure_constant", "other"] {
        let a = fallback_task_for_target(target, 9 * SCALE);
        let b = fallback_task_for_target(target, 9 * SCALE);
        assert_eq!(a.task_name, b.task_name);
        assert_eq!(a.geometric_operator, b.geometric_operator);
        assert_eq!(a.target_module, b.target_module);
        assert_eq!(format!("{:?}", a.parameters), format!("{:?}", b.parameters));
        assert_eq!(a.expected_output_metric, target);
    }
    let c = fallback_task_for_target("quaternion_coherence", 0);
    assert_eq!(c.parameters.number_at("theta"), Some(250_000_000));
    assert_eq!(rotation_request(&c.parameters).1, (0, SCALE, 0));
    let d = fallback_task_for_target("anything", 0);
    assert_eq!(d.geometric_operator, GeometricOperator::GeometricDerivation);
    assert_eq!(d.parameters.number_at("delta"), Some(10_000_000));
    let n = fallback_task_for_target("topological_winding", -18 * SCALE);
    assert_eq!(n.parameters.number_at("frequency_scale"), Some(-2 * SCALE));
}

#[test]
fn progress_is_within_unit_range() {
    assert_eq!(progress(0, 0), SCALE);
    assert_eq!(progress(0, 1), 999_000_000);
    assert_eq!(progress(0, 1_000), 0);
    assert_eq!(progress(i64::MIN, i64::MAX), 0);
    assert_eq!(progress(i64::MAX, i64::MAX), SCALE);
    assert_eq!(progress(9 * SCALE, 8_999_700_000), SCALE - 33_333);
    assert_eq!(progress(-SCALE, -SCALE / 2), SCALE / 2);
    let m = GeometricMetrics::baseline();
    assert_eq!(evaluate_research_progress(&m, "quaternion_coherence", BASELINE_COHERENCE), SCALE);
    assert_eq!(evaluate_research_progress(&m, "unknown", 2 * BASELINE_COHERENCE), SCALE / 2);
}

#[test]
fn default_targets_and_budget() {
    assert_eq!(default_max_steps(), 5);
    assert_eq!(infer_default_target("topological_winding"), 9 * SCALE);
    assert_eq!(infer_default_target("quaternion_coherence"), MAX_COHERENCE);
    assert_eq!(infer_default_target("emergent_electron_mass"), ELECTRON_MASS);
    assert_eq!(infer_default_target("fine_structure_constant"), 7_297_353);
    assert_eq!(infer_default_target("v_geometric"), SCALE);
}

#[test]
fn integer_square_roots() {
    assert_eq!(integer_sqrt(0), 0);
    assert_eq!(integer_sqrt(15), 3);
    assert_eq!(integer_sqrt(16), 4);
    assert_eq!(integer_sqrt(u128::MAX), u64::MAX);
    assert_eq!(squared_norm((3, -4, 12)), 169);
    assert_eq!(integer_sqrt(squared_norm((3 * SCALE, 4 * SCALE, 0))), 5 * SCALE as u64);
}

#[test]
fn scalar_and_axis_extraction() {
    assert_eq!(extract_scalar(&ParamValue::Number(3)), Some(3));
    let obj = ParamValue::Object(vec![entry("amount", ParamValue::Number(4)), entry("value", ParamValue::Number(5))]);
    assert_eq!(extract_scalar(&obj), Some(5));
    let obj = ParamValue::Object(vec![entry("scale", ParamValue::Number(6)), entry("magnitude", ParamValue::Text("x".to_string()))]);
    assert_eq!(extract_scalar(&obj), Some(6));
    assert_eq!(extract_scalar(&ParamValue::Bool(true)), None);
    assert_eq!(extract_scalar(&empty_params()), None);
    let items = vec![ParamValue::Number(1), ParamValue::Number(2), ParamValue::Number(3), ParamValue::Null];
    assert_eq!(normalize_axis(&items), Some((1, 2, 3)));
    assert_eq!(normalize_axis(&items[..2].iter().map(|_| ParamValue::Number(0)).collect()), None);
    let bad = vec![ParamValue::Number(1), ParamValue::Null, ParamValue::Number(3)];
    assert_eq!(normalize_axis(&bad), None);
}

#[test]
fn delegate_outcomes() {
    let mut processor = SemanticTaskProcessor::new();
    let id = processor.submit_task(command(GeometricOperator::CustomPythonScript, empty_params(), Some(1))).unwrap();
    let failed = processor.execute_task(id, ExecutionInputs {
        rotation: no_terms(),
        delegate: Some(DelegateOutcome::Failed("boom".to_string())),
    });
    assert_eq!(failed.unwrap_err(), TaskError::Capability("boom".to_string()));
    match processor.get_task_status(id).unwrap() {
        TaskStatus::Failed(reason) => assert_eq!(reason, "boom"),
        other => panic!("unexpected status {:?}", other),
    }
    let entries = vec![
        CustomMetric { key: "a".to_string(), value: 1 },
        CustomMetric { key: "a".to_string(), value: 2 },
        CustomMetric { key: "b".to_string(), value: 3 },
    ];
    let done = processor.execute_task(id, ExecutionInputs {
        rotation: no_terms(),
        delegate: Some(DelegateOutcome::Metrics(entries)),
    }).unwrap();
    assert_eq!(done.metrics.custom_metrics.len(), 2);
    assert_eq!(done.metrics.custom_metrics[0].value, 2);
    let fid = processor.submit_task(command(GeometricOperator::GenerateHopfionField, empty_params(), Some(2))).unwrap();
    let missing = processor.execute_task(fid, ExecutionInputs { rotation: no_terms(), delegate: None });
    assert_eq!(missing.unwrap_err(), TaskError::Capability("capability unavailable".to_string()));
    assert!(processor.get_hopfion_field().is_none());
    let field = HopfionSolitonField { q_x: vec![[SCALE, 0, 0, 0]], n_h: 1 };
    processor.execute_task(fid, ExecutionInputs { rotation: no_terms(), delegate: Some(DelegateOutcome::Field(field)) }).unwrap();
    let stored = processor.get_hopfion_field().unwrap();
    assert_eq!(stored.n_h, 1);
    assert_eq!(stored.q_x, vec![[SCALE, 0, 0, 0]]);
    let listed = processor.list_tasks();
    assert_eq!(listed.len(), 2);
    assert!(matches!(listed[1].1, TaskStatus::Completed(_)));
}

#[test]
fn re_execution_recomputes_from_current_state() {
    let mut processor = SemanticTaskProcessor::new();
    let params = ParamValue::Object(vec![entry("theta", ParamValue::Number(200_000_000))]);
    let id = processor.submit_task(command(GeometricOperator::QuaternionRotation, params, None)).unwrap();
    let terms = RotationTerms { half_angle_sine: 99_833_417 };
    let first = processor.execute_task(id, ExecutionInputs { rotation: terms, delegate: None }).unwrap();
    let second = processor.execute_task(id, ExecutionInputs { rotation: terms, delegate: None }).unwrap();
    assert_eq!(first.metrics.quaternion_coherence, 900_499_167);
    assert_eq!(second.metrics.quaternion_coherence, 900_998_334);
    match processor.get_task_status(id).unwrap() {
        TaskStatus::Completed(m) => assert_eq!(m.quaternion_coherence, 900_998_334),
        other => panic!("unexpected status {:?}", other),
    }
}

#[test]
fn rules_mutate_the_shared_snapshot() {
    let mut processor = SemanticTaskProcessor::new();
    let mut engine = GeometricMetricEngine::new();
    engine.register_rule("q".to_string(), RuleDeltas { delta_v: None, delta_s: None, delta_q: Some(SCALE) });
    assert!(!processor.apply_rule(&engine, "none"));
    assert!(processor.apply_rule(&engine, "q"));
    assert_eq!(processor.get_metrics().q_oscillator, 8_999_700_000 + SCALE);
    processor.apply_rules(&engine);
    let m = processor.get_metrics();
    assert_eq!(m.q_oscillator, 8_999_700_000 + 2 * SCALE);
    assert_eq!(m.custom_metrics.len(), 1);
    assert_eq!(m.custom_metrics[0].key, "rule:q");
}
