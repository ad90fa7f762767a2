use vstd::prelude::*;
use vstd::string::*;
use crate::emergence::{abs, max, tdiv, MAX_COHERENCE};
use crate::metrics::{clamp, GeometricMetrics, MetricsModel, ELECTRON_MASS, EPSILON, FINE_STRUCTURE, SCALE};
use crate::params::{same_text, ParamEntry, ParamValue};
use crate::types::{GeometricOperator, GeometricTaskCommand};

verus! {

/// Progress at or above this (0.999) ends a campaign.
pub const CONVERGED: i64 = 999_000_000;

/// Target value of the winding number when none is given (9.0).
pub const WINDING_TARGET: i64 = 9_000_000_000;

/// Steps a campaign takes when the caller names no budget.
pub fn default_max_steps() -> (r: usize)
    ensures
        r == 5,
{
    5
}

/// The target value that a campaign on metric `t` aims for by default.
pub open spec fn default_target(t: Seq<char>) -> int {
    if t == "topological_winding"@ {
        WINDING_TARGET as int
    } else if t == "quaternion_coherence"@ {
        MAX_COHERENCE as int
    } else if t == "emergent_electron_mass"@ {
        ELECTRON_MASS as int
    } else if t == "fine_structure_constant"@ {
        FINE_STRUCTURE as int
    } else {
        SCALE as int
    }
}

/// The electron mass a mass campaign aims for.
pub fn compute_target_mass() -> (r: i64)
    ensures
        r == ELECTRON_MASS,
{
    ELECTRON_MASS
}

/// The default target value for the metric `target`.
pub fn infer_default_target(target: &str) -> (r: i64)
    ensures
        r == default_target(target@),
{
    if same_text(target, "topological_winding") {
        WINDING_TARGET
    } else if same_text(target, "quaternion_coherence") {
        MAX_COHERENCE
    } else if same_text(target, "emergent_electron_mass") {
        compute_target_mass()
    } else if same_text(target, "fine_structure_constant") {
        FINE_STRUCTURE
    } else {
        SCALE
    }
}

/// The metric of `m` that a campaign on `t` reads; volume for an unknown name.
pub open spec fn metric_named(m: MetricsModel, t: Seq<char>) -> int {
    if t == "topological_winding"@ {
        m.winding
    } else if t == "quaternion_coherence"@ {
        m.coherence
    } else if t == "emergent_electron_mass"@ {
        m.mass
    } else if t == "fine_structure_constant"@ {
        m.fine_structure
    } else if t == "q_oscillator"@ {
        m.oscillator
    } else if t == "s_geometric"@ {
        m.stability
    } else {
        m.volume
    }
}

/// `clamp(1 - |target - current| / max(|target|, 1e-6), 0, 1)`.
pub open spec fn progress_score(target: int, current: int) -> int {
    clamp(SCALE - abs(target - current) * SCALE / max(abs(target), EPSILON as int), 0, SCALE as int)
}

/// The progress score lies in `[0, 1]` for every target and current value,
/// a zero target included.
pub proof fn progress_in_unit_range(target: int, current: int)
    ensures
        0 <= progress_score(target, current) <= SCALE,
{
}

/// The metric `target` read from `metrics`.
pub fn target_metric(metrics: &GeometricMetrics, target: &str) -> (r: i64)
    ensures
        r == metric_named(metrics@, target@),
{
    if same_text(target, "topological_winding") {
        metrics.topological_winding
    } else if same_text(target, "quaternion_coherence") {
        metrics.quaternion_coherence
    } else if same_text(target, "emergent_electron_mass") {
        metrics.emergent_electron_mass
    } else if same_text(target, "fine_structure_constant") {
        metrics.fine_structure_constant
    } else if same_text(target, "q_oscillator") {
        metrics.q_oscillator
    } else if same_text(target, "s_geometric") {
        metrics.s_geometric
    } else {
        metrics.v_geometric
    }
}

/// Normalised closeness of `current` to `target_value`, in `[0, SCALE]`.
pub fn progress(target_value: i64, current: i64) -> (r: i64)
    ensures
        r == progress_score(target_value as int, current as int),
        0 <= r <= SCALE,
{
    let t = target_value as i128;
    let c = current as i128;
    let d = t - c;
    let distance: u128 = if d < 0 { (-d) as u128 } else { d as u128 };
    let magnitude: u128 = if t < 0 { (-t) as u128 } else { t as u128 };
    let denominator: u128 = if magnitude < EPSILON as u128 { EPSILON as u128 } else { magnitude };
    assert(distance * (SCALE as u128) <= 0x2_0000_0000_0000_0000 * 1_000_000_000) by (nonlinear_arith)
        requires distance <= 0x2_0000_0000_0000_0000;
    let ratio: u128 = distance * (SCALE as u128) / denominator;
    if ratio >= SCALE as u128 {
        0
    } else {
        SCALE - ratio as i64
    }
}

/// Progress of `metrics` toward `target_value` on the metric `target`.
pub fn evaluate_research_progress(metrics: &GeometricMetrics, optimization_target: &str, target_value: i64) -> (r: i64)
    ensures
        r == progress_score(target_value as int, metric_named(metrics@, optimization_target@)),
{
    progress(target_value, target_metric(metrics, optimization_target))
}

/// The families of fallback commands.
pub enum FallbackKind {
    Oscillation,
    Rotation,
    Mass,
    Alpha,
    Derivation,
}

pub open spec fn fallback_kind(t: Seq<char>) -> FallbackKind {
    if t == "topological_winding"@ || t == "q_oscillator"@ {
        FallbackKind::Oscillation
    } else if t == "quaternion_coherence"@ || t == "v_geometric"@ {
        FallbackKind::Rotation
    } else if t == "emergent_electron_mass"@ {
        FallbackKind::Mass
    } else if t == "fine_structure_constant"@ {
        FallbackKind::Alpha
    } else {
        FallbackKind::Derivation
    }
}

/// `p` is the object `{k: v}`.
pub open spec fn single_number(p: ParamValue, k: Seq<char>, v: int) -> bool {
    p matches ParamValue::Object(es) && es@.len() == 1 && es@[0].key@ == k
        && (es@[0].value matches ParamValue::Number(n) && n == v)
}

/// `p` is the object `{"theta": 0.25, "axis": [0, 1, 0]}`.
pub open spec fn coherence_params(p: ParamValue) -> bool {
    p matches ParamValue::Object(es) && es@.len() == 2
        && es@[0].key@ == "theta"@ && es@[0].value == ParamValue::Number(250_000_000)
        && es@[1].key@ == "axis"@
        && (es@[1].value matches ParamValue::List(l) && l@.len() == 3
            && l@[0] == ParamValue::Number(0) && l@[1] == ParamValue::Number(SCALE)
            && l@[2] == ParamValue::Number(0))
}

/// `c` is the fallback command for target `t` and target value `tv`.
pub open spec fn is_fallback(t: Seq<char>, tv: int, c: GeometricTaskCommand) -> bool {
    &&& c.task_id is None
    &&& c.expected_output_metric@ == t
    &&& match fallback_kind(t) {
        FallbackKind::Oscillation => c.geometric_operator == GeometricOperator::Zitterbewegung
            && c.task_name@ == "Fallback Zitterbewegung tuning"@ && c.target_module@ == "sys6_resonator"@
            && single_number(c.parameters, "frequency_scale"@, tdiv(tv, 9)),
        FallbackKind::Rotation => c.geometric_operator == GeometricOperator::QuaternionRotation
            && c.task_name@ == "Fallback Quaternion coherence"@ && c.target_module@ == "sys7_core"@
            && coherence_params(c.parameters),
        FallbackKind::Mass => c.geometric_operator == GeometricOperator::Zitterbewegung
            && c.task_name@ == "Fallback mass adjustment"@ && c.target_module@ == "sys6_resonator"@
            && single_number(c.parameters, "frequency_scale"@, SCALE as int),
        FallbackKind::Alpha => c.geometric_operator == GeometricOperator::QuaternionRotation
            && c.task_name@ == "Fallback alpha tuning"@ && c.target_module@ == "sys7_alpha"@
            && single_number(c.parameters, "theta"@, 100_000_000),
        FallbackKind::Derivation => c.geometric_operator == GeometricOperator::GeometricDerivation
            && c.task_name@ == "Fallback geometric derivation"@ && c.target_module@ == "sys5_topology"@
            && single_number(c.parameters, "delta"@, 10_000_000),
    }
}

/// Two fallback commands for one target name and value agree in operator,
/// name, module, expected metric, id and parameters.
pub proof fn fallback_is_deterministic(t: Seq<char>, tv: int, a: GeometricTaskCommand, b: GeometricTaskCommand)
    requires
        is_fallback(t, tv, a),
        is_fallback(t, tv, b),
    ensures
        a.geometric_operator == b.geometric_operator,
        a.task_name@ == b.task_name@,
        a.target_module@ == b.target_module@,
        a.expected_output_metric@ == b.expected_output_metric@,
        a.task_id == b.task_id,
        a.parameters matches ParamValue::Object(x) && b.parameters matches ParamValue::Object(y)
            && x@.len() == y@.len()
            && forall|i: int| 0 <= i < x@.len() ==> x@[i].key@ == y@[i].key@
                && (x@[i].value is Number ==> x@[i].value == y@[i].value)
                && (x@[i].value matches ParamValue::List(l) ==>
                    (y@[i].value matches ParamValue::List(m) && l@ == m@)),
{
    match (a.parameters, b.parameters) {
        (ParamValue::Object(x), ParamValue::Object(y)) => {
            assert forall|i: int| 0 <= i < x@.len() implies x@[i].key@ == y@[i].key@
                && (x@[i].value is Number ==> x@[i].value == y@[i].value)
                && (x@[i].value matches ParamValue::List(l) ==>
                    (y@[i].value matches ParamValue::List(m) && l@ == m@)) by {
                if fallback_kind(t) is Rotation {
                    if i == 1 {
                        let l = x@[1].value->List_0;
                        let m = y@[1].value->List_0;
                        assert(l@ =~= m@);
                    }
                }
            }
        },
        _ => {},
    }
}

fn number_entry(key: &str, n: i64) -> (r: ParamEntry)
    ensures
        r.key@ == key@,
        r.value == ParamValue::Number(n),
{
    ParamEntry { key: String::from_str(key), value: ParamValue::Number(n) }
}

fn single_number_object(key: &str, n: i64) -> (r: ParamValue)
    ensures
        single_number(r, key@, n as int),
{
    ParamValue::Object(vec![number_entry(key, n)])
}

/// The deterministic command a campaign on `target` falls back to when the
/// planner gives none.
pub fn fallback_task_for_target(target: &str, target_value: i64) -> (r: GeometricTaskCommand)
    ensures
        is_fallback(target@, target_value as int, r),
{
    let metric = String::from_str(target);
    if same_text(target, "topological_winding") || same_text(target, "q_oscillator") {
        let f: i64 = if target_value >= 0 { target_value / 9 } else { -((-(target_value as i128)) / 9) as i64 };
        GeometricTaskCommand {
            task_name: String::from_str("Fallback Zitterbewegung tuning"),
            geometric_operator: GeometricOperator::Zitterbewegung,
            target_module: String::from_str("sys6_resonator"),
            parameters: single_number_object("frequency_scale", f),
            expected_output_metric: metric,
            task_id: None,
        }
    } else if same_text(target, "quaternion_coherence") || same_text(target, "v_geometric") {
        let axis = ParamValue::List(vec![ParamValue::Number(0), ParamValue::Number(SCALE), ParamValue::Number(0)]);
        let parameters = ParamValue::Object(vec![
            number_entry("theta", 250_000_000),
            ParamEntry { key: String::from_str("axis"), value: axis },
        ]);
        GeometricTaskCommand {
            task_name: String::from_str("Fallback Quaternion coherence"),
            geometric_operator: GeometricOperator::QuaternionRotation,
            target_module: String::from_str("sys7_core"),
            parameters,
            expected_output_metric: metric,
            task_id: None,
        }
    } else if same_text(target, "emergent_electron_mass") {
        GeometricTaskCommand {
            task_name: String::from_str("Fallback mass adjustment"),
            geometric_operator: GeometricOperator::Zitterbewegung,
            target_module: String::from_str("sys6_resonator"),
            parameters: single_number_object("frequency_scale", SCALE),
            expected_output_metric: metric,
            task_id: None,
        }
    } else if same_text(target, "fine_structure_constant") {
        GeometricTaskCommand {
            task_name: String::from_str("Fallback alpha tuning"),
            geometric_operator: GeometricOperator::QuaternionRotation,
            target_module: String::from_str("sys7_alpha"),
            parameters: single_number_object("theta", 100_000_000),
            expected_output_metric: metric,
            task_id: None,
        }
    } else {
        GeometricTaskCommand {
            task_name: String::from_str("Fallback geometric derivation"),
            geometric_operator: GeometricOperator::GeometricDerivation,
            target_module: String::from_str("sys5_topology"),
            parameters: single_number_object("delta", 10_000_000),
            expected_output_metric: metric,
            task_id: None,
        }
    }
}

/// One executed campaign step.
#[derive(Debug)]
pub struct ResearchStepSummary {
    pub step: usize,
    pub task: GeometricTaskCommand,
    pub result_metrics: GeometricMetrics,
    pub improvement: i64,
    pub progress: i64,
}

/// What a finished campaign reports.
#[derive(Debug)]
pub struct ResearchCampaignResponse {
    pub goal: String,
    pub optimization_target: String,
    pub target_value: i64,
    pub completed_steps: usize,
    pub goal_progress: i64,
    pub history: Vec<ResearchStepSummary>,
    pub final_metrics: GeometricMetrics,
}

/// The decisions of a goal-seeking campaign. The caller runs the loop: while
/// the campaign is not finished it asks the planner, takes `next_command`,
/// submits and executes it, and hands the resulting snapshot to
/// `record_step`.
pub struct ResearchCampaign {
    goal: String,
    optimization_target: String,
    target_value: i64,
    max_steps: usize,
    initial_progress: i64,
    best_progress: i64,
    history: Vec<ResearchStepSummary>,
    current_metrics: GeometricMetrics,
    finished: bool,
}

/// The best of `b0` and every progress in `p`.
pub open spec fn running_best(b0: int, p: Seq<int>) -> int
    decreases p.len(),
{
    if p.len() == 0 {
        b0
    } else {
        max(running_best(b0, p.drop_last()), p.last())
    }
}

/// The progress of each record, in order.
pub open spec fn progress_of(h: Seq<ResearchStepSummary>) -> Seq<int> {
    Seq::new(h.len(), |i: int| h[i].progress as int)
}

/// Record `i` (from 0) is numbered `i + 1`, scores its own snapshot against
/// target value `tv` on metric `t`, and improves on the best before it,
/// starting from `b0`, by `max(progress - best, 0)`.
pub open spec fn history_ok(h: Seq<ResearchStepSummary>, b0: int, tv: int, t: Seq<char>) -> bool {
    forall|i: int| 0 <= i < h.len() ==> (#[trigger] h[i]).step == i + 1
        && h[i].progress == progress_score(tv, metric_named(h[i].result_metrics@, t))
        && h[i].improvement == max(h[i].progress - running_best(b0, progress_of(h).subrange(0, i)), 0)
}

proof fn history_extends(h: Seq<ResearchStepSummary>, rec: ResearchStepSummary, b0: int, tv: int, t: Seq<char>)
    requires
        history_ok(h, b0, tv, t),
        rec.step == h.len() + 1,
        rec.progress == progress_score(tv, metric_named(rec.result_metrics@, t)),
        rec.improvement == max(rec.progress - running_best(b0, progress_of(h)), 0),
    ensures
        history_ok(h.push(rec), b0, tv, t),
        progress_of(h.push(rec)) == progress_of(h).push(rec.progress as int),
        running_best(b0, progress_of(h.push(rec))) == max(running_best(b0, progress_of(h)), rec.progress as int),
{
    let h2 = h.push(rec);
    let p = progress_of(h);
    let p2 = progress_of(h2);
    assert(p2 =~= p.push(rec.progress as int));
    assert(p2.drop_last() =~= p);
    assert forall|i: int| 0 <= i < h2.len() implies (#[trigger] h2[i]).step == i + 1
        && h2[i].progress == progress_score(tv, metric_named(h2[i].result_metrics@, t))
        && h2[i].improvement == max(h2[i].progress - running_best(b0, p2.subrange(0, i)), 0) by {
        if i < h.len() {
            assert(h2[i] == h[i]);
            assert(p2.subrange(0, i) =~= p.subrange(0, i));
        } else {
            assert(p2.subrange(0, i) =~= p);
        }
    }
}

impl ResearchCampaign {
    /// The goal text.
    pub closed spec fn goal_text(&self) -> Seq<char> {
        self.goal@
    }

    /// The metric the campaign drives.
    pub closed spec fn target(&self) -> Seq<char> {
        self.optimization_target@
    }

    pub closed spec fn target_value_spec(&self) -> int {
        self.target_value as int
    }

    pub closed spec fn budget(&self) -> nat {
        self.max_steps as nat
    }

    /// The steps taken, in order.
    pub closed spec fn records(&self) -> Seq<ResearchStepSummary> {
        self.history@
    }

    /// The progress of the snapshot the campaign started from.
    pub closed spec fn initial(&self) -> int {
        self.initial_progress as int
    }

    /// The progress of each step taken, in order.
    pub open spec fn progresses(&self) -> Seq<int> {
        progress_of(self.records())
    }

    pub closed spec fn best(&self) -> int {
        self.best_progress as int
    }

    pub closed spec fn latest(&self) -> MetricsModel {
        self.current_metrics@
    }

    pub closed spec fn done(&self) -> bool {
        self.finished
    }

    /// No more steps than the budget; only the last step may reach
    /// convergence; finished exactly when the budget is spent or the last
    /// step converged. Step `i` (from 0) is numbered `i + 1`, scores its
    /// own snapshot, and improves on the best before it by
    /// `max(progress - best, 0)`; the best is the running maximum, and the
    /// latest snapshot is the last step's.
    pub open spec fn wf(&self) -> bool {
        let p = self.progresses();
        let h = self.records();
        &&& p.len() <= self.budget()
        &&& 0 <= self.best() <= SCALE
        &&& self.best() == running_best(self.initial(), p)
        &&& forall|i: int| 0 <= i < p.len() - 1 ==> p[i] < CONVERGED
        &&& self.done() <==> (p.len() == self.budget() || (p.len() > 0 && p.last() >= CONVERGED))
        &&& history_ok(h, self.initial(), self.target_value_spec(), self.target())
        &&& h.len() > 0 ==> self.latest() == h.last().result_metrics@
    }

    /// A campaign that has taken no step, with the target value given or
    /// the metric's default.
    pub fn start(
        goal: String,
        optimization_target: String,
        target_value: Option<i64>,
        max_steps: usize,
        metrics: GeometricMetrics,
    ) -> (r: Self)
        ensures
            r.wf(),
            r.goal_text() == goal@,
            r.target() == optimization_target@,
            r.target_value_spec() == match target_value {
                Some(v) => v as int,
                None => default_target(optimization_target@),
            },
            r.budget() == max_steps,
            r.records().len() == 0,
            r.initial() == progress_score(r.target_value_spec(), metric_named(metrics@, optimization_target@)),
            r.best() == r.initial(),
            r.latest() == metrics@,
            r.done() == (max_steps == 0),
    {
        let target_value = match target_value {
            Some(v) => v,
            None => infer_default_target(optimization_target.as_str()),
        };
        let initial_progress = evaluate_research_progress(&metrics, optimization_target.as_str(), target_value);
        let r = ResearchCampaign {
            goal,
            optimization_target,
            target_value,
            max_steps,
            initial_progress,
            best_progress: initial_progress,
            history: Vec::new(),
            current_metrics: metrics,
            finished: max_steps == 0,
        };
        assert(r.progresses() =~= Seq::<int>::empty());
        r
    }

    /// Whether the campaign takes no more steps.
    pub fn is_finished(&self) -> (r: bool)
        ensures
            r == self.done(),
    {
        self.finished
    }

    /// The target value in use.
    pub fn target_value(&self) -> (r: i64)
        ensures
            r == self.target_value_spec(),
    {
        self.target_value
    }

    /// The best progress so far.
    pub fn best_progress(&self) -> (r: i64)
        ensures
            r == self.best(),
    {
        self.best_progress
    }

    /// Number of steps taken.
    pub fn completed_steps(&self) -> (r: usize)
        ensures
            r == self.progresses().len(),
    {
        self.history.len()
    }

    /// The command for the next step: the planner's, or the fallback for
    /// the target when the planner gave none; its id is always cleared.
    pub fn next_command(&self, planned: Option<GeometricTaskCommand>) -> (r: GeometricTaskCommand)
        ensures
            r.task_id is None,
            match planned {
                Some(p) => r.task_name == p.task_name && r.geometric_operator == p.geometric_operator
                    && r.target_module == p.target_module && r.parameters == p.parameters
                    && r.expected_output_metric == p.expected_output_metric,
                None => is_fallback(self.target(), self.target_value_spec(), r),
            },
    {
        match planned {
            Some(p) => GeometricTaskCommand { task_id: None, ..p },
            None => fallback_task_for_target(self.optimization_target.as_str(), self.target_value),
        }
    }

    /// Records a step that executed `task` and produced `metrics`, and
    /// returns its progress.
    pub fn record_step(&mut self, task: GeometricTaskCommand, metrics: GeometricMetrics) -> (r: i64)
        requires
            old(self).wf(),
            !old(self).done(),
        ensures
            final(self).wf(),
            r == progress_score(old(self).target_value_spec(), metric_named(metrics@, old(self).target())),
            final(self).records().len() == old(self).records().len() + 1,
            final(self).records().subrange(0, old(self).records().len() as int) == old(self).records(),
            final(self).records().last().step == old(self).records().len() + 1,
            final(self).records().last().task == task,
            final(self).records().last().result_metrics@ == metrics@,
            final(self).records().last().progress == r,
            final(self).records().last().improvement == max(r - old(self).best(), 0),
            final(self).progresses() == old(self).progresses().push(r as int),
            final(self).best() == max(old(self).best(), r as int),
            final(self).latest() == metrics@,
            final(self).goal_text() == old(self).goal_text(),
            final(self).target() == old(self).target(),
            final(self).target_value_spec() == old(self).target_value_spec(),
            final(self).budget() == old(self).budget(),
            final(self).initial() == old(self).initial(),
            final(self).done() == (final(self).records().len() == final(self).budget() || r >= CONVERGED),
    {
        let p = evaluate_research_progress(&metrics, self.optimization_target.as_str(), self.target_value);
        let improvement = if p > self.best_progress { p - self.best_progress } else { 0 };
        if p > self.best_progress {
            self.best_progress = p;
        }
        let result_metrics = metrics.snapshot();
        let ghost old_h = self.records();
        let step = self.history.len() + 1;
        let rec = ResearchStepSummary { step, task, result_metrics, improvement, progress: p };
        proof {
            history_extends(old_h, rec, self.initial(), self.target_value_spec(), self.target());
        }
        self.history.push(rec);
        self.current_metrics = metrics;
        self.finished = self.history.len() == self.max_steps || p >= CONVERGED;
        proof {
            let h = self.records();
            assert(h =~= old_h.push(h.last()));
            assert(h.subrange(0, old_h.len() as int) =~= old_h);
        }
        p
    }

    /// The report of a finished campaign.
    pub fn finish(self) -> (r: ResearchCampaignResponse)
        requires
            self.wf(),
            self.done(),
        ensures
            r.goal@ == self.goal_text(),
            r.optimization_target@ == self.target(),
            r.target_value == self.target_value_spec(),
            r.completed_steps == self.records().len(),
            r.goal_progress == self.best(),
            r.history@ == self.records(),
            r.final_metrics@ == self.latest(),
            r.completed_steps <= self.budget(),
            forall|i: int| 0 <= i < r.history@.len() - 1 ==> r.history@[i].progress < CONVERGED,
            r.completed_steps == self.budget() || (r.completed_steps > 0 && r.history@.last().progress >= CONVERGED),
    {
        let completed_steps = self.history.len();
        proof {
            assert forall|i: int| 0 <= i < self.records().len() - 1 implies self.records()[i].progress < CONVERGED by {
                assert(self.progresses()[i] == self.records()[i].progress);
            }
            if completed_steps > 0 && completed_steps != self.max_steps {
                assert(self.progresses().last() == self.records().last().progress);
            }
        }
        ResearchCampaignResponse {
            goal: self.goal,
            optimization_target: self.optimization_target,
            target_value: self.target_value,
            completed_steps,
            goal_progress: self.best_progress,
            history: self.history,
            final_metrics: self.current_metrics,
        }
    }
}

/// A campaign never takes more steps than its budget, and every step but
/// the last stayed below convergence, so it stops at the first converged
/// step; once finished, it spent its budget or its last step converged.
pub proof fn campaign_respects_budget(c: &ResearchCampaign)
    requires
        c.wf(),
    ensures
        c.progresses().len() <= c.budget(),
        forall|i: int| 0 <= i < c.progresses().len() - 1 ==> c.progresses()[i] < CONVERGED,
        c.progresses().len() > 0 && c.progresses().last() >= CONVERGED ==> c.done(),
        c.done() ==> c.progresses().len() == c.budget()
            || (c.progresses().len() > 0 && c.progresses().last() >= CONVERGED),
{
}

} // verus!
