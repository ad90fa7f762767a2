use vstd::prelude::*;
use vstd::string::*;
use crate::emergence::{operate, EmergenceLogic, RotationTerms};
use crate::metrics::{custom_from, custom_view, CustomMetric, GeometricMetrics, MetricsModel};
use crate::params::{ParamEntry, ParamValue};
use crate::rules::{has_rule, rule_effect, rule_index, GeometricMetricEngine};
use crate::types::{GeometricOperator, GeometricTaskCommand};

verus! {

/// Lifecycle of a task: `Pending`, then `InProgress`, then `Completed` with
/// the snapshot it produced or `Failed` with a reason.
#[derive(Debug)]
pub enum TaskStatus {
    Pending,
    InProgress,
    Completed(GeometricMetrics),
    Failed(String),
}

/// Model of a task status.
pub enum StatusModel {
    Pending,
    InProgress,
    Completed(MetricsModel),
    Failed(Seq<char>),
}

impl View for TaskStatus {
    type V = StatusModel;

    open spec fn view(&self) -> StatusModel {
        match self {
            TaskStatus::Pending => StatusModel::Pending,
            TaskStatus::InProgress => StatusModel::InProgress,
            TaskStatus::Completed(m) => StatusModel::Completed(m@),
            TaskStatus::Failed(s) => StatusModel::Failed(s@),
        }
    }
}

impl TaskStatus {
    /// A copy of this status.
    pub fn copy(&self) -> (r: TaskStatus)
        ensures
            r@ == self@,
    {
        match self {
            TaskStatus::Pending => TaskStatus::Pending,
            TaskStatus::InProgress => TaskStatus::InProgress,
            TaskStatus::Completed(m) => TaskStatus::Completed(m.snapshot()),
            TaskStatus::Failed(s) => TaskStatus::Failed(s.clone()),
        }
    }
}

/// Errors of the task store.
#[derive(Debug, PartialEq, Eq)]
pub enum TaskError {
    /// A task with this id is already stored.
    DuplicateId(u128),
    /// No task has this id.
    NotFound(u128),
    /// An outside capability failed or gave no usable result.
    Capability(String),
}

/// The field artifact a field generator produces: quaternion samples, in
/// units of `1 / SCALE`, and the Hopf charge.
#[derive(Debug)]
pub struct HopfionSolitonField {
    pub q_x: Vec<[i64; 4]>,
    pub n_h: u64,
}

impl HopfionSolitonField {
    /// A copy of this field.
    pub fn copy(&self) -> (r: HopfionSolitonField)
        ensures
            r.q_x@ == self.q_x@,
            r.n_h == self.n_h,
    {
        let mut q: Vec<[i64; 4]> = Vec::new();
        let mut i: usize = 0;
        while i < self.q_x.len()
            invariant
                0 <= i <= self.q_x.len(),
                q@ == self.q_x@.subrange(0, i as int),
            decreases self.q_x.len() - i,
        {
            q.push(self.q_x[i]);
            assert(q@ =~= self.q_x@.subrange(0, i as int + 1));
            i = i + 1;
        }
        assert(q@ =~= self.q_x@);
        HopfionSolitonField { q_x: q, n_h: self.n_h }
    }
}

/// What the outside capability of a delegated operator returned.
#[derive(Debug)]
pub enum DelegateOutcome {
    /// Extension metrics, which replace the snapshot's extension map.
    Metrics(Vec<CustomMetric>),
    /// A field artifact, stored beside the snapshot.
    Field(HopfionSolitonField),
    /// The capability failed, for this reason.
    Failed(String),
}

/// The values an execution needs from outside the engine.
#[derive(Debug)]
pub struct ExecutionInputs {
    /// Used by a rotation: the sine term for the angle that
    /// `rotation_request` reports for the task's parameters.
    pub rotation: RotationTerms,
    /// Used by a delegated operator: what its capability returned, if it ran.
    pub delegate: Option<DelegateOutcome>,
}

/// The outcome of a successful execution.
#[derive(Debug)]
pub struct TaskExecutionResult {
    pub task_id: u128,
    pub success: bool,
    pub metrics: GeometricMetrics,
    pub output: ParamValue,
    pub error: Option<String>,
}

/// Model of a stored task.
pub struct TaskEntry {
    pub id: u128,
    pub command: GeometricTaskCommand,
    pub status: StatusModel,
}

struct TaskInfo {
    id: u128,
    command: GeometricTaskCommand,
}

pub open spec fn has_id(ts: Seq<TaskEntry>, id: u128) -> bool {
    exists|i: int| 0 <= i < ts.len() && ts[i].id == id
}

pub open spec fn task_index(ts: Seq<TaskEntry>, id: u128) -> int {
    choose|i: int| 0 <= i < ts.len() && ts[i].id == id
}

pub open spec fn ids_unique(ts: Seq<TaskEntry>) -> bool {
    forall|i: int, j: int| 0 <= i < ts.len() && 0 <= j < ts.len() && ts[i].id == ts[j].id ==> i == j
}

/// Whether a delegated operator's outcome is one it can use: extension
/// metrics for the asymmetry simulation and the script runner, a field for
/// the field generator.
pub open spec fn outcome_fits(op: GeometricOperator, d: Option<DelegateOutcome>) -> bool {
    match d {
        Some(DelegateOutcome::Metrics(_)) => op is SimulateEqgftAsymmetry || op is CustomPythonScript,
        Some(DelegateOutcome::Field(_)) => op is GenerateHopfionField,
        _ => false,
    }
}

/// The reason recorded when a delegated operator cannot complete.
pub open spec fn failure_reason(d: Option<DelegateOutcome>) -> Seq<char> {
    match d {
        Some(DelegateOutcome::Failed(s)) => s@,
        None => "capability unavailable"@,
        _ => "capability returned an unexpected result"@,
    }
}

/// The snapshot after a completed execution of `op` from `m`.
pub open spec fn executed(m: MetricsModel, op: GeometricOperator, p: ParamValue, inputs: ExecutionInputs) -> MetricsModel {
    if !op.is_delegate() {
        operate(m, op, p, inputs.rotation)
    } else {
        match inputs.delegate {
            Some(DelegateOutcome::Metrics(v)) => MetricsModel { custom: custom_from(custom_view(v@)), ..m },
            _ => m,
        }
    }
}

/// The stored field artifact after a completed execution of `op`.
pub open spec fn field_after(op: GeometricOperator, d: Option<DelegateOutcome>, f: Option<HopfionSolitonField>) -> Option<HopfionSolitonField> {
    match d {
        Some(DelegateOutcome::Field(g)) => if op is GenerateHopfionField { Some(g) } else { f },
        _ => f,
    }
}

/// Whether an execution of `op` with these inputs completes.
pub open spec fn completes(op: GeometricOperator, inputs: ExecutionInputs) -> bool {
    !op.is_delegate() || outcome_fits(op, inputs.delegate)
}

/// The output payload of a completed execution: `{"status": "completed"}`.
pub open spec fn completed_output(o: ParamValue) -> bool {
    match o {
        ParamValue::Object(es) => es@.len() == 1 && es@[0].key@ == "status"@
            && (es@[0].value matches ParamValue::Text(t) && t@ == "completed"@),
        _ => false,
    }
}

/// Relies on uuid::Uuid::new_v4 and Uuid::as_u128: a random version-4 id,
/// as its 128-bit value. Nothing is known of which id comes back.
#[verifier::external_body]
fn fresh_task_id() -> (r: u128) {
    uuid::Uuid::new_v4().as_u128()
}

/// The task store, its statuses, the authoritative snapshot and the last
/// field artifact. Re-executing a finished task is allowed: it recomputes
/// from the current snapshot.
pub struct SemanticTaskProcessor {
    tasks: Vec<TaskInfo>,
    statuses: Vec<TaskStatus>,
    emergence: EmergenceLogic,
    hopfion_field: Option<HopfionSolitonField>,
}

impl SemanticTaskProcessor {
    /// The stored tasks, in order of submission.
    pub closed spec fn entries(&self) -> Seq<TaskEntry> {
        Seq::new(self.tasks@.len(), |i: int| TaskEntry {
            id: self.tasks@[i].id,
            command: self.tasks@[i].command,
            status: self.statuses@[i]@,
        })
    }

    /// The authoritative snapshot.
    pub closed spec fn current(&self) -> MetricsModel {
        self.emergence.model()
    }

    /// The last field artifact stored.
    pub closed spec fn field(&self) -> Option<HopfionSolitonField> {
        self.hopfion_field
    }

    /// The internal storage is consistent.
    pub closed spec fn storage_wf(&self) -> bool {
        &&& self.tasks@.len() == self.statuses@.len()
        &&& self.emergence.wf()
    }

    /// Task ids are unique, and the snapshot is well formed: unique
    /// extension keys, and positive mass, entropy, coherence and winding.
    pub open spec fn wf(&self) -> bool {
        &&& self.storage_wf()
        &&& ids_unique(self.entries())
        &&& crate::metrics::keys_unique(self.current().custom)
        &&& self.current().mass > 0
        &&& self.current().entropy > 0
        &&& self.current().coherence > 0
        &&& self.current().winding > 0
    }

    /// An empty store at the baseline snapshot.
    pub fn new() -> (r: Self)
        ensures
            r.wf(),
            r.entries().len() == 0,
            r.current() == crate::metrics::baseline_model(),
            r.field() is None,
    {
        SemanticTaskProcessor {
            tasks: Vec::new(),
            statuses: Vec::new(),
            emergence: EmergenceLogic::new(None),
            hopfion_field: None,
        }
    }

    fn find(&self, id: u128) -> (r: Option<usize>)
        requires
            self.wf(),
        ensures
            match r {
                Some(i) => i < self.entries().len() && self.entries()[i as int].id == id
                    && task_index(self.entries(), id) == i,
                None => !has_id(self.entries(), id),
            },
    {
        let mut i: usize = 0;
        while i < self.tasks.len()
            invariant
                self.wf(),
                0 <= i <= self.tasks.len(),
                forall|j: int| 0 <= j < i ==> self.entries()[j].id != id,
            decreases self.tasks.len() - i,
        {
            if self.tasks[i].id == id {
                proof {
                    let ts = self.entries();
                    assert(ts[i as int].id == id);
                    let c = task_index(ts, id);
                    assert(ts[c].id == ts[i as int].id);
                }
                return Some(i);
            }
            i = i + 1;
        }
        None
    }

    /// Stores `task` as `Pending` under its own id, or a fresh one when it
    /// has none. Fails, storing nothing, when the id is already stored.
    pub fn submit_task(&mut self, task: GeometricTaskCommand) -> (r: Result<u128, TaskError>)
        requires
            old(self).wf(),
        ensures
            final(self).wf(),
            final(self).current() == old(self).current(),
            final(self).field() == old(self).field(),
            task.task_id matches Some(i) ==> (r is Ok <==> !has_id(old(self).entries(), i)),
            task.task_id is Some && r is Ok ==> r == Ok::<u128, TaskError>(task.task_id->Some_0),
            task.task_id is Some && r is Err ==> r == Err::<u128, TaskError>(TaskError::DuplicateId(task.task_id->Some_0)),
            match r {
                Ok(id) => !has_id(old(self).entries(), id)
                    && final(self).entries() == old(self).entries().push(
                        TaskEntry { id, command: task, status: StatusModel::Pending }),
                Err(TaskError::DuplicateId(id)) => has_id(old(self).entries(), id)
                    && final(self).entries() == old(self).entries(),
                Err(_) => false,
            },
    {
        let id = match task.task_id {
            Some(i) => i,
            None => fresh_task_id(),
        };
        match self.find(id) {
            Some(_) => Err(TaskError::DuplicateId(id)),
            None => {
                let ghost old_entries = self.entries();
                let ghost cmd = task;
                self.tasks.push(TaskInfo { id, command: task });
                self.statuses.push(TaskStatus::Pending);
                proof {
                    let ts = self.entries();
                    assert(ts =~= old_entries.push(TaskEntry { id, command: cmd, status: StatusModel::Pending }));
                    assert forall|a: int, b: int| 0 <= a < ts.len() && 0 <= b < ts.len() && ts[a].id == ts[b].id implies a == b by {
                        if a < old_entries.len() && b < old_entries.len() {
                            assert(old_entries[a].id == old_entries[b].id);
                        } else if a < old_entries.len() {
                            assert(old_entries[a].id == id);
                        } else if b < old_entries.len() {
                            assert(old_entries[b].id == id);
                        }
                    }
                }
                Ok(id)
            },
        }
    }

    /// Runs the task `task_id` against the current snapshot. A locally
    /// computed operator always completes; a delegated one completes when
    /// its outcome fits it and otherwise is marked `Failed`.
    pub fn execute_task(&mut self, task_id: u128, inputs: ExecutionInputs) -> (r: Result<TaskExecutionResult, TaskError>)
        requires
            old(self).wf(),
        ensures
            final(self).wf(),
            (r matches Err(TaskError::NotFound(_))) <==> !has_id(old(self).entries(), task_id),
            !has_id(old(self).entries(), task_id) ==> (r matches Err(TaskError::NotFound(i)) && i == task_id),
            !has_id(old(self).entries(), task_id) ==> final(self).entries() == old(self).entries()
                && final(self).current() == old(self).current()
                && final(self).field() == old(self).field(),
            has_id(old(self).entries(), task_id) ==> ({
                let k = task_index(old(self).entries(), task_id);
                let cmd = old(self).entries()[k].command;
                let op = cmd.geometric_operator;
                if completes(op, inputs) {
                    let m = executed(old(self).current(), op, cmd.parameters, inputs);
                    &&& final(self).current() == m
                    &&& final(self).entries() == old(self).entries().update(k,
                            TaskEntry { id: task_id, command: cmd, status: StatusModel::Completed(m) })
                    &&& final(self).field() == field_after(op, inputs.delegate, old(self).field())
                    &&& (r matches Ok(res) && res.task_id == task_id && res.success && res.metrics@ == m
                        && res.error is None && completed_output(res.output))
                } else {
                    &&& final(self).current() == old(self).current()
                    &&& final(self).field() == old(self).field()
                    &&& final(self).entries() == old(self).entries().update(k,
                            TaskEntry { id: task_id, command: cmd, status: StatusModel::Failed(failure_reason(inputs.delegate)) })
                    &&& (r matches Err(TaskError::Capability(s)) && s@ == failure_reason(inputs.delegate))
                }
            }),
    {
        let i = match self.find(task_id) {
            Some(i) => i,
            None => return Err(TaskError::NotFound(task_id)),
        };
        let ghost old_entries = self.entries();
        let ghost k = i as int;
        self.statuses.set(i, TaskStatus::InProgress);
        let op = self.tasks[i].command.geometric_operator;
        let is_delegate = match op {
            GeometricOperator::SimulateEqgftAsymmetry => true,
            GeometricOperator::GenerateHopfionField => true,
            GeometricOperator::CustomPythonScript => true,
            _ => false,
        };
        let ghost gin = inputs;
        if !is_delegate {
            self.emergence.apply_operator(op, &self.tasks[i].command.parameters, &inputs.rotation);
        } else {
            let failure: Option<String> = match inputs.delegate {
                Some(DelegateOutcome::Metrics(v)) => {
                    if op != GeometricOperator::GenerateHopfionField {
                        self.emergence.replace_custom_metrics(&v);
                        None
                    } else {
                        Some(String::from_str("capability returned an unexpected result"))
                    }
                },
                Some(DelegateOutcome::Field(f)) => {
                    if op == GeometricOperator::GenerateHopfionField {
                        self.hopfion_field = Some(f);
                        None
                    } else {
                        Some(String::from_str("capability returned an unexpected result"))
                    }
                },
                Some(DelegateOutcome::Failed(s)) => Some(s),
                None => Some(String::from_str("capability unavailable")),
            };
            if let Some(reason) = failure {
                let message = reason.clone();
                self.statuses.set(i, TaskStatus::Failed(reason));
                proof {
                    assert(self.entries() =~= old_entries.update(k, TaskEntry {
                        id: task_id, command: old_entries[k].command, status: StatusModel::Failed(failure_reason(gin.delegate)) }));
                    assert forall|a: int, b: int| 0 <= a < self.entries().len() && 0 <= b < self.entries().len()
                        && self.entries()[a].id == self.entries()[b].id implies a == b by {
                        assert(old_entries[a].id == old_entries[b].id);
                    }
                }
                return Err(TaskError::Capability(message));
            }
        }
        let snapshot = self.emergence.metrics().snapshot();
        let result_metrics = snapshot.snapshot();
        self.statuses.set(i, TaskStatus::Completed(snapshot));
        proof {
            assert(self.entries() =~= old_entries.update(k, TaskEntry {
                id: task_id, command: old_entries[k].command, status: StatusModel::Completed(self.current()) }));
            assert forall|a: int, b: int| 0 <= a < self.entries().len() && 0 <= b < self.entries().len()
                && self.entries()[a].id == self.entries()[b].id implies a == b by {
                assert(old_entries[a].id == old_entries[b].id);
            }
        }
        let output = ParamValue::Object(vec![ParamEntry {
            key: String::from_str("status"),
            value: ParamValue::Text(String::from_str("completed")),
        }]);
        let r = TaskExecutionResult { task_id, success: true, metrics: result_metrics, output, error: None };
        Ok(r)
    }

    /// The status of the task `task_id`.
    pub fn get_task_status(&self, task_id: u128) -> (r: Result<TaskStatus, TaskError>)
        requires
            self.wf(),
        ensures
            match r {
                Ok(s) => has_id(self.entries(), task_id)
                    && s@ == self.entries()[task_index(self.entries(), task_id)].status,
                Err(e) => !has_id(self.entries(), task_id) && e == TaskError::NotFound(task_id),
            },
    {
        match self.find(task_id) {
            Some(i) => Ok(self.statuses[i].copy()),
            None => Err(TaskError::NotFound(task_id)),
        }
    }

    /// The command stored under `task_id`.
    pub fn task_command(&self, task_id: u128) -> (r: Option<&GeometricTaskCommand>)
        requires
            self.wf(),
        ensures
            match r {
                Some(c) => has_id(self.entries(), task_id)
                    && *c == self.entries()[task_index(self.entries(), task_id)].command,
                None => !has_id(self.entries(), task_id),
            },
    {
        match self.find(task_id) {
            Some(i) => Some(&self.tasks[i].command),
            None => None,
        }
    }

    /// Runs every registered rule on the authoritative snapshot, in
    /// insertion order.
    pub fn apply_rules(&mut self, rules: &GeometricMetricEngine)
        requires
            old(self).wf(),
        ensures
            final(self).wf(),
            final(self).current() == crate::rules::apply_rules(old(self).current(), rules@),
            final(self).entries() == old(self).entries(),
            final(self).field() == old(self).field(),
    {
        self.emergence.apply_rules(rules);
    }

    /// Runs the rule `name` on the authoritative snapshot; false, with the
    /// snapshot unchanged, when there is no such rule.
    pub fn apply_rule(&mut self, rules: &GeometricMetricEngine, name: &str) -> (r: bool)
        requires
            old(self).wf(),
            rules.wf(),
        ensures
            final(self).wf(),
            r == has_rule(rules@, name@),
            r ==> final(self).current() == rule_effect(old(self).current(), name@, rules@[rule_index(rules@, name@)].1),
            !r ==> final(self).current() == old(self).current(),
            final(self).entries() == old(self).entries(),
            final(self).field() == old(self).field(),
    {
        self.emergence.apply_rule(rules, name)
    }

    /// A copy of the authoritative snapshot.
    pub fn get_metrics(&self) -> (r: GeometricMetrics)
        ensures
            r@ == self.current(),
    {
        self.emergence.metrics().snapshot()
    }

    /// Every stored task's id and status, in order of submission.
    pub fn list_tasks(&self) -> (r: Vec<(u128, TaskStatus)>)
        requires
            self.wf(),
        ensures
            r@.len() == self.entries().len(),
            forall|i: int| 0 <= i < r@.len() ==> r@[i].0 == self.entries()[i].id && r@[i].1@ == self.entries()[i].status,
    {
        let mut out: Vec<(u128, TaskStatus)> = Vec::new();
        let mut i: usize = 0;
        while i < self.tasks.len()
            invariant
                self.wf(),
                0 <= i <= self.tasks.len(),
                out@.len() == i,
                forall|j: int| 0 <= j < i ==> out@[j].0 == self.entries()[j].id && out@[j].1@ == self.entries()[j].status,
            decreases self.tasks.len() - i,
        {
            out.push((self.tasks[i].id, self.statuses[i].copy()));
            i = i + 1;
        }
        out
    }

    /// A copy of the last field artifact, if one was stored.
    pub fn get_hopfion_field(&self) -> (r: Option<HopfionSolitonField>)
        ensures
            match r {
                Some(f) => (self.field() matches Some(g) && f.q_x@ == g.q_x@ && f.n_h == g.n_h),
                None => self.field() is None,
            },
    {
        match &self.hopfion_field {
            Some(f) => Some(f.copy()),
            None => None,
        }
    }
}

} // verus!
