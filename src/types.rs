use vstd::prelude::*;
use crate::params::ParamValue;

verus! {

/// The closed set of operators a task can carry.
#[derive(Clone, Copy, Debug, PartialEq, Eq, Structural)]
pub enum GeometricOperator {
    /// Rotation: raises quaternion coherence.
    QuaternionRotation,
    /// Oscillation: derives mass and nudges the winding number.
    Zitterbewegung,
    /// Derivation: moves stability and entropy.
    GeometricDerivation,
    /// Synthesis: writes an anchor strength into the extension map.
    SemanticSynthesis,
    /// Delegated to an outside capability: overwrites the extension map.
    SimulateEqgftAsymmetry,
    /// Delegated to an outside capability: stores a field artifact.
    GenerateHopfionField,
    /// Delegated to an outside script runner: overwrites the extension map.
    CustomPythonScript,
}

impl GeometricOperator {
    /// Operators computed by an outside capability rather than locally.
    pub open spec fn is_delegate(self) -> bool {
        self is SimulateEqgftAsymmetry || self is GenerateHopfionField || self is CustomPythonScript
    }
}

/// A task as submitted by a caller or proposed by a planner.
#[derive(Debug)]
pub struct GeometricTaskCommand {
    /// Brief description of the task.
    pub task_name: String,
    /// Operator to apply.
    pub geometric_operator: GeometricOperator,
    /// Informational label of the module the task addresses.
    pub target_module: String,
    /// Operator parameters.
    pub parameters: ParamValue,
    /// Metric the caller expects the task to move.
    pub expected_output_metric: String,
    /// Caller-supplied id; a fresh one is drawn when absent.
    pub task_id: Option<u128>,
}

} // verus!
