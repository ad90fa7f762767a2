use vstd::prelude::*;
use vstd::string::*;
use crate::metrics::{
    clamp, saturate, set_custom, with_custom, CustomMetric, GeometricMetrics, MetricsModel,
    BASELINE_COHERENCE, BASELINE_ENTROPY, BASELINE_WINDING, ELECTRON_MASS, EPSILON, FINE_STRUCTURE,
    SCALE,
};
use crate::params::{number_member, scalar_of, text_member, extract_scalar, ParamValue};
use crate::rules::{has_rule, rule_effect, rule_index, GeometricMetricEngine};
use crate::types::GeometricOperator;

verus! {

/// Upper bound of quaternion coherence (0.9999).
pub const MAX_COHERENCE: i64 = 999_900_000;

/// Lower bound of geometric stability (0.0001).
pub const MIN_STABILITY: i64 = 100_000;

/// Coherence hint used by synthesis when none is given (0.95).
pub const DEFAULT_HINT: i64 = 950_000_000;

/// The trigonometric term of a rotation, computed outside the engine for
/// the angle that `rotation_request` reports: `|sin(theta / 2)|`, in units
/// of `1 / SCALE`.
#[derive(Clone, Copy, Debug)]
pub struct RotationTerms {
    pub half_angle_sine: i64,
}

/// `r` is the integer square root of `n`.
pub open spec fn is_root(n: int, r: int) -> bool {
    0 <= r && r * r <= n < (r + 1) * (r + 1)
}

/// The integer square root of `n`.
pub open spec fn root(n: int) -> int {
    choose|r: int| is_root(n, r)
}

/// Sum of the squared components.
pub open spec fn square_sum(a: (i64, i64, i64)) -> int {
    a.0 * a.0 + a.1 * a.1 + a.2 * a.2
}

proof fn root_unique(n: int, r: int, q: int)
    requires
        is_root(n, r),
        is_root(n, q),
    ensures
        r == q,
{
    if r < q {
        assert((r + 1) * (r + 1) <= q * q) by (nonlinear_arith)
            requires 0 <= r, r + 1 <= q;
    } else if q < r {
        assert((q + 1) * (q + 1) <= r * r) by (nonlinear_arith)
            requires 0 <= q, q + 1 <= r;
    }
}

/// The integer square root of `n`.
pub fn integer_sqrt(n: u128) -> (r: u64)
    ensures
        is_root(n as int, r as int),
        r as int == root(n as int),
{
    let mut lo: u128 = 0;
    let mut hi: u128 = 0x1_0000_0000_0000_0000;
    assert(n < hi * hi) by (nonlinear_arith)
        requires hi == 0x1_0000_0000_0000_0000, n < 0x1_0000_0000_0000_0000_0000_0000_0000_0000;
    while hi - lo > 1
        invariant
            lo < hi <= 0x1_0000_0000_0000_0000,
            lo * lo <= n,
            n < hi * hi,
        decreases hi - lo,
    {
        let mid: u128 = lo + (hi - lo) / 2;
        assert(mid * mid < 0x1_0000_0000_0000_0000_0000_0000_0000_0000) by (nonlinear_arith)
            requires mid < 0x1_0000_0000_0000_0000;
        if mid * mid <= n {
            lo = mid;
        } else {
            hi = mid;
        }
    }
    assert(hi == lo + 1);
    let r = lo as u64;
    proof {
        let c = root(n as int);
        assert(is_root(n as int, lo as int));
        root_unique(n as int, c, lo as int);
    }
    r
}

pub open spec fn abs(x: int) -> int {
    if x < 0 { -x } else { x }
}

pub open spec fn max(a: int, b: int) -> int {
    if a < b { b } else { a }
}

pub open spec fn min(a: int, b: int) -> int {
    if a < b { a } else { b }
}

/// Quotient rounded toward zero, for a positive divisor.
pub open spec fn tdiv(a: int, b: int) -> int {
    if a >= 0 { a / b } else { -((-a) / b) }
}

/// The payload's scalar, or 1.0 when it has none.
pub open spec fn magnitude_of(p: ParamValue) -> int {
    match scalar_of(p) {
        Some(n) => n,
        None => SCALE as int,
    }
}

/// The rotation angle: member `theta`, else the payload's magnitude.
pub open spec fn rotation_angle(p: ParamValue) -> int {
    match number_member(p, "theta"@) {
        Some(t) => t,
        None => magnitude_of(p),
    }
}

/// The rotation axis: member `axis` when it is a list of three numbers,
/// else the unit y axis.
pub open spec fn rotation_axis(p: ParamValue) -> (i64, i64, i64) {
    match crate::params::member(p, "axis"@) {
        Some(ParamValue::List(l)) => match crate::params::axis_of(l@) {
            Some(a) => a,
            None => (0, SCALE, 0),
        },
        _ => (0, SCALE, 0),
    }
}

/// The Euclidean norm of the rotation axis, in units of `1 / SCALE`.
pub open spec fn axis_norm(p: ParamValue) -> int {
    root(square_sum(rotation_axis(p)))
}

/// `|sin(theta / 2)| * 0.005 * max(|axis|, 1e-6)`.
pub open spec fn rotation_boost(t: RotationTerms, norm: int) -> int {
    abs(t.half_angle_sine as int) * max(norm, EPSILON as int) / (200 * SCALE as int)
}

pub open spec fn rotate(m: MetricsModel, p: ParamValue, t: RotationTerms) -> MetricsModel {
    let c = clamp(m.coherence + rotation_boost(t, axis_norm(p)), 0, MAX_COHERENCE as int);
    MetricsModel { coherence: c, volume: c, ..m }
}

/// The frequency scale: member `frequency_scale`, else `|magnitude|`.
pub open spec fn frequency_scale(p: ParamValue) -> int {
    match number_member(p, "frequency_scale"@) {
        Some(f) => f,
        None => saturate(abs(magnitude_of(p))),
    }
}

/// The oscillation operator. The scaled amplitude is the Compton-like
/// amplitude over `max(f, 1e-6)`, so `hbar / (2 c amplitude)` is the electron
/// mass times `max(f, 1e-6)`.
pub open spec fn oscillate(m: MetricsModel, p: ParamValue) -> MetricsModel {
    let f = frequency_scale(p);
    let w = max(saturate(m.winding + tdiv(f - SCALE, 10_000)), 0);
    MetricsModel {
        mass: ELECTRON_MASS * max(f, EPSILON as int) / (SCALE as int),
        winding: w,
        oscillator: w,
        ..m
    }
}

/// The derivation delta: member `delta`, else the magnitude.
pub open spec fn derivation_delta(p: ParamValue) -> int {
    match number_member(p, "delta"@) {
        Some(d) => d,
        None => magnitude_of(p),
    }
}

pub open spec fn derive_stability(m: MetricsModel, p: ParamValue) -> MetricsModel {
    let s = clamp(m.stability + tdiv(derivation_delta(p), 1_000), MIN_STABILITY as int, SCALE as int);
    MetricsModel { stability: s, entropy: s, ..m }
}

/// `max(coherence * hint * 10, 0)`.
pub open spec fn anchor_strength(c: int, hint: int) -> int {
    if c * hint <= 0 { 0 } else { saturate(c * hint / 100_000_000) }
}

pub open spec fn synthesis_hint(p: ParamValue) -> int {
    match number_member(p, "coherence_hint"@) {
        Some(h) => h,
        None => DEFAULT_HINT as int,
    }
}

pub open spec fn synthesis_anchor(p: ParamValue) -> Seq<char> {
    match text_member(p, "anchor"@) {
        Some(a) => a,
        None => "quantum-atom"@,
    }
}

pub open spec fn synthesize(m: MetricsModel, p: ParamValue) -> MetricsModel {
    MetricsModel {
        custom: with_custom(m.custom, "anchor:"@ + synthesis_anchor(p), anchor_strength(m.coherence, synthesis_hint(p))),
        ..m
    }
}

/// The operator-specific part of an operator application. Delegated
/// operators are computed elsewhere and leave the snapshot as it is here.
pub open spec fn transform(m: MetricsModel, op: GeometricOperator, p: ParamValue, t: RotationTerms) -> MetricsModel {
    match op {
        GeometricOperator::QuaternionRotation => rotate(m, p, t),
        GeometricOperator::Zitterbewegung => oscillate(m, p),
        GeometricOperator::GeometricDerivation => derive_stability(m, p),
        GeometricOperator::SemanticSynthesis => synthesize(m, p),
        _ => m,
    }
}

/// `min(alpha / max(coherence, 1e-6), 1)`.
pub open spec fn fine_structure_for(c: int) -> int {
    min(FINE_STRUCTURE * SCALE / max(c, EPSILON as int), SCALE as int)
}

/// The pass after every operator: derive the fine-structure value, then
/// reset each non-positive one of entropy, mass, coherence and winding to
/// its baseline.
pub open spec fn repair(m: MetricsModel) -> MetricsModel {
    MetricsModel {
        fine_structure: fine_structure_for(m.coherence),
        entropy: if m.entropy <= 0 { BASELINE_ENTROPY as int } else { m.entropy },
        mass: if m.mass <= 0 { ELECTRON_MASS as int } else { m.mass },
        coherence: if m.coherence <= 0 { BASELINE_COHERENCE as int } else { m.coherence },
        winding: if m.winding <= 0 { BASELINE_WINDING as int } else { m.winding },
        ..m
    }
}

/// The snapshot that applying `op` with parameters `p` to `m` produces.
pub open spec fn operate(m: MetricsModel, op: GeometricOperator, p: ParamValue, t: RotationTerms) -> MetricsModel {
    repair(transform(m, op, p, t))
}

/// A rotation leaves coherence within `[0, 0.9999]`, for any angle and axis.
pub proof fn rotation_coherence_bounded(m: MetricsModel, p: ParamValue, t: RotationTerms)
    ensures
        0 <= operate(m, GeometricOperator::QuaternionRotation, p, t).coherence <= MAX_COHERENCE,
{
}

/// A derivation leaves stability within `[0.0001, 1]`.
pub proof fn derivation_stability_bounded(m: MetricsModel, p: ParamValue, t: RotationTerms)
    ensures
        MIN_STABILITY <= operate(m, GeometricOperator::GeometricDerivation, p, t).stability <= SCALE,
{
}

/// After any operator, entropy, mass, coherence and winding are positive.
pub proof fn operate_keeps_positive(m: MetricsModel, op: GeometricOperator, p: ParamValue, t: RotationTerms)
    ensures
        operate(m, op, p, t).entropy > 0,
        operate(m, op, p, t).mass > 0,
        operate(m, op, p, t).coherence > 0,
        operate(m, op, p, t).winding > 0,
{
}

fn saturating_abs(x: i64) -> (r: i64)
    ensures
        r == saturate(abs(x as int)),
{
    if x == i64::MIN {
        i64::MAX
    } else if x < 0 {
        -x
    } else {
        x
    }
}

/// Quotient of `a` by a positive `b`, rounded toward zero.
fn quotient_toward_zero(a: i128, b: u128) -> (r: i128)
    requires
        0 < b,
        -0x1_0000_0000_0000_0000 <= a <= 0x1_0000_0000_0000_0000,
    ensures
        r == tdiv(a as int, b as int),
{
    if a >= 0 {
        (a as u128 / b) as i128
    } else {
        -(((-a) as u128 / b) as i128)
    }
}

fn saturate_i128(x: i128) -> (r: i64)
    ensures
        r == saturate(x as int),
{
    if x < i64::MIN as i128 {
        i64::MIN
    } else if x > i64::MAX as i128 {
        i64::MAX
    } else {
        x as i64
    }
}

/// `x^2 + y^2 + z^2`.
pub fn squared_norm(a: (i64, i64, i64)) -> (r: u128)
    ensures
        r == square_sum(a),
{
    let x = if a.0 < 0 { -(a.0 as i128) } else { a.0 as i128 } as u128;
    let y = if a.1 < 0 { -(a.1 as i128) } else { a.1 as i128 } as u128;
    let z = if a.2 < 0 { -(a.2 as i128) } else { a.2 as i128 } as u128;
    assert(x * x + y * y + z * z <= 3 * (0x8000_0000_0000_0000 * 0x8000_0000_0000_0000)) by (nonlinear_arith)
        requires x <= 0x8000_0000_0000_0000, y <= 0x8000_0000_0000_0000, z <= 0x8000_0000_0000_0000;
    assert(x * x == a.0 * a.0) by (nonlinear_arith)
        requires x == abs(a.0 as int);
    assert(y * y == a.1 * a.1) by (nonlinear_arith)
        requires y == abs(a.1 as int);
    assert(z * z == a.2 * a.2) by (nonlinear_arith)
        requires z == abs(a.2 as int);
    x * x + y * y + z * z
}

/// The angle and axis a rotation with these parameters turns by; the
/// caller computes `RotationTerms` from the angle.
pub fn rotation_request(params: &ParamValue) -> (r: (i64, (i64, i64, i64)))
    ensures
        r.0 == rotation_angle(*params),
        r.1 == rotation_axis(*params),
{
    let magnitude = match extract_scalar(params) {
        Some(m) => m,
        None => SCALE,
    };
    let theta = match params.number_at("theta") {
        Some(t) => t,
        None => magnitude,
    };
    let axis = match params.list_at("axis") {
        Some(l) => match crate::params::normalize_axis(l) {
            Some(a) => a,
            None => (0, SCALE, 0),
        },
        None => (0, SCALE, 0),
    };
    (theta, axis)
}

/// Engine configuration.
#[derive(Clone, Copy, Debug)]
pub struct EmergenceConfig {
    /// Integration step, in units of `1 / SCALE` (0.01 by default).
    pub step_size: i64,
}

impl Default for EmergenceConfig {
    fn default() -> (r: Self)
        ensures
            r.step_size == 10_000_000,
    {
        EmergenceConfig { step_size: 10_000_000 }
    }
}

/// A quaternion, components in units of `1 / SCALE`.
#[derive(Clone, Copy, Debug, PartialEq, Eq, Structural)]
pub struct Quaternion {
    pub w: i64,
    pub x: i64,
    pub y: i64,
    pub z: i64,
}

/// The deterministic operator engine and the snapshot it evolves.
pub struct EmergenceLogic {
    config: EmergenceConfig,
    metrics: GeometricMetrics,
}

impl EmergenceLogic {
    /// The snapshot the engine holds.
    pub closed spec fn model(&self) -> MetricsModel {
        self.metrics@
    }

    /// Extension keys are unique, and mass, entropy, coherence and winding
    /// are positive.
    pub open spec fn wf(&self) -> bool {
        &&& crate::metrics::keys_unique(self.model().custom)
        &&& self.model().mass > 0
        &&& self.model().entropy > 0
        &&& self.model().coherence > 0
        &&& self.model().winding > 0
    }

    /// An engine at the baseline snapshot.
    pub fn new(config: Option<EmergenceConfig>) -> (r: Self)
        ensures
            r.model() == crate::metrics::baseline_model(),
            r.wf(),
    {
        let config = match config {
            Some(c) => c,
            None => EmergenceConfig::default(),
        };
        EmergenceLogic { config, metrics: GeometricMetrics::baseline() }
    }

    /// Applies `op` to the held snapshot and returns the result.
    pub fn apply_operator(&mut self, op: GeometricOperator, params: &ParamValue, terms: &RotationTerms) -> (r: &GeometricMetrics)
        requires
            old(self).wf(),
        ensures
            final(self).wf(),
            final(self).model() == operate(old(self).model(), op, *params, *terms),
            r@ == final(self).model(),
    {
        let magnitude = match extract_scalar(params) {
            Some(m) => m,
            None => SCALE,
        };
        match op {
            GeometricOperator::QuaternionRotation => {
                let s = terms.half_angle_sine as i128;
                let a: u128 = if s < 0 { (-s) as u128 } else { s as u128 };
                let (_, axis) = rotation_request(params);
                let norm = integer_sqrt(squared_norm(axis));
                let n: u128 = if (norm as u128) < EPSILON as u128 { EPSILON as u128 } else { norm as u128 };
                assert(a * n <= 0x8000_0000_0000_0000 * 0x1_0000_0000_0000_0000) by (nonlinear_arith)
                    requires a <= 0x8000_0000_0000_0000, n <= 0x1_0000_0000_0000_0000;
                let boost: u128 = a * n / 200_000_000_000;
                assert(boost <= a * n);
                let c = self.metrics.quaternion_coherence as i128 + boost as i128;
                let c = if c < 0 { 0 } else if c > MAX_COHERENCE as i128 { MAX_COHERENCE } else { c as i64 };
                self.metrics.quaternion_coherence = c;
                self.metrics.v_geometric = c;
            },
            GeometricOperator::Zitterbewegung => {
                let f = match params.number_at("frequency_scale") {
                    Some(f) => f,
                    None => saturating_abs(magnitude),
                };
                let fm: u128 = if f < EPSILON { EPSILON as u128 } else { f as u128 };
                assert((ELECTRON_MASS as int) * (fm as int) <= (SCALE as int) * (fm as int)) by (nonlinear_arith)
                    requires fm >= 0;
                assert((ELECTRON_MASS as int) * (fm as int) / (SCALE as int) <= fm as int) by (nonlinear_arith)
                    requires (ELECTRON_MASS as int) * (fm as int) <= (SCALE as int) * (fm as int), fm >= 0;
                let mass = ((ELECTRON_MASS as u128) * fm / (SCALE as u128)) as i64;
                let q = quotient_toward_zero(f as i128 - SCALE as i128, 10_000);
                let w = saturate_i128(self.metrics.topological_winding as i128 + q);
                let w = if w < 0 { 0 } else { w };
                self.metrics.emergent_electron_mass = mass;
                self.metrics.topological_winding = w;
                self.metrics.q_oscillator = w;
            },
            GeometricOperator::GeometricDerivation => {
                let d = match params.number_at("delta") {
                    Some(d) => d,
                    None => magnitude,
                };
                let q = quotient_toward_zero(d as i128, 1_000);
                let s = self.metrics.s_geometric as i128 + q;
                let s = if s < MIN_STABILITY as i128 { MIN_STABILITY } else if s > SCALE as i128 { SCALE } else { s as i64 };
                self.metrics.s_geometric = s;
                self.metrics.zitterbewegung_entropy = s;
            },
            GeometricOperator::SemanticSynthesis => {
                let hint = match params.number_at("coherence_hint") {
                    Some(h) => h,
                    None => DEFAULT_HINT,
                };
                let anchor = match params.text_at("anchor") {
                    Some(a) => a,
                    None => "quantum-atom",
                };
                let c = self.metrics.quaternion_coherence;
                assert(-0x8000_0000_0000_0000 * 0x8000_0000_0000_0000 <= c * hint <= 0x8000_0000_0000_0000 * 0x8000_0000_0000_0000) by (nonlinear_arith)
                    requires -0x8000_0000_0000_0000 <= c <= 0x8000_0000_0000_0000, -0x8000_0000_0000_0000 <= hint <= 0x8000_0000_0000_0000;
                let p = c as i128 * hint as i128;
                let strength = if p <= 0 { 0 } else { saturate_i128((p as u128 / 100_000_000) as i128) };
                let key = String::from_str("anchor:").concat(anchor);
                set_custom(&mut self.metrics.custom_metrics, key, strength);
            },
            _ => {},
        }
        let c = self.metrics.quaternion_coherence;
        let d: u128 = if c < EPSILON { EPSILON as u128 } else { c as u128 };
        let f = (FINE_STRUCTURE as u128) * (SCALE as u128) / d;
        self.metrics.fine_structure_constant = if f < SCALE as u128 { f as i64 } else { SCALE };
        if self.metrics.zitterbewegung_entropy <= 0 {
            self.metrics.zitterbewegung_entropy = BASELINE_ENTROPY;
        }
        if self.metrics.emergent_electron_mass <= 0 {
            self.metrics.emergent_electron_mass = ELECTRON_MASS;
        }
        if self.metrics.quaternion_coherence <= 0 {
            self.metrics.quaternion_coherence = BASELINE_COHERENCE;
        }
        if self.metrics.topological_winding <= 0 {
            self.metrics.topological_winding = BASELINE_WINDING;
        }
        &self.metrics
    }

    /// Records the components of `q` in the extension map as `q_w`, `q_x`,
    /// `q_y`, `q_z`.
    pub fn integrate_quaternion(&mut self, q: Quaternion) -> (r: &GeometricMetrics)
        requires
            old(self).wf(),
        ensures
            final(self).wf(),
            final(self).model() == (MetricsModel {
                custom: with_custom(with_custom(with_custom(with_custom(
                    old(self).model().custom, "q_w"@, q.w as int), "q_x"@, q.x as int), "q_y"@, q.y as int), "q_z"@, q.z as int),
                ..old(self).model()
            }),
            r@ == final(self).model(),
    {
        set_custom(&mut self.metrics.custom_metrics, String::from_str("q_w"), q.w);
        set_custom(&mut self.metrics.custom_metrics, String::from_str("q_x"), q.x);
        set_custom(&mut self.metrics.custom_metrics, String::from_str("q_y"), q.y);
        set_custom(&mut self.metrics.custom_metrics, String::from_str("q_z"), q.z);
        &self.metrics
    }

    /// Replaces the extension map with one built from `entries`.
    pub fn replace_custom_metrics(&mut self, entries: &Vec<CustomMetric>)
        requires
            old(self).wf(),
        ensures
            final(self).wf(),
            final(self).model() == (MetricsModel {
                custom: crate::metrics::custom_from(crate::metrics::custom_view(entries@)),
                ..old(self).model()
            }),
    {
        self.metrics.custom_metrics = crate::metrics::build_custom(entries);
    }

    /// Runs every rule of `rules` on the held snapshot, in insertion order.
    pub fn apply_rules(&mut self, rules: &GeometricMetricEngine)
        requires
            old(self).wf(),
        ensures
            final(self).wf(),
            final(self).model() == crate::rules::apply_rules(old(self).model(), rules@),
    {
        rules.apply_all(&mut self.metrics);
        proof {
            crate::rules::apply_rules_keeps_derived(old(self).model(), rules@);
        }
    }

    /// Runs the rule `name` on the held snapshot; false, with the snapshot
    /// unchanged, when there is no such rule.
    pub fn apply_rule(&mut self, rules: &GeometricMetricEngine, name: &str) -> (r: bool)
        requires
            old(self).wf(),
            rules.wf(),
        ensures
            final(self).wf(),
            r == has_rule(rules@, name@),
            r ==> final(self).model() == rule_effect(old(self).model(), name@, rules@[rule_index(rules@, name@)].1),
            !r ==> final(self).model() == old(self).model(),
    {
        rules.apply_rule(name, &mut self.metrics)
    }

    /// The held snapshot.
    pub fn metrics(&self) -> (r: &GeometricMetrics)
        ensures
            r@ == self.model(),
    {
        &self.metrics
    }
}

} // verus!
