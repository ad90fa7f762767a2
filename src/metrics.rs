use vstd::prelude::*;

verus! {

/// Fixed-point scale: a metric value `x` stands for the real number `x / SCALE`.
pub const SCALE: i64 = 1_000_000_000;

/// The smallest positive magnitude used as a floor in divisions (1e-6).
pub const EPSILON: i64 = 1_000;

/// Baseline quaternion coherence (0.9).
pub const BASELINE_COHERENCE: i64 = 900_000_000;

/// Baseline zitterbewegung entropy (0.5).
pub const BASELINE_ENTROPY: i64 = 500_000_000;

/// Baseline topological winding and oscillator quality (8.9997).
pub const BASELINE_WINDING: i64 = 8_999_700_000;

/// Fine-structure constant, 1 / 137.035999084 (0.0072973525693).
pub const FINE_STRUCTURE: i64 = 7_297_353;

/// Electron mass in units of 1e-39 kg (9.1093837e-31 kg). The emergent mass
/// field is measured in these units, unlike the other fields.
pub const ELECTRON_MASS: i64 = 910_938_370;

/// One named extension metric.
#[derive(Clone, Debug)]
pub struct CustomMetric {
    pub key: String,
    pub value: i64,
}

/// The shared snapshot of named metrics. All fields but
/// `emergent_electron_mass` are in units of `1 / SCALE`.
#[derive(Clone, Debug)]
pub struct GeometricMetrics {
    pub v_geometric: i64,
    pub s_geometric: i64,
    pub q_oscillator: i64,
    pub quaternion_coherence: i64,
    pub emergent_electron_mass: i64,
    pub fine_structure_constant: i64,
    pub zitterbewegung_entropy: i64,
    pub topological_winding: i64,
    pub custom_metrics: Vec<CustomMetric>,
}

/// Mathematical model of a metrics snapshot.
pub struct MetricsModel {
    pub volume: int,
    pub stability: int,
    pub oscillator: int,
    pub coherence: int,
    pub mass: int,
    pub fine_structure: int,
    pub entropy: int,
    pub winding: int,
    pub custom: Seq<(Seq<char>, int)>,
}

pub open spec fn custom_view(v: Seq<CustomMetric>) -> Seq<(Seq<char>, int)> {
    Seq::new(v.len(), |i: int| (v[i].key@, v[i].value as int))
}

impl View for GeometricMetrics {
    type V = MetricsModel;

    open spec fn view(&self) -> MetricsModel {
        MetricsModel {
            volume: self.v_geometric as int,
            stability: self.s_geometric as int,
            oscillator: self.q_oscillator as int,
            coherence: self.quaternion_coherence as int,
            mass: self.emergent_electron_mass as int,
            fine_structure: self.fine_structure_constant as int,
            entropy: self.zitterbewegung_entropy as int,
            winding: self.topological_winding as int,
            custom: custom_view(self.custom_metrics@),
        }
    }
}

/// Keys of the extension map are unique.
pub open spec fn keys_unique(s: Seq<(Seq<char>, int)>) -> bool {
    forall|i: int, j: int| 0 <= i < s.len() && 0 <= j < s.len() && s[i].0 == s[j].0 ==> i == j
}

/// The extension map `s` with `k` set to `v`: an existing entry is replaced
/// in place, a new one goes to the end.
pub open spec fn with_custom(s: Seq<(Seq<char>, int)>, k: Seq<char>, v: int) -> Seq<(Seq<char>, int)> {
    if exists|i: int| 0 <= i < s.len() && s[i].0 == k {
        s.update(choose|i: int| 0 <= i < s.len() && s[i].0 == k, (k, v))
    } else {
        s.push((k, v))
    }
}

/// The extension map built by setting each entry of `s` in turn.
pub open spec fn custom_from(s: Seq<(Seq<char>, int)>) -> Seq<(Seq<char>, int)>
    decreases s.len(),
{
    if s.len() == 0 {
        s
    } else {
        with_custom(custom_from(s.drop_last()), s.last().0, s.last().1)
    }
}

/// The extension map built from `entries`; a later entry wins over an
/// earlier one with the same key.
pub fn build_custom(entries: &Vec<CustomMetric>) -> (r: Vec<CustomMetric>)
    ensures
        custom_view(r@) == custom_from(custom_view(entries@)),
        keys_unique(custom_view(r@)),
{
    let mut r: Vec<CustomMetric> = Vec::new();
    let mut i: usize = 0;
    assert(custom_view(r@) =~= custom_from(custom_view(entries@).subrange(0, 0)));
    while i < entries.len()
        invariant
            0 <= i <= entries.len(),
            keys_unique(custom_view(r@)),
            custom_view(r@) == custom_from(custom_view(entries@).subrange(0, i as int)),
        decreases entries.len() - i,
    {
        let c = entries[i].copy();
        set_custom(&mut r, c.key, c.value);
        assert(custom_view(entries@).subrange(0, i as int + 1).drop_last() =~= custom_view(entries@).subrange(0, i as int));
        i = i + 1;
    }
    assert(custom_view(entries@).subrange(0, i as int) =~= custom_view(entries@));
    r
}

/// The baseline snapshot the engine starts from.
pub open spec fn baseline_model() -> MetricsModel {
    MetricsModel {
        volume: BASELINE_COHERENCE as int,
        stability: BASELINE_ENTROPY as int,
        oscillator: BASELINE_WINDING as int,
        coherence: BASELINE_COHERENCE as int,
        mass: ELECTRON_MASS as int,
        fine_structure: FINE_STRUCTURE as int,
        entropy: BASELINE_ENTROPY as int,
        winding: BASELINE_WINDING as int,
        custom: Seq::empty(),
    }
}

/// `x` bounded to the range of `i64`.
pub open spec fn saturate(x: int) -> int {
    if x < i64::MIN {
        i64::MIN as int
    } else if x > i64::MAX {
        i64::MAX as int
    } else {
        x
    }
}

/// `x` bounded to `[lo, hi]`.
pub open spec fn clamp(x: int, lo: int, hi: int) -> int {
    if x < lo {
        lo
    } else if x > hi {
        hi
    } else {
        x
    }
}

/// Adds two metric values, saturating at the bounds of `i64`.
pub fn saturating_sum(a: i64, b: i64) -> (r: i64)
    ensures
        r == saturate(a + b),
{
    let s: i128 = a as i128 + b as i128;
    if s < i64::MIN as i128 {
        i64::MIN
    } else if s > i64::MAX as i128 {
        i64::MAX
    } else {
        s as i64
    }
}

impl CustomMetric {
    pub fn copy(&self) -> (r: CustomMetric)
        ensures
            r.key@ == self.key@,
            r.value == self.value,
    {
        CustomMetric { key: self.key.clone(), value: self.value }
    }
}

/// Sets `key` to `value` in the extension map, replacing an existing entry.
pub fn set_custom(custom: &mut Vec<CustomMetric>, key: String, value: i64)
    requires
        keys_unique(custom_view(old(custom)@)),
    ensures
        custom_view(final(custom)@) == with_custom(custom_view(old(custom)@), key@, value as int),
        keys_unique(custom_view(final(custom)@)),
{
    let ghost s = custom_view(custom@);
    let mut i: usize = 0;
    while i < custom.len()
        invariant
            0 <= i <= custom.len(),
            custom_view(custom@) == s,
            s == custom_view(old(custom)@),
            keys_unique(s),
            forall|j: int| 0 <= j < i ==> s[j].0 != key@,
        decreases custom.len() - i,
    {
        if custom[i].key == key {
            let ghost idx = i as int;
            custom.set(i, CustomMetric { key, value });
            proof {
                assert(s[idx].0 == key@);
                let c = choose|j: int| 0 <= j < s.len() && s[j].0 == key@;
                assert(c == idx);
                assert(with_custom(s, key@, value as int) == s.update(idx, (key@, value as int)));
                assert(custom_view(custom@) =~= s.update(idx, (key@, value as int)));
                assert forall|a: int, b: int|
                    0 <= a < custom_view(custom@).len() && 0 <= b < custom_view(custom@).len()
                        && custom_view(custom@)[a].0 == custom_view(custom@)[b].0 implies a == b by {
                    if a != idx && b != idx {
                        assert(s[a].0 == s[b].0);
                    } else if a == idx && b != idx {
                        assert(s[b].0 == s[idx].0);
                    } else if b == idx && a != idx {
                        assert(s[a].0 == s[idx].0);
                    }
                }
            }
            return;
        }
        i = i + 1;
    }
    custom.push(CustomMetric { key, value });
    proof {
        assert(custom_view(custom@) =~= s.push((key@, value as int)));
    }
}

impl GeometricMetrics {
    /// Well-formed: the keys of the extension map are unique.
    pub open spec fn wf(&self) -> bool {
        keys_unique(self@.custom)
    }

    /// The baseline snapshot.
    pub fn baseline() -> (r: GeometricMetrics)
        ensures
            r@ == baseline_model(),
            r.wf(),
    {
        let r = GeometricMetrics {
            v_geometric: BASELINE_COHERENCE,
            s_geometric: BASELINE_ENTROPY,
            q_oscillator: BASELINE_WINDING,
            quaternion_coherence: BASELINE_COHERENCE,
            emergent_electron_mass: ELECTRON_MASS,
            fine_structure_constant: FINE_STRUCTURE,
            zitterbewegung_entropy: BASELINE_ENTROPY,
            topological_winding: BASELINE_WINDING,
            custom_metrics: Vec::new(),
        };
        assert(r@.custom =~= Seq::<(Seq<char>, int)>::empty());
        r
    }

    /// A copy of this snapshot.
    pub fn snapshot(&self) -> (r: GeometricMetrics)
        ensures
            r@ == self@,
    {
        let mut custom: Vec<CustomMetric> = Vec::new();
        let mut i: usize = 0;
        while i < self.custom_metrics.len()
            invariant
                0 <= i <= self.custom_metrics.len(),
                custom@.len() == i,
                custom_view(custom@) =~= custom_view(self.custom_metrics@).subrange(0, i as int),
            decreases self.custom_metrics.len() - i,
        {
            let c = self.custom_metrics[i].copy();
            let ghost before = custom@;
            custom.push(c);
            assert(custom@ == before.push(c));
            assert(custom_view(custom@)[i as int] == custom_view(self.custom_metrics@)[i as int]);
            assert(custom_view(custom@) =~= custom_view(self.custom_metrics@).subrange(0, i + 1));
            i = i + 1;
        }
        assert(custom_view(custom@) =~= custom_view(self.custom_metrics@));
        GeometricMetrics {
            v_geometric: self.v_geometric,
            s_geometric: self.s_geometric,
            q_oscillator: self.q_oscillator,
            quaternion_coherence: self.quaternion_coherence,
            emergent_electron_mass: self.emergent_electron_mass,
            fine_structure_constant: self.fine_structure_constant,
            zitterbewegung_entropy: self.zitterbewegung_entropy,
            topological_winding: self.topological_winding,
            custom_metrics: custom,
        }
    }
}

} // verus!
