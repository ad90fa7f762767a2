use vstd::prelude::*;
use vstd::string::*;
use crate::metrics::{clamp, saturate, saturating_sum, set_custom, with_custom, GeometricMetrics, MetricsModel, SCALE};

verus! {

/// What a rule adds to the metrics each time it runs. Values are in units of
/// `1 / SCALE`; an absent delta leaves its field alone.
#[derive(Clone, Copy, Debug, PartialEq, Eq, Structural)]
pub struct RuleDeltas {
    pub delta_v: Option<i64>,
    pub delta_s: Option<i64>,
    pub delta_q: Option<i64>,
}

/// A named rule.
#[derive(Debug)]
pub struct Rule {
    pub name: String,
    pub deltas: RuleDeltas,
}

/// The effect of running the rule `name` with `d` once: volume and
/// oscillator quality move by their deltas (saturating), stability moves by
/// its delta within `[0, 1]`, and the extension entry `rule:<name>` is set to 1.
pub open spec fn rule_effect(m: MetricsModel, name: Seq<char>, d: RuleDeltas) -> MetricsModel {
    MetricsModel {
        volume: match d.delta_v { Some(x) => saturate(m.volume + x), None => m.volume },
        stability: match d.delta_s { Some(x) => clamp(m.stability + x, 0, SCALE as int), None => m.stability },
        oscillator: match d.delta_q { Some(x) => saturate(m.oscillator + x), None => m.oscillator },
        custom: with_custom(m.custom, "rule:"@ + name, SCALE as int),
        ..m
    }
}

/// Runs the rules of `rs` in order.
pub open spec fn apply_rules(m: MetricsModel, rs: Seq<(Seq<char>, RuleDeltas)>) -> MetricsModel
    decreases rs.len(),
{
    if rs.len() == 0 {
        m
    } else {
        rule_effect(apply_rules(m, rs.drop_last()), rs.last().0, rs.last().1)
    }
}

pub open spec fn names_unique(rs: Seq<(Seq<char>, RuleDeltas)>) -> bool {
    forall|i: int, j: int| 0 <= i < rs.len() && 0 <= j < rs.len() && rs[i].0 == rs[j].0 ==> i == j
}

pub open spec fn has_rule(rs: Seq<(Seq<char>, RuleDeltas)>, k: Seq<char>) -> bool {
    exists|i: int| 0 <= i < rs.len() && rs[i].0 == k
}

pub open spec fn rule_index(rs: Seq<(Seq<char>, RuleDeltas)>, k: Seq<char>) -> int {
    choose|i: int| 0 <= i < rs.len() && rs[i].0 == k
}

/// The table `rs` with `k` bound to `d`: an existing rule is replaced in
/// place, a new one goes to the end.
pub open spec fn with_rule(rs: Seq<(Seq<char>, RuleDeltas)>, k: Seq<char>, d: RuleDeltas) -> Seq<(Seq<char>, RuleDeltas)> {
    if has_rule(rs, k) {
        rs.update(rule_index(rs, k), (k, d))
    } else {
        rs.push((k, d))
    }
}

/// The table `rs` without the rule `k`.
pub open spec fn without_rule(rs: Seq<(Seq<char>, RuleDeltas)>, k: Seq<char>) -> Seq<(Seq<char>, RuleDeltas)> {
    if has_rule(rs, k) {
        rs.remove(rule_index(rs, k))
    } else {
        rs
    }
}

/// Re-registering a name that is present replaces its rule and keeps the
/// number of rules.
pub proof fn reregister_keeps_size(rs: Seq<(Seq<char>, RuleDeltas)>, k: Seq<char>, d: RuleDeltas)
    requires
        names_unique(rs),
        has_rule(rs, k),
    ensures
        with_rule(rs, k, d).len() == rs.len(),
        has_rule(with_rule(rs, k, d), k),
        with_rule(rs, k, d)[rule_index(with_rule(rs, k, d), k)].1 == d,
{
    let i = rule_index(rs, k);
    let s = with_rule(rs, k, d);
    assert(s[i].0 == k);
    let j = rule_index(s, k);
    if j != i {
        assert(s[j] == rs[j]);
        assert(rs[j].0 == rs[i].0);
    }
}

/// Rules leave mass, entropy, coherence, winding and the fine-structure
/// value alone.
pub proof fn apply_rules_keeps_derived(m: MetricsModel, rs: Seq<(Seq<char>, RuleDeltas)>)
    ensures
        apply_rules(m, rs).mass == m.mass,
        apply_rules(m, rs).entropy == m.entropy,
        apply_rules(m, rs).coherence == m.coherence,
        apply_rules(m, rs).winding == m.winding,
        apply_rules(m, rs).fine_structure == m.fine_structure,
    decreases rs.len(),
{
    if rs.len() > 0 {
        apply_rules_keeps_derived(m, rs.drop_last());
    }
}

/// Running the rules of an empty table changes nothing.
pub proof fn apply_empty_is_identity(m: MetricsModel)
    ensures
        apply_rules(m, Seq::<(Seq<char>, RuleDeltas)>::empty()) == m,
{
}

/// A name-keyed table of rules, run in insertion order.
pub struct GeometricMetricEngine {
    rules: Vec<Rule>,
}

pub open spec fn rules_view(v: Seq<Rule>) -> Seq<(Seq<char>, RuleDeltas)> {
    Seq::new(v.len(), |i: int| (v[i].name@, v[i].deltas))
}

fn apply_deltas(name: &String, d: RuleDeltas, metrics: &mut GeometricMetrics)
    requires
        old(metrics).wf(),
    ensures
        final(metrics).wf(),
        final(metrics)@ == rule_effect(old(metrics)@, name@, d),
{
    if let Some(x) = d.delta_v {
        metrics.v_geometric = saturating_sum(metrics.v_geometric, x);
    }
    if let Some(x) = d.delta_s {
        let s = saturating_sum(metrics.s_geometric, x);
        metrics.s_geometric = if s < 0 { 0 } else if s > SCALE { SCALE } else { s };
        assert(metrics.s_geometric == clamp(old(metrics).s_geometric + x, 0, SCALE as int));
    }
    if let Some(x) = d.delta_q {
        metrics.q_oscillator = saturating_sum(metrics.q_oscillator, x);
    }
    let key = String::from_str("rule:").concat(name.as_str());
    set_custom(&mut metrics.custom_metrics, key, SCALE);
}

impl View for GeometricMetricEngine {
    type V = Seq<(Seq<char>, RuleDeltas)>;

    closed spec fn view(&self) -> Seq<(Seq<char>, RuleDeltas)> {
        rules_view(self.rules@)
    }
}

impl GeometricMetricEngine {
    pub open spec fn wf(&self) -> bool {
        names_unique(self@)
    }

    /// An empty table.
    pub fn new() -> (r: Self)
        ensures
            r@ == Seq::<(Seq<char>, RuleDeltas)>::empty(),
            r.wf(),
    {
        let r = GeometricMetricEngine { rules: Vec::new() };
        assert(r@ =~= Seq::<(Seq<char>, RuleDeltas)>::empty());
        r
    }

    fn find(&self, name: &str) -> (r: Option<usize>)
        ensures
            match r {
                Some(i) => i < self@.len() && self@[i as int].0 == name@,
                None => !has_rule(self@, name@),
            },
    {
        let mut i: usize = 0;
        while i < self.rules.len()
            invariant
                0 <= i <= self.rules.len(),
                self@ == rules_view(self.rules@),
                forall|j: int| 0 <= j < i ==> self@[j].0 != name@,
            decreases self.rules.len() - i,
        {
            if crate::params::same_text(self.rules[i].name.as_str(), name) {
                return Some(i);
            }
            i = i + 1;
        }
        None
    }

    /// Registers `deltas` under `name`, replacing a rule of that name.
    pub fn register_rule(&mut self, name: String, deltas: RuleDeltas)
        requires
            old(self).wf(),
        ensures
            final(self).wf(),
            final(self)@ == with_rule(old(self)@, name@, deltas),
    {
        let ghost rs = self@;
        match self.find(name.as_str()) {
            Some(i) => {
                proof {
                    let c = rule_index(rs, name@);
                    assert(rs[c].0 == rs[i as int].0);
                }
                self.rules.set(i, Rule { name, deltas });
                proof {
                    assert(self@ =~= rs.update(i as int, (name@, deltas)));
                    assert forall|a: int, b: int|
                        0 <= a < self@.len() && 0 <= b < self@.len() && self@[a].0 == self@[b].0 implies a == b by {
                        if a != i && b != i {
                            assert(rs[a].0 == rs[b].0);
                        } else if a == i && b != i {
                            assert(rs[b].0 == rs[i as int].0);
                        } else if b == i && a != i {
                            assert(rs[a].0 == rs[i as int].0);
                        }
                    }
                }
            },
            None => {
                self.rules.push(Rule { name, deltas });
                assert(self@ =~= rs.push((name@, deltas)));
            },
        }
    }

    /// Removes the rule `name`; true when there was one.
    pub fn remove_rule(&mut self, name: &str) -> (r: bool)
        requires
            old(self).wf(),
        ensures
            final(self).wf(),
            r == has_rule(old(self)@, name@),
            final(self)@ == without_rule(old(self)@, name@),
    {
        let ghost rs = self@;
        match self.find(name) {
            Some(i) => {
                proof {
                    let c = rule_index(rs, name@);
                    assert(rs[c].0 == rs[i as int].0);
                }
                self.rules.remove(i);
                proof {
                    assert(self@ =~= rs.remove(i as int));
                    assert forall|a: int, b: int|
                        0 <= a < self@.len() && 0 <= b < self@.len() && self@[a].0 == self@[b].0 implies a == b by {
                        let a0 = if a < i { a } else { a + 1 };
                        let b0 = if b < i { b } else { b + 1 };
                        assert(rs[a0].0 == rs[b0].0);
                    }
                }
                true
            },
            None => false,
        }
    }

    /// Runs the rule `name` on `metrics`; false, with `metrics` unchanged,
    /// when there is no such rule.
    pub fn apply_rule(&self, name: &str, metrics: &mut GeometricMetrics) -> (r: bool)
        requires
            self.wf(),
            old(metrics).wf(),
        ensures
            final(metrics).wf(),
            r == has_rule(self@, name@),
            r ==> final(metrics)@ == rule_effect(old(metrics)@, name@, self@[rule_index(self@, name@)].1),
            !r ==> final(metrics)@ == old(metrics)@,
    {
        match self.find(name) {
            Some(i) => {
                proof {
                    let c = rule_index(self@, name@);
                    assert(self@[c].0 == self@[i as int].0);
                }
                let rule = &self.rules[i];
                apply_deltas(&rule.name, rule.deltas, metrics);
                true
            },
            None => false,
        }
    }

    /// Runs every rule on `metrics`, in insertion order.
    pub fn apply_all(&self, metrics: &mut GeometricMetrics)
        requires
            old(metrics).wf(),
        ensures
            final(metrics).wf(),
            final(metrics)@ == apply_rules(old(metrics)@, self@),
    {
        let mut i: usize = 0;
        while i < self.rules.len()
            invariant
                0 <= i <= self.rules.len(),
                self@ == rules_view(self.rules@),
                metrics.wf(),
                metrics@ == apply_rules(old(metrics)@, self@.subrange(0, i as int)),
            decreases self.rules.len() - i,
        {
            let rule = &self.rules[i];
            apply_deltas(&rule.name, rule.deltas, metrics);
            assert(self@.subrange(0, i as int + 1).drop_last() =~= self@.subrange(0, i as int));
            i = i + 1;
        }
        assert(self@.subrange(0, i as int) =~= self@);
    }

    /// The names of the rules, in insertion order.
    pub fn rule_names(&self) -> (r: Vec<String>)
        ensures
            r@.len() == self@.len(),
            forall|i: int| 0 <= i < r@.len() ==> r@[i]@ == self@[i].0,
    {
        let mut names: Vec<String> = Vec::new();
        let mut i: usize = 0;
        while i < self.rules.len()
            invariant
                0 <= i <= self.rules.len(),
                self@ == rules_view(self.rules@),
                names@.len() == i,
                forall|j: int| 0 <= j < i ==> names@[j]@ == self@[j].0,
            decreases self.rules.len() - i,
        {
            names.push(self.rules[i].name.clone());
            i = i + 1;
        }
        names
    }

    /// Number of rules.
    pub fn len(&self) -> (r: usize)
        ensures
            r == self@.len(),
    {
        self.rules.len()
    }

    /// Whether there are no rules.
    pub fn is_empty(&self) -> (r: bool)
        ensures
            r == (self@.len() == 0),
    {
        self.rules.len() == 0
    }
}

/// A request to register a rule.
#[derive(Debug)]
pub struct RegisterRuleRequest {
    pub name: String,
    pub delta_v: Option<i64>,
    pub delta_s: Option<i64>,
    pub delta_q: Option<i64>,
}

/// The registry's answer to a register or delete request.
#[derive(Clone, Copy, Debug, PartialEq, Eq, Structural)]
pub struct RegisterRuleResponse {
    pub registered: bool,
    pub rule_count: usize,
}

/// Errors of a rule request.
#[derive(Clone, Copy, Debug, PartialEq, Eq, Structural)]
pub enum RuleError {
    /// The rule name is empty or only white space.
    EmptyName,
    /// No rule has the name.
    NotFound,
}

/// The characters Unicode classes as white space (`char::is_whitespace`).
pub open spec fn is_space(c: char) -> bool {
    c == ' ' || c == '\t' || c == '\n' || c == '\r' || c == '\u{0B}' || c == '\u{0C}'
        || c == '\u{85}' || c == '\u{A0}' || c == '\u{1680}'
        || ('\u{2000}' <= c && c <= '\u{200A}')
        || c == '\u{2028}' || c == '\u{2029}' || c == '\u{202F}' || c == '\u{205F}' || c == '\u{3000}'
}

fn space_char(c: char) -> (r: bool)
    ensures
        r == is_space(c),
{
    c == ' ' || c == '\t' || c == '\n' || c == '\r' || c == '\u{0B}' || c == '\u{0C}'
        || c == '\u{85}' || c == '\u{A0}' || c == '\u{1680}'
        || ('\u{2000}' <= c && c <= '\u{200A}')
        || c == '\u{2028}' || c == '\u{2029}' || c == '\u{202F}' || c == '\u{205F}' || c == '\u{3000}'
}

/// The name holds nothing but white space.
pub open spec fn is_blank(s: Seq<char>) -> bool {
    forall|i: int| 0 <= i < s.len() ==> is_space(#[trigger] s[i])
}

fn blank(s: &str) -> (r: bool)
    ensures
        r == is_blank(s@),
{
    let n = s.unicode_len();
    let mut i: usize = 0;
    while i < n
        invariant
            n == s@.len(),
            0 <= i <= n,
            forall|j: int| 0 <= j < i ==> is_space(#[trigger] s@[j]),
        decreases n - i,
    {
        let c = s.get_char(i);
        if !space_char(c) {
            assert(!is_space(s@[i as int]));
            return false;
        }
        i = i + 1;
    }
    true
}

/// Registers the rule a request describes, replacing one of the same name,
/// and reports the number of rules. A blank name is refused.
pub fn register_rule(engine: &mut GeometricMetricEngine, request: RegisterRuleRequest) -> (r: Result<RegisterRuleResponse, RuleError>)
    requires
        old(engine).wf(),
    ensures
        final(engine).wf(),
        is_blank(request.name@) ==> r == Err::<RegisterRuleResponse, RuleError>(RuleError::EmptyName)
            && final(engine)@ == old(engine)@,
        !is_blank(request.name@) ==> final(engine)@ == with_rule(old(engine)@, request.name@,
            RuleDeltas { delta_v: request.delta_v, delta_s: request.delta_s, delta_q: request.delta_q })
            && r == Ok::<RegisterRuleResponse, RuleError>(RegisterRuleResponse { registered: true, rule_count: final(engine)@.len() as usize }),
{
    if blank(request.name.as_str()) {
        return Err(RuleError::EmptyName);
    }
    let deltas = RuleDeltas { delta_v: request.delta_v, delta_s: request.delta_s, delta_q: request.delta_q };
    engine.register_rule(request.name, deltas);
    Ok(RegisterRuleResponse { registered: true, rule_count: engine.len() })
}

/// Removes the rule `name` and reports the number of rules left; an
/// unknown name is an error.
pub fn delete_rule(engine: &mut GeometricMetricEngine, name: &str) -> (r: Result<RegisterRuleResponse, RuleError>)
    requires
        old(engine).wf(),
    ensures
        final(engine).wf(),
        final(engine)@ == without_rule(old(engine)@, name@),
        has_rule(old(engine)@, name@) ==> r == Ok::<RegisterRuleResponse, RuleError>(
            RegisterRuleResponse { registered: false, rule_count: final(engine)@.len() as usize }),
        !has_rule(old(engine)@, name@) ==> r == Err::<RegisterRuleResponse, RuleError>(RuleError::NotFound),
{
    if engine.remove_rule(name) {
        Ok(RegisterRuleResponse { registered: false, rule_count: engine.len() })
    } else {
        Err(RuleError::NotFound)
    }
}

} // verus!
