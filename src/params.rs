use vstd::prelude::*;

verus! {

/// A semi-structured parameter payload. Numbers are fixed-point values in
/// units of `1 / SCALE`.
#[derive(Debug)]
pub enum ParamValue {
    Null,
    Bool(bool),
    Number(i64),
    Text(String),
    List(Vec<ParamValue>),
    Object(Vec<ParamEntry>),
}

/// One `key: value` member of an object payload.
#[derive(Debug)]
pub struct ParamEntry {
    pub key: String,
    pub value: ParamValue,
}

/// Index of the first entry named `k`, if any.
pub open spec fn first_key(es: Seq<ParamEntry>, k: Seq<char>) -> Option<int> {
    if exists|i: int| 0 <= i < es.len() && es[i].key@ == k && forall|j: int| 0 <= j < i ==> es[j].key@ != k {
        Some(choose|i: int| 0 <= i < es.len() && es[i].key@ == k && forall|j: int| 0 <= j < i ==> es[j].key@ != k)
    } else {
        None
    }
}

/// The member `k` of an object payload (the first, if the key repeats).
pub open spec fn member(p: ParamValue, k: Seq<char>) -> Option<ParamValue> {
    match p {
        ParamValue::Object(es) => match first_key(es@, k) {
            Some(i) => Some(es@[i].value),
            None => None,
        },
        _ => None,
    }
}

/// The member `k` of an object payload, where it is a number.
pub open spec fn number_member(p: ParamValue, k: Seq<char>) -> Option<int> {
    match member(p, k) {
        Some(ParamValue::Number(n)) => Some(n as int),
        _ => None,
    }
}

/// The member `k` of an object payload, where it is text.
pub open spec fn text_member(p: ParamValue, k: Seq<char>) -> Option<Seq<char>> {
    match member(p, k) {
        Some(ParamValue::Text(t)) => Some(t@),
        _ => None,
    }
}

/// The scalar a payload carries: itself if numeric, else the first numeric
/// member among `magnitude`, `value`, `amount`, `scale`.
pub open spec fn scalar_of(p: ParamValue) -> Option<int> {
    match p {
        ParamValue::Number(n) => Some(n as int),
        ParamValue::Object(_) => if number_member(p, "magnitude"@) is Some {
            number_member(p, "magnitude"@)
        } else if number_member(p, "value"@) is Some {
            number_member(p, "value"@)
        } else if number_member(p, "amount"@) is Some {
            number_member(p, "amount"@)
        } else {
            number_member(p, "scale"@)
        },
        _ => None,
    }
}

/// The first three items of a list as a 3-vector, where all three are numbers.
pub open spec fn axis_of(items: Seq<ParamValue>) -> Option<(i64, i64, i64)> {
    if items.len() >= 3 && items[0] is Number && items[1] is Number && items[2] is Number {
        Some((items[0]->Number_0, items[1]->Number_0, items[2]->Number_0))
    } else {
        None
    }
}

/// Whether two strings hold the same characters.
pub fn same_text(a: &str, b: &str) -> (r: bool)
    ensures
        r == (a@ == b@),
{
    let n = a.unicode_len();
    if n != b.unicode_len() {
        return false;
    }
    let mut i: usize = 0;
    while i < n
        invariant
            n == a@.len(),
            n == b@.len(),
            0 <= i <= n,
            forall|j: int| 0 <= j < i ==> a@[j] == b@[j],
        decreases n - i,
    {
        if a.get_char(i) != b.get_char(i) {
            return false;
        }
        i = i + 1;
    }
    assert(a@ =~= b@);
    true
}

impl ParamValue {
    /// The member `key` of an object payload (the first, if the key repeats).
    pub fn get(&self, key: &str) -> (r: Option<&ParamValue>)
        ensures
            match r {
                Some(v) => member(*self, key@) == Some(*v),
                None => member(*self, key@) is None,
            },
    {
        match self {
            ParamValue::Object(es) => {
                let mut i: usize = 0;
                while i < es.len()
                    invariant
                        0 <= i <= es.len(),
                        *self == ParamValue::Object(*es),
                        forall|j: int| 0 <= j < i ==> es@[j].key@ != key@,
                    decreases es.len() - i,
                {
                    if same_text(es[i].key.as_str(), key) {
                        proof {
                            let w = i as int;
                            assert(0 <= w < es@.len() && es@[w].key@ == key@ && forall|j: int| 0 <= j < w ==> es@[j].key@ != key@);
                            let c = choose|c: int| 0 <= c < es@.len() && es@[c].key@ == key@ && forall|j: int| 0 <= j < c ==> es@[j].key@ != key@;
                            if c < w {
                                assert(es@[c].key@ != key@);
                            } else if c > w {
                                assert(es@[w].key@ != key@);
                            }
                            assert(c == w);
                            assert(first_key(es@, key@) == Some(w));
                        }
                        return Some(&es[i].value);
                    }
                    i = i + 1;
                }
                None
            },
            _ => None,
        }
    }

    /// The member `key` of an object payload, where it is a number.
    pub fn number_at(&self, key: &str) -> (r: Option<i64>)
        ensures
            match r {
                Some(n) => number_member(*self, key@) == Some(n as int),
                None => number_member(*self, key@) is None,
            },
    {
        match self.get(key) {
            Some(ParamValue::Number(n)) => Some(*n),
            _ => None,
        }
    }

    /// The member `key` of an object payload, where it is text.
    pub fn text_at(&self, key: &str) -> (r: Option<&str>)
        ensures
            match r {
                Some(t) => text_member(*self, key@) == Some(t@),
                None => text_member(*self, key@) is None,
            },
    {
        match self.get(key) {
            Some(ParamValue::Text(t)) => Some(t.as_str()),
            _ => None,
        }
    }

    /// The member `key` of an object payload, where it is a list.
    pub fn list_at(&self, key: &str) -> (r: Option<&Vec<ParamValue>>)
        ensures
            match r {
                Some(l) => member(*self, key@) == Some(ParamValue::List(*l)),
                None => !(member(*self, key@) matches Some(ParamValue::List(_))),
            },
    {
        match self.get(key) {
            Some(ParamValue::List(l)) => Some(l),
            _ => None,
        }
    }
}

/// The scalar a payload carries: itself if numeric, else the first numeric
/// member among `magnitude`, `value`, `amount`, `scale`; `None` otherwise.
pub fn extract_scalar(params: &ParamValue) -> (r: Option<i64>)
    ensures
        match r {
            Some(n) => scalar_of(*params) == Some(n as int),
            None => scalar_of(*params) is None,
        },
{
    match params {
        ParamValue::Number(n) => Some(*n),
        ParamValue::Object(_) => {
            let m = params.number_at("magnitude");
            if m.is_some() {
                return m;
            }
            let v = params.number_at("value");
            if v.is_some() {
                return v;
            }
            let a = params.number_at("amount");
            if a.is_some() {
                return a;
            }
            params.number_at("scale")
        },
        _ => None,
    }
}

/// The first three items of `items` as a 3-vector, where all are numbers.
pub fn normalize_axis(items: &Vec<ParamValue>) -> (r: Option<(i64, i64, i64)>)
    ensures
        r == axis_of(items@),
{
    if items.len() < 3 {
        return None;
    }
    match (&items[0], &items[1], &items[2]) {
        (ParamValue::Number(x), ParamValue::Number(y), ParamValue::Number(z)) => Some((*x, *y, *z)),
        _ => None,
    }
}

} // verus!
