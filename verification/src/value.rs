//! The JSON document model and the runtime value algebra.

use vstd::prelude::*;

verus! {

/// Mathematical model of a JSON value. Numbers keep the three shapes a
/// JSON number can take after reading: an unsigned integer, a negative
/// integer, or a 64-bit float held as its bit pattern.
pub enum JsonData {
    Null,
    Bool(bool),
    PosInt(u64),
    NegInt(i64),
    Float(u64),
    Str(Seq<char>),
    Arr(Seq<JsonData>),
    Obj(Seq<(Seq<char>, JsonData)>),
}

/// A JSON value owned by the library. The shape mirrors `JsonData`;
/// an object is a sequence of key-value pairs in document order.
#[derive(Debug, PartialEq)]
pub enum JsonValue {
    Null,
    Bool(bool),
    PosInt(u64),
    NegInt(i64),
    Float(u64),
    String(String),
    Array(Vec<JsonValue>),
    Object(Vec<(String, JsonValue)>),
}

pub open spec fn json_seq_of(s: Seq<JsonValue>) -> Seq<JsonData>
    decreases s,
{
    if s.len() == 0 {
        Seq::empty()
    } else {
        json_seq_of(s.drop_last()).push(json_data_of(s.last()))
    }
}

pub open spec fn json_pairs_of(s: Seq<(String, JsonValue)>) -> Seq<(Seq<char>, JsonData)>
    decreases s,
{
    if s.len() == 0 {
        Seq::empty()
    } else {
        json_pairs_of(s.drop_last()).push((s.last().0@, json_data_of(s.last().1)))
    }
}

pub open spec fn json_data_of(j: JsonValue) -> JsonData
    decreases j,
{
    match j {
        JsonValue::Null => JsonData::Null,
        JsonValue::Bool(b) => JsonData::Bool(b),
        JsonValue::PosInt(n) => JsonData::PosInt(n),
        JsonValue::NegInt(n) => JsonData::NegInt(n),
        JsonValue::Float(bits) => JsonData::Float(bits),
        JsonValue::String(s) => JsonData::Str(s@),
        JsonValue::Array(v) => JsonData::Arr(json_seq_of(v@)),
        JsonValue::Object(v) => JsonData::Obj(json_pairs_of(v@)),
    }
}

impl View for JsonValue {
    type V = JsonData;

    open spec fn view(&self) -> JsonData {
        json_data_of(*self)
    }
}

/// The model of a sequence of JSON values is the pointwise model.
pub proof fn lemma_json_seq_of(s: Seq<JsonValue>)
    ensures
        json_seq_of(s).len() == s.len(),
        forall|i: int| 0 <= i < s.len() ==> json_seq_of(s)[i] == json_data_of(s[i]),
    decreases s.len(),
{
    if s.len() > 0 {
        lemma_json_seq_of(s.drop_last());
        assert forall|i: int| 0 <= i < s.len() implies json_seq_of(s)[i] == json_data_of(
            s[i],
        ) by {
            if i < s.len() - 1 {
                assert(s.drop_last()[i] == s[i]);
            }
        }
    }
}

/// The model of a sequence of object entries is the pointwise model.
pub proof fn lemma_json_pairs_of(s: Seq<(String, JsonValue)>)
    ensures
        json_pairs_of(s).len() == s.len(),
        forall|i: int| 0 <= i < s.len() ==> json_pairs_of(s)[i] == (
            s[i].0@,
            json_data_of(s[i].1),
        ),
    decreases s.len(),
{
    if s.len() > 0 {
        lemma_json_pairs_of(s.drop_last());
        assert forall|i: int| 0 <= i < s.len() implies json_pairs_of(s)[i] == (
            s[i].0@,
            json_data_of(s[i].1),
        ) by {
            if i < s.len() - 1 {
                assert(s.drop_last()[i] == s[i]);
            }
        }
    }
}

/// A deep copy whose model is the same `JsonData`.
#[verifier::loop_isolation(false)]
pub fn json_clone(j: &JsonValue) -> (r: JsonValue)
    ensures
        r@ == j@,
    decreases *j,
{
    match j {
        JsonValue::Null => JsonValue::Null,
        JsonValue::Bool(b) => JsonValue::Bool(*b),
        JsonValue::PosInt(n) => JsonValue::PosInt(*n),
        JsonValue::NegInt(n) => JsonValue::NegInt(*n),
        JsonValue::Float(bits) => JsonValue::Float(*bits),
        JsonValue::String(s) => JsonValue::String(s.clone()),
        JsonValue::Array(v) => {
            let mut out: Vec<JsonValue> = Vec::new();
            let mut i: usize = 0;
            while i < v.len()
                invariant
                    i <= v.len(),
                    out@.len() == i as int,
                    forall|k: int| 0 <= k < i ==> out@[k]@ == v@[k]@,
                decreases v.len() - i,
            {
                let c = json_clone(&v[i]);
                out.push(c);
                i += 1;
            }
            proof {
                lemma_json_seq_of(out@);
                lemma_json_seq_of(v@);
                assert(json_seq_of(out@) =~= json_seq_of(v@));
            }
            JsonValue::Array(out)
        },
        JsonValue::Object(v) => {
            let mut out: Vec<(String, JsonValue)> = Vec::new();
            let mut i: usize = 0;
            while i < v.len()
                invariant
                    i <= v.len(),
                    out@.len() == i as int,
                    forall|k: int| 0 <= k < i ==> out@[k].0@ == v@[k].0@ && out@[k].1@ == v@[k].1@,
                decreases v.len() - i,
            {
                let key = v[i].0.clone();
                let val = json_clone(&v[i].1);
                out.push((key, val));
                i += 1;
            }
            proof {
                lemma_json_pairs_of(out@);
                lemma_json_pairs_of(v@);
                assert(json_pairs_of(out@) =~= json_pairs_of(v@));
            }
            JsonValue::Object(out)
        },
    }
}

impl Clone for JsonValue {
    /// Cloning a JSON value keeps its model.
    fn clone(&self) -> (r: Self)
        ensures
            r@ == self@,
    {
        json_clone(self)
    }
}

/// Whether two JSON values are structurally equal, deciding spec equality
/// of their models. Numbers compare by shape and payload: a float payload
/// is compared bit for bit.
#[verifier::loop_isolation(false)]
pub fn json_eq(a: &JsonValue, b: &JsonValue) -> (r: bool)
    ensures
        r == (a@ == b@),
    decreases *a,
{
    match (a, b) {
        (JsonValue::Null, JsonValue::Null) => true,
        (JsonValue::Bool(x), JsonValue::Bool(y)) => *x == *y,
        (JsonValue::PosInt(x), JsonValue::PosInt(y)) => *x == *y,
        (JsonValue::NegInt(x), JsonValue::NegInt(y)) => *x == *y,
        (JsonValue::Float(x), JsonValue::Float(y)) => *x == *y,
        (JsonValue::String(x), JsonValue::String(y)) => *x == *y,
        (JsonValue::Array(x), JsonValue::Array(y)) => {
            proof {
                lemma_json_seq_of(x@);
                lemma_json_seq_of(y@);
            }
            if x.len() != y.len() {
                return false;
            }
            let mut i: usize = 0;
            while i < x.len()
                invariant
                    i <= x.len(),
                    forall|k: int| 0 <= k < i ==> x@[k]@ == y@[k]@,
                decreases x.len() - i,
            {
                if !json_eq(&x[i], &y[i]) {
                    proof {
                        assert(json_seq_of(x@)[i as int] == json_data_of(x@[i as int]));
                        assert(json_seq_of(y@)[i as int] == json_data_of(y@[i as int]));
                    }
                    return false;
                }
                i += 1;
            }
            proof {
                assert(json_seq_of(x@) =~= json_seq_of(y@));
            }
            true
        },
        (JsonValue::Object(x), JsonValue::Object(y)) => {
            proof {
                lemma_json_pairs_of(x@);
                lemma_json_pairs_of(y@);
            }
            if x.len() != y.len() {
                return false;
            }
            let mut i: usize = 0;
            while i < x.len()
                invariant
                    i <= x.len(),
                    forall|k: int| 0 <= k < i ==> x@[k].0@ == y@[k].0@ && x@[k].1@ == y@[k].1@,
                decreases x.len() - i,
            {
                if !(x[i].0 == y[i].0) {
                    proof {
                        assert(json_pairs_of(x@)[i as int] == (x@[i as int].0@, json_data_of(x@[i as int].1)));
                        assert(json_pairs_of(y@)[i as int] == (y@[i as int].0@, json_data_of(y@[i as int].1)));
                    }
                    return false;
                }
                if !json_eq(&x[i].1, &y[i].1) {
                    proof {
                        assert(json_pairs_of(x@)[i as int] == (x@[i as int].0@, json_data_of(x@[i as int].1)));
                        assert(json_pairs_of(y@)[i as int] == (y@[i as int].0@, json_data_of(y@[i as int].1)));
                    }
                    return false;
                }
                i += 1;
            }
            proof {
                assert(json_pairs_of(x@) =~= json_pairs_of(y@));
            }
            true
        },
        _ => {
            proof {
                assert(a@ != b@);
            }
            false
        },
    }
}

/// Mathematical model of a runtime value.
pub enum ValueData {
    Num(u64),
    Str(Seq<char>),
    Bool(bool),
    Json(JsonData),
    ErrMsg(Seq<char>),
    Null,
    Undef,
}

/// The runtime result algebra of the language: every expression evaluates
/// to one of these. `Number` holds the bit pattern of a 64-bit float;
/// `Value` boxes a compound JSON value; `Error` is a value-level soft
/// failure, distinct from the hard failures that abort evaluation.
#[derive(Debug, PartialEq)]
pub enum DewSchemaLanguageResult {
    Number(u64),
    String(String),
    Boolean(bool),
    Value(JsonValue),
    Error(String),
    Null,
    Undefined,
}

impl View for DewSchemaLanguageResult {
    type V = ValueData;

    open spec fn view(&self) -> ValueData {
        match self {
            DewSchemaLanguageResult::Number(bits) => ValueData::Num(*bits),
            DewSchemaLanguageResult::String(s) => ValueData::Str(s@),
            DewSchemaLanguageResult::Boolean(b) => ValueData::Bool(*b),
            DewSchemaLanguageResult::Value(j) => ValueData::Json(j@),
            DewSchemaLanguageResult::Error(s) => ValueData::ErrMsg(s@),
            DewSchemaLanguageResult::Null => ValueData::Null,
            DewSchemaLanguageResult::Undefined => ValueData::Undef,
        }
    }
}

impl Clone for DewSchemaLanguageResult {
    /// Cloning a runtime value keeps its model.
    fn clone(&self) -> (r: Self)
        ensures
            r@ == self@,
    {
        match self {
            DewSchemaLanguageResult::Number(bits) => DewSchemaLanguageResult::Number(*bits),
            DewSchemaLanguageResult::String(s) => DewSchemaLanguageResult::String(s.clone()),
            DewSchemaLanguageResult::Boolean(b) => DewSchemaLanguageResult::Boolean(*b),
            DewSchemaLanguageResult::Value(j) => DewSchemaLanguageResult::Value(json_clone(j)),
            DewSchemaLanguageResult::Error(s) => DewSchemaLanguageResult::Error(s.clone()),
            DewSchemaLanguageResult::Null => DewSchemaLanguageResult::Null,
            DewSchemaLanguageResult::Undefined => DewSchemaLanguageResult::Undefined,
        }
    }
}

/// Whether two runtime values are structurally equal: same variant, same
/// payload, with numbers compared bit for bit and boxed JSON compared
/// structurally. This is the equality that `equal` and `in` use.
pub fn value_eq(a: &DewSchemaLanguageResult, b: &DewSchemaLanguageResult) -> (r: bool)
    ensures
        r == (a@ == b@),
{
    match (a, b) {
        (DewSchemaLanguageResult::Number(x), DewSchemaLanguageResult::Number(y)) => *x == *y,
        (DewSchemaLanguageResult::String(x), DewSchemaLanguageResult::String(y)) => *x == *y,
        (DewSchemaLanguageResult::Boolean(x), DewSchemaLanguageResult::Boolean(y)) => *x == *y,
        (DewSchemaLanguageResult::Value(x), DewSchemaLanguageResult::Value(y)) => json_eq(x, y),
        (DewSchemaLanguageResult::Error(x), DewSchemaLanguageResult::Error(y)) => *x == *y,
        (DewSchemaLanguageResult::Null, DewSchemaLanguageResult::Null) => true,
        (DewSchemaLanguageResult::Undefined, DewSchemaLanguageResult::Undefined) => true,
        _ => {
            proof {
                assert(a@ != b@);
            }
            false
        },
    }
}

/// How a JSON value read from the document appears to the language:
/// scalars are unwrapped into their matching runtime variant, compound
/// values stay boxed.
pub open spec fn coerce_json(j: JsonData) -> ValueData {
    match j {
        JsonData::Null => ValueData::Null,
        JsonData::Bool(b) => ValueData::Bool(b),
        JsonData::PosInt(n) => ValueData::Num(crate::num::fp_of_u64(n)),
        JsonData::NegInt(n) => ValueData::Num(crate::num::fp_of_i64(n)),
        JsonData::Float(bits) => ValueData::Num(bits),
        JsonData::Str(s) => ValueData::Str(s),
        JsonData::Arr(_) => ValueData::Json(j),
        JsonData::Obj(_) => ValueData::Json(j),
    }
}

/// The models of a sequence of runtime values.
pub open spec fn vals_view(s: Seq<DewSchemaLanguageResult>) -> Seq<ValueData> {
    Seq::new(s.len(), |i: int| s[i]@)
}

/// The model of a sequence of runtime values is the pointwise model.
pub proof fn lemma_vals_view(s: Seq<DewSchemaLanguageResult>)
    ensures
        vals_view(s).len() == s.len(),
        forall|i: int| 0 <= i < s.len() ==> vals_view(s)[i] == s[i]@,
{
}

/// The model of an optional callee.
pub open spec fn opt_val_view(c: Option<&DewSchemaLanguageResult>) -> Option<ValueData> {
    match c {
        Some(v) => Some(v@),
        None => None,
    }
}

/// The model of a call's outcome: a value or a hard error message.
pub open spec fn res_view(r: Result<DewSchemaLanguageResult, String>) -> Result<
    ValueData,
    Seq<char>,
> {
    match r {
        Ok(v) => Ok(v@),
        Err(m) => Err(m@),
    }
}

/// Unwraps a scalar JSON value into its runtime variant and boxes a
/// compound one, taking ownership; every primitive scalar unwraps, a
/// JSON `null` included.
pub fn coerce_owned(j: JsonValue) -> (r: DewSchemaLanguageResult)
    ensures
        r@ == coerce_json(j@),
{
    match j {
        JsonValue::Null => DewSchemaLanguageResult::Null,
        JsonValue::Bool(b) => DewSchemaLanguageResult::Boolean(b),
        JsonValue::PosInt(n) => DewSchemaLanguageResult::Number(crate::num::num_of_u64(n)),
        JsonValue::NegInt(n) => DewSchemaLanguageResult::Number(crate::num::num_of_i64(n)),
        JsonValue::Float(bits) => DewSchemaLanguageResult::Number(bits),
        JsonValue::String(s) => DewSchemaLanguageResult::String(s),
        JsonValue::Array(_) => DewSchemaLanguageResult::Value(j),
        JsonValue::Object(_) => DewSchemaLanguageResult::Value(j),
    }
}

/// Unwraps a scalar JSON value into its runtime variant and boxes a
/// compound one, cloning out of the document.
pub fn coerce(j: &JsonValue) -> (r: DewSchemaLanguageResult)
    ensures
        r@ == coerce_json(j@),
{
    match j {
        JsonValue::Null => DewSchemaLanguageResult::Null,
        JsonValue::Bool(b) => DewSchemaLanguageResult::Boolean(*b),
        JsonValue::PosInt(n) => DewSchemaLanguageResult::Number(crate::num::num_of_u64(*n)),
        JsonValue::NegInt(n) => DewSchemaLanguageResult::Number(crate::num::num_of_i64(*n)),
        JsonValue::Float(bits) => DewSchemaLanguageResult::Number(*bits),
        JsonValue::String(s) => DewSchemaLanguageResult::String(s.clone()),
        JsonValue::Array(_) => DewSchemaLanguageResult::Value(json_clone(j)),
        JsonValue::Object(_) => DewSchemaLanguageResult::Value(json_clone(j)),
    }
}

} // verus!
