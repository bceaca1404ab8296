//! The array function table: building arrays, indexing, length, and
//! membership.

use vstd::prelude::*;
use vstd::string::*;
use crate::num::{fp_of_u64, fp_trunc, is_finite, is_zero, num_fract, num_of_u64, num_trunc, spec_fract, spec_is_finite, spec_is_zero};
use crate::strings::str_eq;
use crate::value::{
    coerce, coerce_json, json_clone, json_eq, json_seq_of, lemma_json_seq_of, lemma_vals_view,
    opt_val_view, res_view, vals_view, DewSchemaLanguageResult, JsonData, JsonValue, ValueData,
};

verus! {

/// Whether this name is in the array table.
pub open spec fn spec_has(name: Seq<char>) -> bool {
    ||| name == "array"@
    ||| name == "get_index"@
    ||| name == "length"@
    ||| name == "in"@
}

/// Whether this name is in the array table.
pub fn contains(name: &str) -> (r: bool)
    ensures
        r == spec_has(name@),
{
    str_eq(name, "array") || str_eq(name, "get_index") || str_eq(name, "length") || str_eq(
        name,
        "in",
    )
}

/// The names in the array table.
pub fn functions() -> (r: Vec<String>)
    ensures
        r@.len() == 4,
        forall|i: int| 0 <= i < 4 ==> spec_has(#[trigger] r@[i]@),
{
    let mut v: Vec<String> = Vec::new();
    v.push(String::from_str("array"));
    v.push(String::from_str("get_index"));
    v.push(String::from_str("length"));
    v.push(String::from_str("in"));
    v
}

/// The JSON items that the argument values from `i` on contribute to a
/// built array: a boxed value passes through, a scalar becomes the JSON
/// scalar (a number must be finite), and an error or undefined value
/// cannot enter an array.
pub open spec fn items_from(s: Seq<ValueData>, i: int) -> Result<Seq<JsonData>, Seq<char>>
    decreases s.len() - i,
{
    if i < 0 || i >= s.len() {
        Ok(Seq::empty())
    } else {
        let item = match s[i] {
            ValueData::Json(j) => Ok(j),
            ValueData::Bool(b) => Ok(JsonData::Bool(b)),
            ValueData::Num(n) => if spec_is_finite(n) {
                Ok(JsonData::Float(n))
            } else {
                Err("Invalid number"@)
            },
            ValueData::Str(t) => Ok(JsonData::Str(t)),
            ValueData::Null => Ok(JsonData::Null),
            _ => Err("'array' method expects arguments to be arrays or primitive values"@),
        };
        match item {
            Err(m) => Err(m),
            Ok(j) => match items_from(s, i + 1) {
                Err(m) => Err(m),
                Ok(rest) => Ok(seq![j] + rest),
            },
        }
    }
}

/// `array`: builds a JSON array from the arguments; no callee permitted.
pub open spec fn spec_array(args: Seq<ValueData>, callee: Option<ValueData>) -> Result<
    ValueData,
    Seq<char>,
> {
    if callee is Some {
        Err("Cannot call 'array' on other objects"@)
    } else {
        match items_from(args, 0) {
            Err(m) => Err(m),
            Ok(items) => Ok(ValueData::Json(JsonData::Arr(items))),
        }
    }
}

/// `get_index`: an integral numeric index into an array callee; a
/// negative index counts from the end, and an index out of range in
/// either direction is a hard error.
pub open spec fn spec_get_index(args: Seq<ValueData>, callee: Option<ValueData>) -> Result<
    ValueData,
    Seq<char>,
> {
    if args.len() != 1 {
        Err("'get_index' method expects exactly one argument"@)
    } else if callee is None {
        Err("Cannot call 'get_index' on null"@)
    } else if !(args[0] is Num) {
        Err("'get_index' method expects a number as argument"@)
    } else if !spec_is_zero(spec_fract(args[0]->Num_0)) {
        Err("Index must be an integer"@)
    } else if !(callee->0 matches ValueData::Json(JsonData::Arr(_))) {
        Err("'get_index' method can only be called on arrays"@)
    } else {
        let s = callee->0->Json_0->Arr_0;
        let flex = fp_trunc(args[0]->Num_0) as int;
        if flex < 0 && -flex > s.len() {
            Err("Index out of bounds"@)
        } else {
            let index = if flex < 0 {
                s.len() + flex
            } else {
                flex
            };
            if index >= s.len() {
                Err("Index out of bounds"@)
            } else {
                Ok(coerce_json(s[index]))
            }
        }
    }
}

/// `length`: the element count of an array callee, or the character
/// count of a string callee.
pub open spec fn spec_length(args: Seq<ValueData>, callee: Option<ValueData>) -> Result<
    ValueData,
    Seq<char>,
> {
    if args.len() != 0 {
        Err("'length' method expects no arguments"@)
    } else if callee is None {
        Err("Cannot call 'length' on null"@)
    } else if callee->0 matches ValueData::Json(JsonData::Arr(_)) {
        Ok(ValueData::Num(fp_of_u64(callee->0->Json_0->Arr_0.len() as u64)))
    } else if callee->0 is Str {
        Ok(ValueData::Num(fp_of_u64(callee->0->Str_0.len() as u64)))
    } else {
        Err("'length' method expects an array or string as callee"@)
    }
}

/// `in`: whether the callee occurs in the array argument, under the same
/// structural equality as `equal`.
pub open spec fn spec_in(args: Seq<ValueData>, callee: Option<ValueData>) -> Result<
    ValueData,
    Seq<char>,
> {
    if args.len() != 1 {
        Err("'in' method expects exactly one argument"@)
    } else if callee is None {
        Err("Cannot call 'in' on null"@)
    } else if args[0] matches ValueData::Json(JsonData::Arr(_)) {
        Ok(
            ValueData::Bool(
                exists|k: int|
                    0 <= k < args[0]->Json_0->Arr_0.len() && ValueData::Json(
                        #[trigger] args[0]->Json_0->Arr_0[k],
                    ) == callee->0,
            ),
        )
    } else {
        Err("'in' method expects an array as argument"@)
    }
}

/// What an array-table call yields, by name.
pub open spec fn spec_apply(
    name: Seq<char>,
    args: Seq<ValueData>,
    callee: Option<ValueData>,
) -> Result<ValueData, Seq<char>> {
    if name == "array"@ {
        spec_array(args, callee)
    } else if name == "get_index"@ {
        spec_get_index(args, callee)
    } else if name == "length"@ {
        spec_length(args, callee)
    } else {
        spec_in(args, callee)
    }
}

fn array(args: &Vec<DewSchemaLanguageResult>, callee: Option<&DewSchemaLanguageResult>) -> (r:
    Result<DewSchemaLanguageResult, String>)
    ensures
        res_view(r) == spec_array(vals_view(args@), opt_val_view(callee)),
{
    if callee.is_some() {
        return Err(String::from_str("Cannot call 'array' on other objects"));
    }
    let ghost av = vals_view(args@);
    let mut out: Vec<JsonValue> = Vec::new();
    let mut i: usize = 0;
    while i < args.len()
        invariant
            i <= args@.len(),
            av == vals_view(args@),
            opt_val_view(callee) is None,
            items_from(av, 0) == (match items_from(av, i as int) {
                Ok(rest) => Ok::<Seq<JsonData>, Seq<char>>(json_seq_of(out@) + rest),
                Err(m) => Err(m),
            }),
        decreases args@.len() - i,
    {
        proof {
            lemma_vals_view(args@);
        }
        let ghost out0 = out@;
        match &args[i] {
            DewSchemaLanguageResult::Value(j) => {
                out.push(json_clone(j));
            },
            DewSchemaLanguageResult::Boolean(b) => {
                out.push(JsonValue::Bool(*b));
            },
            DewSchemaLanguageResult::Number(n) => {
                if !is_finite(*n) {
                    return Err(String::from_str("Invalid number"));
                }
                out.push(JsonValue::Float(*n));
            },
            DewSchemaLanguageResult::String(s) => {
                out.push(JsonValue::String(s.clone()));
            },
            DewSchemaLanguageResult::Null => {
                out.push(JsonValue::Null);
            },
            _ => {
                return Err(
                    String::from_str(
                        "'array' method expects arguments to be arrays or primitive values",
                    ),
                );
            },
        }
        i += 1;
        proof {
            lemma_json_seq_of(out@);
            lemma_json_seq_of(out0);
            assert(json_seq_of(out@) =~= json_seq_of(out0).push(out@[out0.len() as int]@));
            let rest = items_from(av, i as int);
            if rest is Ok {
                assert(json_seq_of(out0) + (seq![out@[out0.len() as int]@] + rest->Ok_0)
                    =~= json_seq_of(out@) + rest->Ok_0);
            }
        }
    }
    proof {
        assert(json_seq_of(out@) + Seq::<JsonData>::empty() =~= json_seq_of(out@));
    }
    Ok(DewSchemaLanguageResult::Value(JsonValue::Array(out)))
}

fn get_index(args: &Vec<DewSchemaLanguageResult>, callee: Option<&DewSchemaLanguageResult>) -> (r:
    Result<DewSchemaLanguageResult, String>)
    ensures
        res_view(r) == spec_get_index(vals_view(args@), opt_val_view(callee)),
{
    if args.len() != 1 {
        return Err(String::from_str("'get_index' method expects exactly one argument"));
    }
    let c = match callee {
        None => {
            return Err(String::from_str("Cannot call 'get_index' on null"));
        },
        Some(c) => c,
    };
    proof {
        lemma_vals_view(args@);
    }
    let bits: u64 = match &args[0] {
        DewSchemaLanguageResult::Number(n) => *n,
        _ => {
            return Err(String::from_str("'get_index' method expects a number as argument"));
        },
    };
    if !is_zero(num_fract(bits)) {
        return Err(String::from_str("Index must be an integer"));
    }
    let arr = match c {
        DewSchemaLanguageResult::Value(JsonValue::Array(arr)) => arr,
        _ => {
            return Err(String::from_str("'get_index' method can only be called on arrays"));
        },
    };
    proof {
        lemma_json_seq_of(arr@);
    }
    let flex: i64 = num_trunc(bits);
    if flex < 0 {
        let mag: u64 = (-(flex as i128)) as u64;
        if mag > arr.len() as u64 {
            return Err(String::from_str("Index out of bounds"));
        }
        let index: usize = arr.len() - (mag as usize);
        Ok(coerce(&arr[index]))
    } else {
        if flex as u64 >= arr.len() as u64 {
            return Err(String::from_str("Index out of bounds"));
        }
        let index: usize = flex as usize;
        Ok(coerce(&arr[index]))
    }
}

fn length(args: &Vec<DewSchemaLanguageResult>, callee: Option<&DewSchemaLanguageResult>) -> (r:
    Result<DewSchemaLanguageResult, String>)
    ensures
        res_view(r) == spec_length(vals_view(args@), opt_val_view(callee)),
{
    if args.len() != 0 {
        return Err(String::from_str("'length' method expects no arguments"));
    }
    match callee {
        None => Err(String::from_str("Cannot call 'length' on null")),
        Some(DewSchemaLanguageResult::Value(JsonValue::Array(arr))) => {
            proof {
                lemma_json_seq_of(arr@);
            }
            Ok(DewSchemaLanguageResult::Number(num_of_u64(arr.len() as u64)))
        },
        Some(DewSchemaLanguageResult::String(s)) => {
            let n = s.as_str().unicode_len();
            Ok(DewSchemaLanguageResult::Number(num_of_u64(n as u64)))
        },
        Some(_) => Err(String::from_str("'length' method expects an array or string as callee")),
    }
}

#[verifier::loop_isolation(false)]
fn within(args: &Vec<DewSchemaLanguageResult>, callee: Option<&DewSchemaLanguageResult>) -> (r:
    Result<DewSchemaLanguageResult, String>)
    ensures
        res_view(r) == spec_in(vals_view(args@), opt_val_view(callee)),
{
    if args.len() != 1 {
        return Err(String::from_str("'in' method expects exactly one argument"));
    }
    let c = match callee {
        None => {
            return Err(String::from_str("Cannot call 'in' on null"));
        },
        Some(c) => c,
    };
    proof {
        lemma_vals_view(args@);
    }
    match &args[0] {
        DewSchemaLanguageResult::Value(JsonValue::Array(arr)) => {
            proof {
                lemma_json_seq_of(arr@);
            }
            match c {
                DewSchemaLanguageResult::Value(cj) => {
                    let mut k: usize = 0;
                    while k < arr.len()
                        invariant
                            k <= arr@.len(),
                            forall|t: int| 0 <= t < k ==> arr@[t]@ != cj@,
                        decreases arr@.len() - k,
                    {
                        if json_eq(cj, &arr[k]) {
                            proof {
                                assert(ValueData::Json(json_seq_of(arr@)[k as int]) == opt_val_view(
                                    callee,
                                )->0);
                            }
                            return Ok(DewSchemaLanguageResult::Boolean(true));
                        }
                        k += 1;
                    }
                    Ok(DewSchemaLanguageResult::Boolean(false))
                },
                _ => Ok(DewSchemaLanguageResult::Boolean(false)),
            }
        },
        _ => Err(String::from_str("'in' method expects an array as argument")),
    }
}

/// Invokes the named array function.
pub fn apply(
    name: &str,
    args: &Vec<DewSchemaLanguageResult>,
    callee: Option<&DewSchemaLanguageResult>,
) -> (r: Result<DewSchemaLanguageResult, String>)
    requires
        spec_has(name@),
    ensures
        res_view(r) == spec_apply(name@, vals_view(args@), opt_val_view(callee)),
{
    proof {
        reveal_strlit("array");
        reveal_strlit("get_index");
        reveal_strlit("length");
        reveal_strlit("in");
    }
    if str_eq(name, "array") {
        array(args, callee)
    } else if str_eq(name, "get_index") {
        get_index(args, callee)
    } else if str_eq(name, "length") {
        length(args, callee)
    } else {
        within(args, callee)
    }
}

} // verus!
