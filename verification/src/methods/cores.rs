//! The core function table: comparisons, boolean accumulation, and JSON
//! parsing of a string value.

use vstd::prelude::*;
use vstd::string::*;
use crate::num::{fp_ge, fp_le, num_ge, num_le};
use crate::strings::str_eq;
use crate::value::{
    coerce_json, coerce_owned, lemma_vals_view, opt_val_view, res_view, vals_view, value_eq,
    DewSchemaLanguageResult, ValueData,
};
use crate::jsontext::{json_parse, parse_document};

verus! {

/// Whether this name is in the core table. The empty name is the table's
/// anonymous grouping entry.
pub open spec fn spec_has(name: Seq<char>) -> bool {
    ||| name == ""@
    ||| name == "and"@
    ||| name == "equal"@
    ||| name == "gte"@
    ||| name == "json"@
    ||| name == "lte"@
    ||| name == "or"@
}

/// Whether this name is in the core table.
pub fn contains(name: &str) -> (r: bool)
    ensures
        r == spec_has(name@),
{
    str_eq(name, "") || str_eq(name, "and") || str_eq(name, "equal") || str_eq(name, "gte")
        || str_eq(name, "json") || str_eq(name, "lte") || str_eq(name, "or")
}

/// The names in the core table.
pub fn functions() -> (r: Vec<String>)
    ensures
        r@.len() == 7,
        forall|i: int| 0 <= i < 7 ==> spec_has(#[trigger] r@[i]@),
{
    let mut v: Vec<String> = Vec::new();
    v.push(String::from_str(""));
    v.push(String::from_str("and"));
    v.push(String::from_str("equal"));
    v.push(String::from_str("gte"));
    v.push(String::from_str("json"));
    v.push(String::from_str("lte"));
    v.push(String::from_str("or"));
    v
}

/// Every value in the sequence is a boolean.
pub open spec fn all_bool(s: Seq<ValueData>) -> bool {
    forall|i: int| 0 <= i < s.len() ==> s[i] is Bool
}

/// Every value in the sequence is the boolean `true`.
pub open spec fn all_true(s: Seq<ValueData>) -> bool {
    forall|i: int| 0 <= i < s.len() ==> s[i] == ValueData::Bool(true)
}

/// The anonymous entry: exactly one argument, no callee, and the argument
/// passes through unchanged.
pub open spec fn spec_group(args: Seq<ValueData>, callee: Option<ValueData>) -> Result<
    ValueData,
    Seq<char>,
> {
    if args.len() != 1 {
        Err("Method expects exactly one argument"@)
    } else if callee is Some {
        Err("Cannot call method on result"@)
    } else {
        Ok(args[0])
    }
}

/// `and`: boolean conjunction of the callee (`true` when absent) with
/// every argument; every operand must be a boolean.
pub open spec fn spec_and(args: Seq<ValueData>, callee: Option<ValueData>) -> Result<
    ValueData,
    Seq<char>,
> {
    if args.len() < 1 {
        Err("'and' method expects at least one argument"@)
    } else {
        let cb = if callee is Some {
            callee->0
        } else {
            ValueData::Bool(true)
        };
        if !(cb is Bool) || !all_bool(args) {
            Err("'and' method expects boolean arguments"@)
        } else {
            Ok(ValueData::Bool(cb == ValueData::Bool(true) && all_true(args)))
        }
    }
}

/// `or`: boolean disjunction of the callee (`false` when absent) with
/// every argument; every operand must be a boolean.
pub open spec fn spec_or(args: Seq<ValueData>, callee: Option<ValueData>) -> Result<
    ValueData,
    Seq<char>,
> {
    if args.len() < 1 {
        Err("'or' method expects at least one argument"@)
    } else {
        let cb = if callee is Some {
            callee->0
        } else {
            ValueData::Bool(false)
        };
        if !(cb is Bool) || !all_bool(args) {
            Err("'or' method expects boolean arguments"@)
        } else {
            Ok(
                ValueData::Bool(
                    cb == ValueData::Bool(true) || exists|i: int|
                        0 <= i < args.len() && args[i] == ValueData::Bool(true),
                ),
            )
        }
    }
}

/// `equal`: structural equality of the callee and the argument, numbers
/// bit for bit.
pub open spec fn spec_equal(args: Seq<ValueData>, callee: Option<ValueData>) -> Result<
    ValueData,
    Seq<char>,
> {
    if args.len() != 1 {
        Err("'equal' method expects exactly one argument"@)
    } else if callee is None {
        Err("Cannot call 'equal' on null"@)
    } else {
        Ok(ValueData::Bool(callee->0 == args[0]))
    }
}

/// `gte`: the IEEE `>=` on a numeric callee and a numeric argument.
pub open spec fn spec_gte(args: Seq<ValueData>, callee: Option<ValueData>) -> Result<
    ValueData,
    Seq<char>,
> {
    if args.len() != 1 {
        Err("'gte' method expects exactly one argument"@)
    } else if callee is None {
        Err("Cannot call 'gte' on null"@)
    } else if callee->0 is Num && args[0] is Num {
        Ok(ValueData::Bool(fp_ge(callee->0->Num_0, args[0]->Num_0)))
    } else {
        Err("'gte' method expects numeric arguments"@)
    }
}

/// `lte`: the IEEE `<=` on a numeric callee and a numeric argument.
pub open spec fn spec_lte(args: Seq<ValueData>, callee: Option<ValueData>) -> Result<
    ValueData,
    Seq<char>,
> {
    if args.len() != 1 {
        Err("'lte' method expects exactly one argument"@)
    } else if callee is None {
        Err("Cannot call 'lte' on null"@)
    } else if callee->0 is Num && args[0] is Num {
        Ok(ValueData::Bool(fp_le(callee->0->Num_0, args[0]->Num_0)))
    } else {
        Err("'lte' method expects numeric arguments"@)
    }
}

/// `json`: parses a string callee as JSON text; primitive scalars — a
/// JSON `null` included — unwrap into their runtime variant, compounds
/// stay boxed, and malformed text is a hard error.
pub open spec fn spec_json(args: Seq<ValueData>, callee: Option<ValueData>) -> Result<
    ValueData,
    Seq<char>,
> {
    if args.len() != 0 {
        Err("'json' method expects no arguments"@)
    } else if callee is None {
        Err("Cannot call 'json' on null"@)
    } else if callee->0 is Str {
        match json_parse(callee->0->Str_0) {
            Some(jd) => Ok(coerce_json(jd)),
            None => Err("Failed to parse JSON"@),
        }
    } else {
        Err("'json' method can only be called on strings"@)
    }
}

/// What a core call yields, by name.
pub open spec fn spec_apply(
    name: Seq<char>,
    args: Seq<ValueData>,
    callee: Option<ValueData>,
) -> Result<ValueData, Seq<char>> {
    if name == ""@ {
        spec_group(args, callee)
    } else if name == "and"@ {
        spec_and(args, callee)
    } else if name == "equal"@ {
        spec_equal(args, callee)
    } else if name == "gte"@ {
        spec_gte(args, callee)
    } else if name == "json"@ {
        spec_json(args, callee)
    } else if name == "lte"@ {
        spec_lte(args, callee)
    } else {
        spec_or(args, callee)
    }
}

fn group(args: &Vec<DewSchemaLanguageResult>, callee: Option<&DewSchemaLanguageResult>) -> (r:
    Result<DewSchemaLanguageResult, String>)
    ensures
        res_view(r) == spec_group(vals_view(args@), opt_val_view(callee)),
{
    if args.len() != 1 {
        return Err(String::from_str("Method expects exactly one argument"));
    }
    if callee.is_some() {
        return Err(String::from_str("Cannot call method on result"));
    }
    proof {
        lemma_vals_view(args@);
    }
    Ok(args[0].clone())
}

fn and(args: &Vec<DewSchemaLanguageResult>, callee: Option<&DewSchemaLanguageResult>) -> (r:
    Result<DewSchemaLanguageResult, String>)
    ensures
        res_view(r) == spec_and(vals_view(args@), opt_val_view(callee)),
{
    if args.len() < 1 {
        return Err(String::from_str("'and' method expects at least one argument"));
    }
    let cb: bool = match callee {
        None => true,
        Some(DewSchemaLanguageResult::Boolean(b)) => *b,
        Some(_) => {
            return Err(String::from_str("'and' method expects boolean arguments"));
        },
    };
    let mut acc = true;
    let mut i: usize = 0;
    while i < args.len()
        invariant
            i <= args@.len(),
            forall|k: int| 0 <= k < i ==> vals_view(args@)[k] is Bool,
            acc == (forall|k: int| 0 <= k < i ==> vals_view(args@)[k] == ValueData::Bool(true)),
        decreases args@.len() - i,
    {
        proof {
            lemma_vals_view(args@);
        }
        match &args[i] {
            DewSchemaLanguageResult::Boolean(b) => {
                proof {
                    assert(vals_view(args@)[i as int] == ValueData::Bool(*b));
                }
                acc = acc && *b;
            },
            _ => {
                proof {
                    assert(!(vals_view(args@)[i as int] is Bool));
                }
                return Err(String::from_str("'and' method expects boolean arguments"));
            },
        }
        i += 1;
    }
    Ok(DewSchemaLanguageResult::Boolean(cb && acc))
}

fn or(args: &Vec<DewSchemaLanguageResult>, callee: Option<&DewSchemaLanguageResult>) -> (r: Result<
    DewSchemaLanguageResult,
    String,
>)
    ensures
        res_view(r) == spec_or(vals_view(args@), opt_val_view(callee)),
{
    if args.len() < 1 {
        return Err(String::from_str("'or' method expects at least one argument"));
    }
    let cb: bool = match callee {
        None => false,
        Some(DewSchemaLanguageResult::Boolean(b)) => *b,
        Some(_) => {
            return Err(String::from_str("'or' method expects boolean arguments"));
        },
    };
    let mut acc = false;
    let mut i: usize = 0;
    while i < args.len()
        invariant
            i <= args@.len(),
            forall|k: int| 0 <= k < i ==> vals_view(args@)[k] is Bool,
            acc == (exists|k: int|
                0 <= k < i && vals_view(args@)[k] == ValueData::Bool(true)),
        decreases args@.len() - i,
    {
        proof {
            lemma_vals_view(args@);
        }
        match &args[i] {
            DewSchemaLanguageResult::Boolean(b) => {
                proof {
                    assert(vals_view(args@)[i as int] == ValueData::Bool(*b));
                }
                acc = acc || *b;
            },
            _ => {
                proof {
                    assert(!(vals_view(args@)[i as int] is Bool));
                }
                return Err(String::from_str("'or' method expects boolean arguments"));
            },
        }
        i += 1;
    }
    Ok(DewSchemaLanguageResult::Boolean(cb || acc))
}

pub(crate) fn equal(args: &Vec<DewSchemaLanguageResult>, callee: Option<&DewSchemaLanguageResult>) -> (r:
    Result<DewSchemaLanguageResult, String>)
    ensures
        res_view(r) == spec_equal(vals_view(args@), opt_val_view(callee)),
{
    if args.len() != 1 {
        return Err(String::from_str("'equal' method expects exactly one argument"));
    }
    proof {
        lemma_vals_view(args@);
    }
    match callee {
        None => Err(String::from_str("Cannot call 'equal' on null")),
        Some(c) => Ok(DewSchemaLanguageResult::Boolean(value_eq(c, &args[0]))),
    }
}

pub(crate) fn gte(args: &Vec<DewSchemaLanguageResult>, callee: Option<&DewSchemaLanguageResult>) -> (r:
    Result<DewSchemaLanguageResult, String>)
    ensures
        res_view(r) == spec_gte(vals_view(args@), opt_val_view(callee)),
{
    if args.len() != 1 {
        return Err(String::from_str("'gte' method expects exactly one argument"));
    }
    proof {
        lemma_vals_view(args@);
    }
    match callee {
        None => Err(String::from_str("Cannot call 'gte' on null")),
        Some(DewSchemaLanguageResult::Number(c)) => match &args[0] {
            DewSchemaLanguageResult::Number(a) => Ok(
                DewSchemaLanguageResult::Boolean(num_ge(*c, *a)),
            ),
            _ => Err(String::from_str("'gte' method expects numeric arguments")),
        },
        Some(_) => Err(String::from_str("'gte' method expects numeric arguments")),
    }
}

pub(crate) fn lte(args: &Vec<DewSchemaLanguageResult>, callee: Option<&DewSchemaLanguageResult>) -> (r:
    Result<DewSchemaLanguageResult, String>)
    ensures
        res_view(r) == spec_lte(vals_view(args@), opt_val_view(callee)),
{
    if args.len() != 1 {
        return Err(String::from_str("'lte' method expects exactly one argument"));
    }
    proof {
        lemma_vals_view(args@);
    }
    match callee {
        None => Err(String::from_str("Cannot call 'lte' on null")),
        Some(DewSchemaLanguageResult::Number(c)) => match &args[0] {
            DewSchemaLanguageResult::Number(a) => Ok(
                DewSchemaLanguageResult::Boolean(num_le(*c, *a)),
            ),
            _ => Err(String::from_str("'lte' method expects numeric arguments")),
        },
        Some(_) => Err(String::from_str("'lte' method expects numeric arguments")),
    }
}

fn json(args: &Vec<DewSchemaLanguageResult>, callee: Option<&DewSchemaLanguageResult>) -> (r:
    Result<DewSchemaLanguageResult, String>)
    ensures
        res_view(r) == spec_json(vals_view(args@), opt_val_view(callee)),
{
    if args.len() != 0 {
        return Err(String::from_str("'json' method expects no arguments"));
    }
    match callee {
        None => Err(String::from_str("Cannot call 'json' on null")),
        Some(DewSchemaLanguageResult::String(s)) => match parse_document(s.as_str()) {
            Some(doc) => Ok(coerce_owned(doc)),
            None => Err(String::from_str("Failed to parse JSON")),
        },
        Some(_) => Err(String::from_str("'json' method can only be called on strings")),
    }
}

/// Invokes the named core function.
pub fn apply(
    name: &str,
    args: &Vec<DewSchemaLanguageResult>,
    callee: Option<&DewSchemaLanguageResult>,
) -> (r: Result<DewSchemaLanguageResult, String>)
    requires
        spec_has(name@),
    ensures
        res_view(r) == spec_apply(name@, vals_view(args@), opt_val_view(callee)),
{
    proof {
        reveal_strlit("");
        reveal_strlit("and");
        reveal_strlit("equal");
        reveal_strlit("gte");
        reveal_strlit("json");
        reveal_strlit("lte");
        reveal_strlit("or");
    }
    if str_eq(name, "") {
        group(args, callee)
    } else if str_eq(name, "and") {
        and(args, callee)
    } else if str_eq(name, "equal") {
        equal(args, callee)
    } else if str_eq(name, "gte") {
        gte(args, callee)
    } else if str_eq(name, "json") {
        json(args, callee)
    } else if str_eq(name, "lte") {
        lte(args, callee)
    } else {
        or(args, callee)
    }
}

} // verus!
