//! The math function table: arithmetic over numeric values.

use vstd::prelude::*;
use vstd::string::*;
use crate::num::{
    fp_add, fp_div, fp_mul, fp_parse, fp_sub, num_add, num_div, num_mul, num_sub, parse_number,
    spec_is_zero, is_zero, HUNDRED_BITS,
};
use crate::strings::str_eq;
use crate::value::{lemma_vals_view, opt_val_view, res_view, vals_view, DewSchemaLanguageResult, ValueData};

verus! {

/// Whether this name is in the math table.
pub open spec fn spec_has(name: Seq<char>) -> bool {
    ||| name == "add"@
    ||| name == "divide"@
    ||| name == "multiply"@
    ||| name == "percent"@
    ||| name == "subtract"@
    ||| name == "to_number"@
}

/// Whether this name is in the math table.
pub fn contains(name: &str) -> (r: bool)
    ensures
        r == spec_has(name@),
{
    str_eq(name, "add") || str_eq(name, "divide") || str_eq(name, "multiply") || str_eq(
        name,
        "percent",
    ) || str_eq(name, "subtract") || str_eq(name, "to_number")
}

/// The names in the math table.
pub fn functions() -> (r: Vec<String>)
    ensures
        r@.len() == 6,
        forall|i: int| 0 <= i < 6 ==> spec_has(#[trigger] r@[i]@),
{
    let mut v: Vec<String> = Vec::new();
    v.push(String::from_str("add"));
    v.push(String::from_str("divide"));
    v.push(String::from_str("multiply"));
    v.push(String::from_str("percent"));
    v.push(String::from_str("subtract"));
    v.push(String::from_str("to_number"));
    v
}

/// `add`: the IEEE sum of a numeric callee and a numeric argument.
pub open spec fn spec_add(args: Seq<ValueData>, callee: Option<ValueData>) -> Result<
    ValueData,
    Seq<char>,
> {
    if args.len() != 1 {
        Err("'add' method expects exactly one argument"@)
    } else if callee is None {
        Err("Cannot call 'add' on null"@)
    } else if callee->0 is Num && args[0] is Num {
        Ok(ValueData::Num(fp_add(callee->0->Num_0, args[0]->Num_0)))
    } else {
        Err("'add' method expects numeric arguments"@)
    }
}

/// `subtract`: the IEEE difference of a numeric callee and a numeric
/// argument.
pub open spec fn spec_subtract(args: Seq<ValueData>, callee: Option<ValueData>) -> Result<
    ValueData,
    Seq<char>,
> {
    if args.len() != 1 {
        Err("'subtract' method expects exactly one argument"@)
    } else if callee is None {
        Err("Cannot call 'subtract' on null"@)
    } else if callee->0 is Num && args[0] is Num {
        Ok(ValueData::Num(fp_sub(callee->0->Num_0, args[0]->Num_0)))
    } else {
        Err("'subtract' method expects numeric arguments"@)
    }
}

/// `multiply`: the IEEE product of a numeric callee and a numeric
/// argument.
pub open spec fn spec_multiply(args: Seq<ValueData>, callee: Option<ValueData>) -> Result<
    ValueData,
    Seq<char>,
> {
    if args.len() != 1 {
        Err("'multiply' method expects exactly one argument"@)
    } else if callee is None {
        Err("Cannot call 'multiply' on null"@)
    } else if callee->0 is Num && args[0] is Num {
        Ok(ValueData::Num(fp_mul(callee->0->Num_0, args[0]->Num_0)))
    } else {
        Err("'multiply' method expects numeric arguments"@)
    }
}

/// `divide`: the IEEE quotient of a numeric callee and a numeric
/// argument; an argument equal to zero, of either sign, is a hard error
/// whatever the callee is.
pub open spec fn spec_divide(args: Seq<ValueData>, callee: Option<ValueData>) -> Result<
    ValueData,
    Seq<char>,
> {
    if args.len() != 1 {
        Err("'divide' method expects exactly one argument"@)
    } else if callee is None {
        Err("Cannot call 'divide' on null"@)
    } else if callee->0 is Num && args[0] is Num {
        if spec_is_zero(args[0]->Num_0) {
            Err("Division by zero is not allowed"@)
        } else {
            Ok(ValueData::Num(fp_div(callee->0->Num_0, args[0]->Num_0)))
        }
    } else {
        Err("'divide' method expects numeric arguments"@)
    }
}

/// `percent`: `callee * argument / 100`, in IEEE arithmetic.
pub open spec fn spec_percent(args: Seq<ValueData>, callee: Option<ValueData>) -> Result<
    ValueData,
    Seq<char>,
> {
    if args.len() != 1 {
        Err("'percent' method expects exactly one argument"@)
    } else if callee is None {
        Err("Cannot call 'percent' on null"@)
    } else if callee->0 is Num && args[0] is Num {
        Ok(ValueData::Num(fp_div(fp_mul(callee->0->Num_0, args[0]->Num_0), HUNDRED_BITS)))
    } else {
        Err("'percent' method expects numeric arguments"@)
    }
}

/// `to_number`: a numeric callee passes through; a string callee is
/// parsed as a float, and text that does not parse is a hard error.
pub open spec fn spec_to_number(args: Seq<ValueData>, callee: Option<ValueData>) -> Result<
    ValueData,
    Seq<char>,
> {
    if args.len() != 0 {
        Err("'to_number' method expects no arguments"@)
    } else if callee is None {
        Err("Cannot call 'to_number' on null"@)
    } else if callee->0 is Num {
        Ok(callee->0)
    } else if callee->0 is Str {
        match fp_parse(callee->0->Str_0) {
            Some(bits) => Ok(ValueData::Num(bits)),
            None => Err("'to_number' method expects a number or string"@),
        }
    } else {
        Err("'to_number' method expects a number or string"@)
    }
}

/// What a math call yields, by name.
pub open spec fn spec_apply(
    name: Seq<char>,
    args: Seq<ValueData>,
    callee: Option<ValueData>,
) -> Result<ValueData, Seq<char>> {
    if name == "add"@ {
        spec_add(args, callee)
    } else if name == "divide"@ {
        spec_divide(args, callee)
    } else if name == "multiply"@ {
        spec_multiply(args, callee)
    } else if name == "percent"@ {
        spec_percent(args, callee)
    } else if name == "subtract"@ {
        spec_subtract(args, callee)
    } else {
        spec_to_number(args, callee)
    }
}

/// Pulls the bit patterns out of a numeric callee and argument, or gives
/// the table's type error with the method's name filled in.
fn two_nums(
    args: &Vec<DewSchemaLanguageResult>,
    callee: Option<&DewSchemaLanguageResult>,
) -> (r: Option<(u64, u64)>)
    requires
        args@.len() == 1,
        callee is Some,
    ensures
        r is Some <==> opt_val_view(callee)->0 is Num && vals_view(args@)[0] is Num,
        r is Some ==> (r->0).0 == opt_val_view(callee)->0->Num_0 && (r->0).1 == vals_view(
            args@,
        )[0]->Num_0,
{
    proof {
        lemma_vals_view(args@);
    }
    match callee {
        Some(DewSchemaLanguageResult::Number(c)) => match &args[0] {
            DewSchemaLanguageResult::Number(a) => Some((*c, *a)),
            _ => None,
        },
        _ => None,
    }
}

fn add(args: &Vec<DewSchemaLanguageResult>, callee: Option<&DewSchemaLanguageResult>) -> (r:
    Result<DewSchemaLanguageResult, String>)
    ensures
        res_view(r) == spec_add(vals_view(args@), opt_val_view(callee)),
{
    if args.len() != 1 {
        return Err(String::from_str("'add' method expects exactly one argument"));
    }
    if callee.is_none() {
        return Err(String::from_str("Cannot call 'add' on null"));
    }
    match two_nums(args, callee) {
        Some((c, a)) => Ok(DewSchemaLanguageResult::Number(num_add(c, a))),
        None => Err(String::from_str("'add' method expects numeric arguments")),
    }
}

fn subtract(args: &Vec<DewSchemaLanguageResult>, callee: Option<&DewSchemaLanguageResult>) -> (r:
    Result<DewSchemaLanguageResult, String>)
    ensures
        res_view(r) == spec_subtract(vals_view(args@), opt_val_view(callee)),
{
    if args.len() != 1 {
        return Err(String::from_str("'subtract' method expects exactly one argument"));
    }
    if callee.is_none() {
        return Err(String::from_str("Cannot call 'subtract' on null"));
    }
    match two_nums(args, callee) {
        Some((c, a)) => Ok(DewSchemaLanguageResult::Number(num_sub(c, a))),
        None => Err(String::from_str("'subtract' method expects numeric arguments")),
    }
}

fn multiply(args: &Vec<DewSchemaLanguageResult>, callee: Option<&DewSchemaLanguageResult>) -> (r:
    Result<DewSchemaLanguageResult, String>)
    ensures
        res_view(r) == spec_multiply(vals_view(args@), opt_val_view(callee)),
{
    if args.len() != 1 {
        return Err(String::from_str("'multiply' method expects exactly one argument"));
    }
    if callee.is_none() {
        return Err(String::from_str("Cannot call 'multiply' on null"));
    }
    match two_nums(args, callee) {
        Some((c, a)) => Ok(DewSchemaLanguageResult::Number(num_mul(c, a))),
        None => Err(String::from_str("'multiply' method expects numeric arguments")),
    }
}

fn divide(args: &Vec<DewSchemaLanguageResult>, callee: Option<&DewSchemaLanguageResult>) -> (r:
    Result<DewSchemaLanguageResult, String>)
    ensures
        res_view(r) == spec_divide(vals_view(args@), opt_val_view(callee)),
{
    if args.len() != 1 {
        return Err(String::from_str("'divide' method expects exactly one argument"));
    }
    if callee.is_none() {
        return Err(String::from_str("Cannot call 'divide' on null"));
    }
    match two_nums(args, callee) {
        Some((c, a)) => {
            if is_zero(a) {
                Err(String::from_str("Division by zero is not allowed"))
            } else {
                Ok(DewSchemaLanguageResult::Number(num_div(c, a)))
            }
        },
        None => Err(String::from_str("'divide' method expects numeric arguments")),
    }
}

fn percent(args: &Vec<DewSchemaLanguageResult>, callee: Option<&DewSchemaLanguageResult>) -> (r:
    Result<DewSchemaLanguageResult, String>)
    ensures
        res_view(r) == spec_percent(vals_view(args@), opt_val_view(callee)),
{
    if args.len() != 1 {
        return Err(String::from_str("'percent' method expects exactly one argument"));
    }
    if callee.is_none() {
        return Err(String::from_str("Cannot call 'percent' on null"));
    }
    match two_nums(args, callee) {
        Some((c, a)) => Ok(DewSchemaLanguageResult::Number(num_div(num_mul(c, a), HUNDRED_BITS))),
        None => Err(String::from_str("'percent' method expects numeric arguments")),
    }
}

fn to_number(args: &Vec<DewSchemaLanguageResult>, callee: Option<&DewSchemaLanguageResult>) -> (r:
    Result<DewSchemaLanguageResult, String>)
    ensures
        res_view(r) == spec_to_number(vals_view(args@), opt_val_view(callee)),
{
    if args.len() != 0 {
        return Err(String::from_str("'to_number' method expects no arguments"));
    }
    match callee {
        None => Err(String::from_str("Cannot call 'to_number' on null")),
        Some(DewSchemaLanguageResult::Number(n)) => Ok(DewSchemaLanguageResult::Number(*n)),
        Some(DewSchemaLanguageResult::String(s)) => match parse_number(s.as_str()) {
            Some(bits) => Ok(DewSchemaLanguageResult::Number(bits)),
            None => Err(String::from_str("'to_number' method expects a number or string")),
        },
        Some(_) => Err(String::from_str("'to_number' method expects a number or string")),
    }
}

/// Invokes the named math function.
pub fn apply(
    name: &str,
    args: &Vec<DewSchemaLanguageResult>,
    callee: Option<&DewSchemaLanguageResult>,
) -> (r: Result<DewSchemaLanguageResult, String>)
    requires
        spec_has(name@),
    ensures
        res_view(r) == spec_apply(name@, vals_view(args@), opt_val_view(callee)),
{
    proof {
        reveal_strlit("add");
        reveal_strlit("divide");
        reveal_strlit("multiply");
        reveal_strlit("percent");
        reveal_strlit("subtract");
        reveal_strlit("to_number");
    }
    if str_eq(name, "add") {
        crate::methods::math::add(args, callee)
    } else if str_eq(name, "divide") {
        divide(args, callee)
    } else if str_eq(name, "multiply") {
        multiply(args, callee)
    } else if str_eq(name, "percent") {
        percent(args, callee)
    } else if str_eq(name, "subtract") {
        subtract(args, callee)
    } else {
        to_number(args, callee)
    }
}

} // verus!
