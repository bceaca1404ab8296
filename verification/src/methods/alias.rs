//! The assertion alias table: each entry delegates to a comparison and
//! turns a `false` outcome into a hard error, so a failing check aborts
//! the evaluation instead of returning `false`.

use vstd::prelude::*;
use vstd::string::*;
use crate::methods::{cores, string};
use crate::strings::str_eq;
use crate::value::{opt_val_view, res_view, vals_view, DewSchemaLanguageResult, ValueData};

verus! {

/// Whether this name is in the alias table.
pub open spec fn spec_has(name: Seq<char>) -> bool {
    ||| name == "assert_case_insensitive_equal"@
    ||| name == "assert_equal"@
    ||| name == "assert_gte"@
    ||| name == "assert_lte"@
}

/// Whether this name is in the alias table.
pub fn contains(name: &str) -> (r: bool)
    ensures
        r == spec_has(name@),
{
    str_eq(name, "assert_case_insensitive_equal") || str_eq(name, "assert_equal") || str_eq(
        name,
        "assert_gte",
    ) || str_eq(name, "assert_lte")
}

/// The names in the alias table.
pub fn functions() -> (r: Vec<String>)
    ensures
        r@.len() == 4,
        forall|i: int| 0 <= i < 4 ==> spec_has(#[trigger] r@[i]@),
{
    let mut v: Vec<String> = Vec::new();
    v.push(String::from_str("assert_case_insensitive_equal"));
    v.push(String::from_str("assert_equal"));
    v.push(String::from_str("assert_gte"));
    v.push(String::from_str("assert_lte"));
    v
}

/// Turns the delegate's outcome into an assertion: an error passes
/// through, a `true` result passes through, and anything else becomes a
/// hard error with the given message.
pub open spec fn spec_assert_wrap(
    base: Result<ValueData, Seq<char>>,
    msg: Seq<char>,
) -> Result<ValueData, Seq<char>> {
    match base {
        Err(m) => Err(m),
        Ok(v) => if v == ValueData::Bool(true) {
            Ok(ValueData::Bool(true))
        } else {
            Err(msg)
        },
    }
}

/// What an alias call yields, by name.
pub open spec fn spec_apply(
    name: Seq<char>,
    args: Seq<ValueData>,
    callee: Option<ValueData>,
) -> Result<ValueData, Seq<char>> {
    if name == "assert_case_insensitive_equal"@ {
        spec_assert_wrap(
            string::spec_ci_equal(args, callee),
            "assert_case_insensitive_equal failed: the values are not case insensitively equal"@,
        )
    } else if name == "assert_equal"@ {
        spec_assert_wrap(
            cores::spec_equal(args, callee),
            "assert_equal failed: the values are not equal"@,
        )
    } else if name == "assert_gte"@ {
        spec_assert_wrap(
            cores::spec_gte(args, callee),
            "assert_gte failed: the callee is not greater than or equal to the argument"@,
        )
    } else {
        spec_assert_wrap(
            cores::spec_lte(args, callee),
            "assert_lte failed: the callee is not less than or equal to the argument"@,
        )
    }
}

/// Passes a `true` result through and makes any other value the given
/// hard error.
fn assert_wrap(base: Result<DewSchemaLanguageResult, String>, msg: &str) -> (r: Result<
    DewSchemaLanguageResult,
    String,
>)
    ensures
        res_view(r) == spec_assert_wrap(res_view(base), msg@),
{
    match base {
        Err(m) => Err(m),
        Ok(v) => match &v {
            DewSchemaLanguageResult::Boolean(b) => {
                if *b {
                    Ok(DewSchemaLanguageResult::Boolean(true))
                } else {
                    Err(String::from_str(msg))
                }
            },
            _ => Err(String::from_str(msg)),
        },
    }
}

/// Invokes the named assertion alias.
pub fn apply(
    name: &str,
    args: &Vec<DewSchemaLanguageResult>,
    callee: Option<&DewSchemaLanguageResult>,
) -> (r: Result<DewSchemaLanguageResult, String>)
    requires
        spec_has(name@),
    ensures
        res_view(r) == spec_apply(name@, vals_view(args@), opt_val_view(callee)),
{
    proof {
        reveal_strlit("assert_case_insensitive_equal");
        reveal_strlit("assert_equal");
        reveal_strlit("assert_gte");
        reveal_strlit("assert_lte");
    }
    if str_eq(name, "assert_case_insensitive_equal") {
        assert_wrap(
            string::case_insensitive_equal(args, callee),
            "assert_case_insensitive_equal failed: the values are not case insensitively equal",
        )
    } else if str_eq(name, "assert_equal") {
        assert_wrap(
            cores::equal(args, callee),
            "assert_equal failed: the values are not equal",
        )
    } else if str_eq(name, "assert_gte") {
        assert_wrap(
            cores::gte(args, callee),
            "assert_gte failed: the callee is not greater than or equal to the argument",
        )
    } else {
        assert_wrap(
            cores::lte(args, callee),
            "assert_lte failed: the callee is not less than or equal to the argument",
        )
    }
}

} // verus!
