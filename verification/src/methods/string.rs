//! The string function table. These functions are not in the call
//! dispatch order; the assertion aliases delegate to the comparison here.

use vstd::prelude::*;
use vstd::string::*;
use crate::strings::{chars_vec, str_eq};
use crate::value::{lemma_vals_view, opt_val_view, res_view, vals_view, DewSchemaLanguageResult, ValueData};

verus! {

/// Whether this name is in the string table.
pub open spec fn spec_has(name: Seq<char>) -> bool {
    ||| name == "case_insensitive_equal"@
    ||| name == "concat"@
    ||| name == "to_lowercase"@
    ||| name == "to_uppercase"@
}

/// Whether this name is in the string table.
pub fn contains(name: &str) -> (r: bool)
    ensures
        r == spec_has(name@),
{
    str_eq(name, "case_insensitive_equal") || str_eq(name, "concat") || str_eq(
        name,
        "to_lowercase",
    ) || str_eq(name, "to_uppercase")
}

/// The names in the string table.
pub fn functions() -> (r: Vec<String>)
    ensures
        r@.len() == 4,
        forall|i: int| 0 <= i < 4 ==> spec_has(#[trigger] r@[i]@),
{
    let mut v: Vec<String> = Vec::new();
    v.push(String::from_str("case_insensitive_equal"));
    v.push(String::from_str("concat"));
    v.push(String::from_str("to_lowercase"));
    v.push(String::from_str("to_uppercase"));
    v
}

/// What `str::to_lowercase` returns: the full Unicode lowercase mapping,
/// a function of the characters alone.
pub uninterp spec fn lower_of(s: Seq<char>) -> Seq<char>;

/// What `str::to_uppercase` returns: the full Unicode uppercase mapping,
/// a function of the characters alone.
pub uninterp spec fn upper_of(s: Seq<char>) -> Seq<char>;

/// Relies on `str::to_lowercase`: the result depends on the characters
/// alone.
#[verifier::external_body]
fn lowercase(s: &str) -> (r: String)
    ensures
        r@ == lower_of(s@),
{
    s.to_lowercase()
}

/// Relies on `str::to_uppercase`: the result depends on the characters
/// alone.
#[verifier::external_body]
fn uppercase(s: &str) -> (r: String)
    ensures
        r@ == upper_of(s@),
{
    s.to_uppercase()
}

/// Whether two characters are equal up to ASCII case: equal outright, or
/// an ASCII letter and its other-cased form.
pub open spec fn ascii_eq_char(a: char, b: char) -> bool {
    ||| a == b
    ||| (65 <= a as u32 <= 90 && a as u32 + 32 == b as u32)
    ||| (65 <= b as u32 <= 90 && b as u32 + 32 == a as u32)
}

/// Whether two texts are equal up to ASCII case, character by character.
pub open spec fn spec_ci_eq(x: Seq<char>, y: Seq<char>) -> bool {
    x.len() == y.len() && forall|i: int| 0 <= i < x.len() ==> ascii_eq_char(x[i], y[i])
}

/// Whether two strings are equal up to ASCII case.
pub fn ci_eq(a: &str, b: &str) -> (r: bool)
    ensures
        r == spec_ci_eq(a@, b@),
{
    let xs = chars_vec(a);
    let ys = chars_vec(b);
    if xs.len() != ys.len() {
        return false;
    }
    let mut i: usize = 0;
    while i < xs.len()
        invariant
            i <= xs@.len(),
            xs@ == a@,
            ys@ == b@,
            xs@.len() == ys@.len(),
            forall|k: int| 0 <= k < i ==> ascii_eq_char(a@[k], b@[k]),
        decreases xs@.len() - i,
    {
        let ca = xs[i];
        let cb = ys[i];
        let x = ca as u32;
        let y = cb as u32;
        let same = ca == cb || (65 <= x && x <= 90 && x + 32 == y) || (65 <= y && y <= 90 && y + 32
            == x);
        if !same {
            proof {
                assert(!ascii_eq_char(a@[i as int], b@[i as int]));
            }
            return false;
        }
        proof {
            assert(ascii_eq_char(a@[i as int], b@[i as int]));
        }
        i += 1;
    }
    true
}

/// `case_insensitive_equal`: ASCII case-insensitive comparison of a
/// string callee and a string argument.
pub open spec fn spec_ci_equal(args: Seq<ValueData>, callee: Option<ValueData>) -> Result<
    ValueData,
    Seq<char>,
> {
    if args.len() != 1 {
        Err("'case_insensitive_equal' method expects exactly one argument"@)
    } else if callee is None {
        Err("Cannot call 'case_insensitive_equal' on null"@)
    } else if callee->0 is Str && args[0] is Str {
        Ok(ValueData::Bool(spec_ci_eq(callee->0->Str_0, args[0]->Str_0)))
    } else {
        Err("'case_insensitive_equal' method can only be called on strings"@)
    }
}

/// The concatenation of the first `i` values, all of them strings.
pub open spec fn cat_upto(s: Seq<ValueData>, i: int) -> Seq<char>
    decreases i,
{
    if i <= 0 {
        Seq::empty()
    } else {
        cat_upto(s, i - 1) + (if s[i - 1] is Str {
            s[i - 1]->Str_0
        } else {
            Seq::empty()
        })
    }
}

/// Every value in the sequence is a string.
pub open spec fn all_str(s: Seq<ValueData>) -> bool {
    forall|i: int| 0 <= i < s.len() ==> s[i] is Str
}

/// `concat`: a string callee (or none) followed by every string argument,
/// concatenated in order.
pub open spec fn spec_concat(args: Seq<ValueData>, callee: Option<ValueData>) -> Result<
    ValueData,
    Seq<char>,
> {
    if args.len() < 1 {
        Err("'concat' method expects at least one argument"@)
    } else if callee is Some && !(callee->0 is Str) {
        Err("'concat' method can only be called on strings"@)
    } else if !all_str(args) {
        Err("'concat' method can only be called with string arguments"@)
    } else {
        let prefix = if callee is Some {
            callee->0->Str_0
        } else {
            Seq::empty()
        };
        Ok(ValueData::Str(prefix + cat_upto(args, args.len() as int)))
    }
}

/// `to_lowercase`: the Unicode lowercase mapping of a string callee.
pub open spec fn spec_to_lowercase(args: Seq<ValueData>, callee: Option<ValueData>) -> Result<
    ValueData,
    Seq<char>,
> {
    if args.len() != 0 {
        Err("'to_lowercase' method expects no arguments"@)
    } else if callee is None {
        Err("Cannot call 'to_lowercase' on null"@)
    } else if callee->0 is Str {
        Ok(ValueData::Str(lower_of(callee->0->Str_0)))
    } else {
        Err("'to_lowercase' method can only be called on strings"@)
    }
}

/// `to_uppercase`: the Unicode uppercase mapping of a string callee.
pub open spec fn spec_to_uppercase(args: Seq<ValueData>, callee: Option<ValueData>) -> Result<
    ValueData,
    Seq<char>,
> {
    if args.len() != 0 {
        Err("'to_uppercase' method expects no arguments"@)
    } else if callee is None {
        Err("Cannot call 'to_uppercase' on null"@)
    } else if callee->0 is Str {
        Ok(ValueData::Str(upper_of(callee->0->Str_0)))
    } else {
        Err("'to_uppercase' method can only be called on strings"@)
    }
}

/// What a string-table call yields, by name.
pub open spec fn spec_apply(
    name: Seq<char>,
    args: Seq<ValueData>,
    callee: Option<ValueData>,
) -> Result<ValueData, Seq<char>> {
    if name == "case_insensitive_equal"@ {
        spec_ci_equal(args, callee)
    } else if name == "concat"@ {
        spec_concat(args, callee)
    } else if name == "to_lowercase"@ {
        spec_to_lowercase(args, callee)
    } else {
        spec_to_uppercase(args, callee)
    }
}

/// `case_insensitive_equal` on runtime values; the assertion alias
/// delegates here.
pub fn case_insensitive_equal(
    args: &Vec<DewSchemaLanguageResult>,
    callee: Option<&DewSchemaLanguageResult>,
) -> (r: Result<DewSchemaLanguageResult, String>)
    ensures
        res_view(r) == spec_ci_equal(vals_view(args@), opt_val_view(callee)),
{
    if args.len() != 1 {
        return Err(
            String::from_str("'case_insensitive_equal' method expects exactly one argument"),
        );
    }
    proof {
        lemma_vals_view(args@);
    }
    match callee {
        None => Err(String::from_str("Cannot call 'case_insensitive_equal' on null")),
        Some(DewSchemaLanguageResult::String(c)) => match &args[0] {
            DewSchemaLanguageResult::String(a) => Ok(
                DewSchemaLanguageResult::Boolean(ci_eq(c.as_str(), a.as_str())),
            ),
            _ => Err(
                String::from_str("'case_insensitive_equal' method can only be called on strings"),
            ),
        },
        Some(_) => Err(
            String::from_str("'case_insensitive_equal' method can only be called on strings"),
        ),
    }
}

fn concat(args: &Vec<DewSchemaLanguageResult>, callee: Option<&DewSchemaLanguageResult>) -> (r:
    Result<DewSchemaLanguageResult, String>)
    ensures
        res_view(r) == spec_concat(vals_view(args@), opt_val_view(callee)),
{
    if args.len() < 1 {
        return Err(String::from_str("'concat' method expects at least one argument"));
    }
    let mut acc: String = match callee {
        None => String::new(),
        Some(DewSchemaLanguageResult::String(s)) => s.clone(),
        Some(_) => {
            return Err(String::from_str("'concat' method can only be called on strings"));
        },
    };
    let ghost prefix = acc@;
    let mut i: usize = 0;
    while i < args.len()
        invariant
            i <= args@.len(),
            args@.len() >= 1,
            opt_val_view(callee) is Some ==> opt_val_view(callee)->0 is Str,
            prefix == (if opt_val_view(callee) is Some {
                opt_val_view(callee)->0->Str_0
            } else {
                Seq::<char>::empty()
            }),
            forall|k: int| 0 <= k < i ==> vals_view(args@)[k] is Str,
            acc@ == prefix + cat_upto(vals_view(args@), i as int),
        decreases args@.len() - i,
    {
        proof {
            lemma_vals_view(args@);
        }
        match &args[i] {
            DewSchemaLanguageResult::String(s) => {
                acc.append(s.as_str());
                proof {
                    assert((prefix + cat_upto(vals_view(args@), i as int)) + vals_view(
                        args@,
                    )[i as int]->Str_0 =~= prefix + cat_upto(vals_view(args@), i + 1));
                }
            },
            _ => {
                proof {
                    assert(!(vals_view(args@)[i as int] is Str));
                }
                return Err(
                    String::from_str("'concat' method can only be called with string arguments"),
                );
            },
        }
        i += 1;
    }
    Ok(DewSchemaLanguageResult::String(acc))
}

fn to_lowercase(args: &Vec<DewSchemaLanguageResult>, callee: Option<&DewSchemaLanguageResult>) -> (r:
    Result<DewSchemaLanguageResult, String>)
    ensures
        res_view(r) == spec_to_lowercase(vals_view(args@), opt_val_view(callee)),
{
    if args.len() != 0 {
        return Err(String::from_str("'to_lowercase' method expects no arguments"));
    }
    match callee {
        None => Err(String::from_str("Cannot call 'to_lowercase' on null")),
        Some(DewSchemaLanguageResult::String(s)) => Ok(
            DewSchemaLanguageResult::String(lowercase(s.as_str())),
        ),
        Some(_) => Err(String::from_str("'to_lowercase' method can only be called on strings")),
    }
}

fn to_uppercase(args: &Vec<DewSchemaLanguageResult>, callee: Option<&DewSchemaLanguageResult>) -> (r:
    Result<DewSchemaLanguageResult, String>)
    ensures
        res_view(r) == spec_to_uppercase(vals_view(args@), opt_val_view(callee)),
{
    if args.len() != 0 {
        return Err(String::from_str("'to_uppercase' method expects no arguments"));
    }
    match callee {
        None => Err(String::from_str("Cannot call 'to_uppercase' on null")),
        Some(DewSchemaLanguageResult::String(s)) => Ok(
            DewSchemaLanguageResult::String(uppercase(s.as_str())),
        ),
        Some(_) => Err(String::from_str("'to_uppercase' method can only be called on strings")),
    }
}

/// Invokes the named string function.
pub fn apply(
    name: &str,
    args: &Vec<DewSchemaLanguageResult>,
    callee: Option<&DewSchemaLanguageResult>,
) -> (r: Result<DewSchemaLanguageResult, String>)
    requires
        spec_has(name@),
    ensures
        res_view(r) == spec_apply(name@, vals_view(args@), opt_val_view(callee)),
{
    proof {
        reveal_strlit("case_insensitive_equal");
        reveal_strlit("concat");
        reveal_strlit("to_lowercase");
        reveal_strlit("to_uppercase");
    }
    if str_eq(name, "case_insensitive_equal") {
        case_insensitive_equal(args, callee)
    } else if str_eq(name, "concat") {
        concat(args, callee)
    } else if str_eq(name, "to_lowercase") {
        to_lowercase(args, callee)
    } else {
        to_uppercase(args, callee)
    }
}

} // verus!
