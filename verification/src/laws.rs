//! Laws of the value algebra and of method dispatch, stated and proved
//! against the specifications that the executable functions meet.

use vstd::prelude::*;
use crate::engine::{lift_res, spec_dispatch, HostTable, Outcome};
use crate::expression::{expr_toks, expr_wf, lemma_parse_prints, spec_consume, spec_parse};
use crate::methods::{alias, array, cores, math};
use crate::num::{fp_trunc, spec_fract, spec_is_zero};
use crate::tokenizer::{spec_tokenize, TokenData};
use crate::value::{JsonData, ValueData};

verus! {

/// Tokenizing and parsing round-trip: when expression text tokenizes to
/// `ts` and those tokens parse, the parsed AST is well-formed — chains
/// have at least two elements, none of them a chain — and prints back,
/// token for token, to exactly the prefix of `ts` the parser consumed.
pub proof fn lemma_tokenize_parse_round_trip(s: Seq<char>, ts: Seq<TokenData>)
    requires
        spec_tokenize(s) == Ok::<Seq<TokenData>, char>(ts),
        spec_parse(ts, 0) is Ok,
    ensures
        spec_consume(s) == Ok::<crate::expression::ExprData, Seq<char>>(
            spec_parse(ts, 0)->Ok_0.0,
        ),
        expr_wf(spec_parse(ts, 0)->Ok_0.0),
        expr_toks(spec_parse(ts, 0)->Ok_0.0) == ts.subrange(0, spec_parse(ts, 0)->Ok_0.1),
        0 < spec_parse(ts, 0)->Ok_0.1 <= ts.len(),
{
    lemma_parse_prints(ts, 0);
}

/// Every value equals itself under `equal`: same variant, same payload,
/// numbers compared bit for bit with no tolerance.
pub proof fn lemma_equal_reflexive(v: ValueData)
    ensures
        cores::spec_equal(seq![v], Some(v)) == Ok::<ValueData, Seq<char>>(ValueData::Bool(true)),
{
}

/// `equal` on two numbers is exactly bit-for-bit equality of their
/// 64-bit patterns.
pub proof fn lemma_equal_numbers_bitwise(a: u64, b: u64)
    ensures
        cores::spec_equal(seq![ValueData::Num(b)], Some(ValueData::Num(a))) == Ok::<
            ValueData,
            Seq<char>,
        >(ValueData::Bool(a == b)),
{
}

/// On an array of length `N`, `get_index(-1)` and `get_index(N - 1)`
/// yield the same outcome: the last element, or the same error when the
/// array is empty.
pub proof fn lemma_get_index_negative_wraps(items: Seq<JsonData>, b_neg: u64, b_pos: u64)
    requires
        spec_is_zero(spec_fract(b_neg)),
        spec_is_zero(spec_fract(b_pos)),
        fp_trunc(b_neg) == -1,
        fp_trunc(b_pos) == items.len() - 1,
    ensures
        array::spec_get_index(
            seq![ValueData::Num(b_neg)],
            Some(ValueData::Json(JsonData::Arr(items))),
        ) == array::spec_get_index(
            seq![ValueData::Num(b_pos)],
            Some(ValueData::Json(JsonData::Arr(items))),
        ),
{
}

/// On an array of length `N`, both `get_index(N)` and
/// `get_index(-(N + 1))` are the out-of-bounds hard error.
pub proof fn lemma_get_index_out_of_bounds(items: Seq<JsonData>, b: u64)
    requires
        spec_is_zero(spec_fract(b)),
        fp_trunc(b) == items.len() || fp_trunc(b) == -(items.len() as int) - 1,
    ensures
        array::spec_get_index(
            seq![ValueData::Num(b)],
            Some(ValueData::Json(JsonData::Arr(items))),
        ) == Err::<ValueData, Seq<char>>("Index out of bounds"@),
{
}

/// `divide` by an argument equal to zero, of either sign, is a hard
/// error for every numeric callee — a zero callee included.
pub proof fn lemma_divide_by_zero(c: u64, z: u64)
    requires
        spec_is_zero(z),
    ensures
        math::spec_divide(seq![ValueData::Num(z)], Some(ValueData::Num(c))) == Err::<
            ValueData,
            Seq<char>,
        >("Division by zero is not allowed"@),
{
}

/// A registered host function shadows every builtin of the same name:
/// when the host table holds the name, dispatch consults the host
/// function with the evaluated arguments and the callee and no builtin
/// table is reached — the outcome is the host function's own where the
/// table specifies it, and otherwise an unconstrained outcome that
/// records exactly what was handed over.
pub proof fn lemma_host_shadows_builtins<H: HostTable>(
    h: H,
    name: Seq<char>,
    args: Seq<ValueData>,
    callee: Option<ValueData>,
)
    requires
        h.names().contains(name),
    ensures
        h.deterministic() ==> spec_dispatch(name, args, callee, h) == lift_res(
            h.host_outcome(name, args, callee),
        ),
        !h.deterministic() ==> spec_dispatch(name, args, callee, h) == (Outcome::Hosted {
            name,
            args,
            callee,
        }),
{
}

/// A call whose method name a deterministic host table holds evaluates
/// to that host function's own result, applied to the evaluated argument
/// values and the current callee — whatever builtin tables also hold the
/// name.
pub proof fn lemma_call_consults_host<H: HostTable>(
    h: H,
    name: Seq<char>,
    args: Seq<crate::expression::ExprData>,
    root: JsonData,
    callee: Option<ValueData>,
    item: Option<ValueData>,
)
    requires
        h.names().contains(name),
        h.deterministic(),
        crate::engine::spec_eval_args(args, 0, root, item, h) is Vals,
    ensures
        crate::engine::spec_eval(
            crate::expression::ExprData::Call { name, args },
            root,
            callee,
            item,
            h,
        ) == lift_res(
            h.host_outcome(
                name,
                crate::engine::spec_eval_args(args, 0, root, item, h)->Vals_0,
                callee,
            ),
        ),
{
}

/// Without a host function of the name, dispatch falls through to the
/// tables in their fixed order; a name the alias table does not hold but
/// the core table does resolves to the core function.
pub proof fn lemma_core_applies_without_host<H: HostTable>(
    h: H,
    name: Seq<char>,
    args: Seq<ValueData>,
    callee: Option<ValueData>,
)
    requires
        !h.names().contains(name),
        !alias::spec_has(name),
        cores::spec_has(name),
    ensures
        spec_dispatch(name, args, callee, h) == lift_res(cores::spec_apply(name, args, callee)),
{
}

} // verus!
