//! The engine: a parsed-once root document, a host function table, and
//! the tree-walking evaluator.

use vstd::prelude::*;
use vstd::string::*;
use crate::expression::{spec_consume, DewSchemaLanguageExpression, DewSchemaLanguageParser, ExprData};
use crate::jsontext::{json_parse, parse_document};
use crate::methods::{alias, array, cores, math};
use crate::num::{fp_parse, parse_number};
use crate::strings::str_eq;
use crate::value::{
    coerce, coerce_json, json_pairs_of, lemma_json_pairs_of, lemma_vals_view, opt_val_view,
    res_view, vals_view, JsonData, JsonValue, ValueData,
};

pub use crate::value::DewSchemaLanguageResult;

verus! {

/// The outcome of an evaluation, as the specification sees it: a value,
/// a hard error message, or an outcome that consulted a host function
/// whose behavior the table does not specify. A `Hosted` outcome records
/// what the evaluation handed to that first consultation — the method
/// name, the evaluated arguments and the callee — but claims nothing of
/// what came back, since such host functions may behave arbitrarily. A
/// table that does specify its behavior (`HostTable::deterministic`)
/// never produces a `Hosted` outcome: dispatch yields the host's own
/// result and evaluation stays fully determined.
pub enum Outcome {
    Val(ValueData),
    Fail(Seq<char>),
    Hosted { name: Seq<char>, args: Seq<ValueData>, callee: Option<ValueData> },
}

/// The outcome of evaluating a call's argument list.
pub enum ArgsOutcome {
    Vals(Seq<ValueData>),
    AFail(Seq<char>),
    AHosted { name: Seq<char>, args: Seq<ValueData>, callee: Option<ValueData> },
}

/// A table of caller-supplied host functions, keyed by name. Host
/// functions take the evaluated arguments and the current callee, and
/// their names shadow every builtin of the same name.
pub trait HostTable: Sized {
    /// The names this table answers to.
    spec fn names(&self) -> Set<Seq<char>>;

    /// Whether `host_outcome` fully describes what `call` returns. A
    /// table of arbitrary embedder code answers `false`, and evaluations
    /// that consult it promise nothing of their result; a table that can
    /// say what its functions return answers `true`, and evaluations
    /// through it stay fully specified.
    spec fn deterministic(&self) -> bool;

    /// What the named host function returns on these inputs, when the
    /// table is deterministic.
    spec fn host_outcome(
        &self,
        name: Seq<char>,
        args: Seq<ValueData>,
        callee: Option<ValueData>,
    ) -> Result<ValueData, Seq<char>>;

    /// Whether the table holds a function with this name.
    fn contains(&self, name: &str) -> (r: bool)
        ensures
            r == self.names().contains(name@),
    ;

    /// Invokes the named host function. A returned error aborts the
    /// enclosing evaluation, like any other hard error.
    fn call(
        &self,
        name: &str,
        args: Vec<DewSchemaLanguageResult>,
        callee: Option<&DewSchemaLanguageResult>,
    ) -> (r: Result<DewSchemaLanguageResult, String>)
        requires
            self.names().contains(name@),
        ensures
            self.deterministic() ==> res_view(r) == self.host_outcome(
                name@,
                vals_view(args@),
                opt_val_view(callee),
            ),
    ;
}

/// The value of the first entry with this key, scanning from `i`.
pub open spec fn obj_lookup_from(
    pairs: Seq<(Seq<char>, JsonData)>,
    key: Seq<char>,
    i: int,
) -> Option<JsonData>
    decreases pairs.len() - i,
{
    if i < 0 || i >= pairs.len() {
        None
    } else if pairs[i].0 == key {
        Some(pairs[i].1)
    } else {
        obj_lookup_from(pairs, key, i + 1)
    }
}

/// The value under this key in an object, if any.
pub open spec fn obj_lookup(pairs: Seq<(Seq<char>, JsonData)>, key: Seq<char>) -> Option<
    JsonData,
> {
    obj_lookup_from(pairs, key, 0)
}

/// A registry call's result as an evaluation outcome.
pub open spec fn lift_res(res: Result<ValueData, Seq<char>>) -> Outcome {
    match res {
        Ok(v) => Outcome::Val(v),
        Err(m) => Outcome::Fail(m),
    }
}

/// Resolves a method name against the registries in precedence order —
/// host functions first, then assertion aliases, core, math, and array —
/// and applies the winner. A name the host table holds goes to the host
/// function with the evaluated arguments and the callee: its own result
/// when the table specifies one, an unconstrained `Hosted` outcome
/// recording those inputs otherwise. A name no table holds is a hard
/// error.
pub open spec fn spec_dispatch<H: HostTable>(
    name: Seq<char>,
    args: Seq<ValueData>,
    callee: Option<ValueData>,
    h: H,
) -> Outcome {
    if h.names().contains(name) {
        if h.deterministic() {
            lift_res(h.host_outcome(name, args, callee))
        } else {
            Outcome::Hosted { name, args, callee }
        }
    } else if alias::spec_has(name) {
        lift_res(alias::spec_apply(name, args, callee))
    } else if cores::spec_has(name) {
        lift_res(cores::spec_apply(name, args, callee))
    } else if math::spec_has(name) {
        lift_res(math::spec_apply(name, args, callee))
    } else if array::spec_has(name) {
        lift_res(array::spec_apply(name, args, callee))
    } else {
        Outcome::Fail("Unknown method: "@ + name)
    }
}

/// What one expression evaluates to, against a root document, a current
/// callee, a current item binding, and the set of host function names.
pub open spec fn spec_eval<H: HostTable>(
    e: ExprData,
    root: JsonData,
    callee: Option<ValueData>,
    item: Option<ValueData>,
    hosts: H,
) -> Outcome
    decreases e, 0int,
{
    match e {
        ExprData::Number(text) => match fp_parse(text) {
            Some(bits) => Outcome::Val(ValueData::Num(bits)),
            None => Outcome::Fail("invalid float literal"@),
        },
        ExprData::StringLiteral(s) => Outcome::Val(ValueData::Str(s)),
        ExprData::Identifier(name) => {
            if callee is None && name == "$"@ {
                Outcome::Val(coerce_json(root))
            } else if callee is None && name == "item"@ {
                match item {
                    Some(v) => Outcome::Val(v),
                    None => Outcome::Fail("No active item binding"@),
                }
            } else if callee is None {
                Outcome::Fail("Unknown identifier: "@ + name)
            } else if callee->0 matches ValueData::Json(JsonData::Obj(_)) {
                match obj_lookup(callee->0->Json_0->Obj_0, name) {
                    Some(v) => Outcome::Val(coerce_json(v)),
                    None => Outcome::Val(ValueData::Undef),
                }
            } else {
                Outcome::Fail("Cannot access property '"@ + name + "' on non-object"@)
            }
        },
        ExprData::Call { name, args } => match spec_eval_args(args, 0, root, item, hosts) {
            ArgsOutcome::AFail(m) => Outcome::Fail(m),
            ArgsOutcome::AHosted { name: hn, args: ha, callee: hc } => Outcome::Hosted {
                name: hn,
                args: ha,
                callee: hc,
            },
            ArgsOutcome::Vals(vs) => spec_dispatch(name, vs, callee, hosts),
        },
        ExprData::Chain(elems) => {
            if elems.len() == 0 {
                Outcome::Fail("Empty chain"@)
            } else {
                match spec_eval(elems[0], root, callee, item, hosts) {
                    Outcome::Val(v) => spec_eval_chain(elems, 1, v, root, item, hosts),
                    Outcome::Fail(m) => Outcome::Fail(m),
                    hosted => hosted,
                }
            }
        },
    }
}

/// The values of a call's arguments from `i` on, each evaluated with no
/// callee and the same item binding; the first hard error aborts, and any
/// host involvement makes the whole list's outcome hosted.
pub open spec fn spec_eval_args<H: HostTable>(
    args: Seq<ExprData>,
    i: int,
    root: JsonData,
    item: Option<ValueData>,
    hosts: H,
) -> ArgsOutcome
    decreases args, args.len() - i,
{
    if i < 0 || i >= args.len() {
        ArgsOutcome::Vals(Seq::empty())
    } else {
        match spec_eval(args[i], root, None, item, hosts) {
            Outcome::Fail(m) => ArgsOutcome::AFail(m),
            Outcome::Hosted { name: hn, args: ha, callee: hc } => ArgsOutcome::AHosted {
                name: hn,
                args: ha,
                callee: hc,
            },
            Outcome::Val(v) => match spec_eval_args(args, i + 1, root, item, hosts) {
                ArgsOutcome::AFail(m) => ArgsOutcome::AFail(m),
                ArgsOutcome::Vals(rest) => ArgsOutcome::Vals(seq![v] + rest),
                hosted => hosted,
            },
        }
    }
}

/// Folds the rest of a chain from element `i` on: each element is
/// evaluated with the accumulated value as its callee.
pub open spec fn spec_eval_chain<H: HostTable>(
    elems: Seq<ExprData>,
    i: int,
    cur: ValueData,
    root: JsonData,
    item: Option<ValueData>,
    hosts: H,
) -> Outcome
    decreases elems, elems.len() - i,
{
    if i < 1 || i >= elems.len() {
        Outcome::Val(cur)
    } else {
        match spec_eval(elems[i], root, Some(cur), item, hosts) {
            Outcome::Val(v) => spec_eval_chain(elems, i + 1, v, root, item, hosts),
            Outcome::Fail(m) => Outcome::Fail(m),
            hosted => hosted,
        }
    }
}

/// What evaluating expression text against a root document means: parse
/// it, then evaluate it with no callee and no item binding.
pub open spec fn spec_evaluate<H: HostTable>(s: Seq<char>, root: JsonData, hosts: H) -> Outcome {
    match spec_consume(s) {
        Err(m) => Outcome::Fail(m),
        Ok(e) => spec_eval(e, root, None, None, hosts),
    }
}

/// Whether an evaluation's returned value agrees with the specified
/// outcome. A hosted outcome constrains nothing: an unspecified host
/// function's behavior is the embedder's.
pub open spec fn eval_matches(out: Outcome, r: Result<DewSchemaLanguageResult, String>) -> bool {
    match out {
        Outcome::Val(v) => r is Ok && r->Ok_0@ == v,
        Outcome::Fail(m) => r is Err && r->Err_0@ == m,
        Outcome::Hosted { .. } => true,
    }
}

/// The engine: owns the root document bound to `$` and the host function
/// table, both immutable after construction, and evaluates expression
/// text against them.
pub struct DewSchemaLanguageEngine<H: HostTable> {
    root_object: JsonValue,
    host_functions: H,
}

impl<H: HostTable> DewSchemaLanguageEngine<H> {
    /// The model of the root document.
    pub closed spec fn root(&self) -> JsonData {
        self.root_object@
    }

    /// The host function table.
    pub closed spec fn table(&self) -> H {
        self.host_functions
    }

    /// Builds an engine over the given JSON document text and host
    /// functions. Text that is not valid JSON is a construction error.
    pub fn new(root_object_json: String, host_functions: H) -> (r: Result<Self, String>)
        ensures
            r is Ok <==> json_parse(root_object_json@) is Some,
            r is Ok ==> r->Ok_0.root() == json_parse(root_object_json@)->0 && r->Ok_0.table()
                == host_functions,
            r is Err ==> r->Err_0@ == "Invalid JSON document"@,
    {
        match parse_document(root_object_json.as_str()) {
            Some(root_object) => Ok(DewSchemaLanguageEngine { root_object, host_functions }),
            None => Err(String::from_str("Invalid JSON document")),
        }
    }

    /// Tokenizes, parses and evaluates one expression against the root
    /// document. Each call starts from scratch; nothing is kept between
    /// calls.
    pub fn evaluate(&self, expression_str: String) -> (r: Result<DewSchemaLanguageResult, String>)
        ensures
            eval_matches(spec_evaluate(expression_str@, self.root(), self.table()), r),
    {
        match DewSchemaLanguageParser::consume(expression_str.as_str()) {
            Err(m) => Err(m),
            Ok(expression) => self.evaluate_atom(&expression, None, None),
        }
    }

    /// Evaluates one AST node against the current callee and item
    /// binding.
    #[verifier::loop_isolation(false)]
    fn evaluate_atom(
        &self,
        expression: &DewSchemaLanguageExpression,
        callee: Option<&DewSchemaLanguageResult>,
        iterable_item: Option<&DewSchemaLanguageResult>,
    ) -> (r: Result<DewSchemaLanguageResult, String>)
        ensures
            eval_matches(
                spec_eval(
                    expression@,
                    self.root(),
                    opt_val_view(callee),
                    opt_val_view(iterable_item),
                    self.table(),
                ),
                r,
            ),
        decreases expression,
    {
        match expression {
            DewSchemaLanguageExpression::Number(num_str) => match parse_number(num_str.as_str()) {
                Some(bits) => Ok(DewSchemaLanguageResult::Number(bits)),
                None => Err(String::from_str("invalid float literal")),
            },
            DewSchemaLanguageExpression::StringLiteral(s) => Ok(
                DewSchemaLanguageResult::String(s.clone()),
            ),
            DewSchemaLanguageExpression::Identifier(identifier) => {
                if callee.is_none() && str_eq(identifier.as_str(), "$") {
                    Ok(coerce(&self.root_object))
                } else if callee.is_none() && str_eq(identifier.as_str(), "item") {
                    match iterable_item {
                        Some(v) => Ok(v.clone()),
                        None => Err(String::from_str("No active item binding")),
                    }
                } else if callee.is_none() {
                    let mut m = String::from_str("Unknown identifier: ");
                    m.append(identifier.as_str());
                    Err(m)
                } else {
                    match callee {
                        Some(DewSchemaLanguageResult::Value(JsonValue::Object(map))) => {
                            proof {
                                lemma_json_pairs_of(map@);
                            }
                            let ghost pairs = json_pairs_of(map@);
                            let mut i: usize = 0;
                            while i < map.len()
                                invariant
                                    i <= map@.len(),
                                    pairs == json_pairs_of(map@),
                                    pairs.len() == map@.len(),
                                    forall|k: int| 0 <= k < map@.len() ==> pairs[k] == (
                                        map@[k].0@,
                                        map@[k].1@,
                                    ),
                                    obj_lookup(pairs, identifier@) == obj_lookup_from(
                                        pairs,
                                        identifier@,
                                        i as int,
                                    ),
                                decreases map@.len() - i,
                            {
                                if str_eq(map[i].0.as_str(), identifier.as_str()) {
                                    return Ok(coerce(&map[i].1));
                                }
                                i += 1;
                            }
                            Ok(DewSchemaLanguageResult::Undefined)
                        },
                        _ => {
                            let mut m = String::from_str("Cannot access property '");
                            m.append(identifier.as_str());
                            m.append("' on non-object");
                            Err(m)
                        },
                    }
                }
            },
            DewSchemaLanguageExpression::Call { method_name, args } => {
                let ghost av = crate::expression::expr_seq_of(args@);
                let ghost goal = spec_eval_args(
                    av,
                    0,
                    self.root(),
                    opt_val_view(iterable_item),
                    self.table(),
                );
                proof {
                    crate::expression::lemma_expr_seq_of(args@);
                }
                let mut evaluated_args: Vec<DewSchemaLanguageResult> = Vec::new();
                let mut i: usize = 0;
                while i < args.len()
                    invariant
                        i <= args@.len(),
                        av == crate::expression::expr_seq_of(args@),
                        av.len() == args@.len(),
                        forall|k: int| 0 <= k < args@.len() ==> av[k] == args@[k]@,
                        goal == spec_eval_args(
                            av,
                            0,
                            self.root(),
                            opt_val_view(iterable_item),
                            self.table(),
                        ),
                        goal is AHosted || goal == (match spec_eval_args(
                            av,
                            i as int,
                            self.root(),
                            opt_val_view(iterable_item),
                            self.table(),
                        ) {
                            ArgsOutcome::Vals(rest) => ArgsOutcome::Vals(
                                vals_view(evaluated_args@) + rest,
                            ),
                            ArgsOutcome::AFail(m) => ArgsOutcome::AFail(m),
                            hosted => hosted,
                        }),
                    decreases args@.len() - i,
                {
                    let ghost ev0 = evaluated_args@;
                    match self.evaluate_atom(&args[i], None, iterable_item) {
                        Err(m) => {
                            return Err(m);
                        },
                        Ok(v) => {
                            evaluated_args.push(v);
                        },
                    }
                    i += 1;
                    proof {
                        lemma_vals_view(evaluated_args@);
                        lemma_vals_view(ev0);
                        assert(vals_view(evaluated_args@) =~= vals_view(ev0).push(
                            evaluated_args@[ev0.len() as int]@,
                        ));
                        let rest = spec_eval_args(
                            av,
                            i as int,
                            self.root(),
                            opt_val_view(iterable_item),
                            self.table(),
                        );
                        if rest is Vals {
                            assert(vals_view(ev0) + (seq![
                                evaluated_args@[ev0.len() as int]@,
                            ] + rest->Vals_0) =~= vals_view(evaluated_args@) + rest->Vals_0);
                        }
                    }
                }
                proof {
                    assert(vals_view(evaluated_args@) + Seq::<ValueData>::empty() =~= vals_view(
                        evaluated_args@,
                    ));
                }
                if self.host_functions.contains(method_name.as_str()) {
                    self.host_functions.call(method_name.as_str(), evaluated_args, callee)
                } else if alias::contains(method_name.as_str()) {
                    alias::apply(method_name.as_str(), &evaluated_args, callee)
                } else if cores::contains(method_name.as_str()) {
                    cores::apply(method_name.as_str(), &evaluated_args, callee)
                } else if math::contains(method_name.as_str()) {
                    math::apply(method_name.as_str(), &evaluated_args, callee)
                } else if array::contains(method_name.as_str()) {
                    array::apply(method_name.as_str(), &evaluated_args, callee)
                } else {
                    let mut m = String::from_str("Unknown method: ");
                    m.append(method_name.as_str());
                    Err(m)
                }
            },
            DewSchemaLanguageExpression::Chain(chains) => {
                let ghost es = crate::expression::expr_seq_of(chains@);
                let ghost goal = spec_eval(
                    expression@,
                    self.root(),
                    opt_val_view(callee),
                    opt_val_view(iterable_item),
                    self.table(),
                );
                proof {
                    crate::expression::lemma_expr_seq_of(chains@);
                }
                if chains.len() == 0 {
                    return Err(String::from_str("Empty chain"));
                }
                let mut current: DewSchemaLanguageResult;
                match self.evaluate_atom(&chains[0], callee, iterable_item) {
                    Err(m) => {
                        return Err(m);
                    },
                    Ok(v) => {
                        current = v;
                    },
                }
                let mut i: usize = 1;
                while i < chains.len()
                    invariant
                        1 <= i <= chains@.len(),
                        es == crate::expression::expr_seq_of(chains@),
                        es.len() == chains@.len(),
                        forall|k: int| 0 <= k < chains@.len() ==> es[k] == chains@[k]@,
                        goal == spec_eval(
                            expression@,
                            self.root(),
                            opt_val_view(callee),
                            opt_val_view(iterable_item),
                            self.table(),
                        ),
                        goal is Hosted || goal == spec_eval_chain(
                            es,
                            i as int,
                            current@,
                            self.root(),
                            opt_val_view(iterable_item),
                            self.table(),
                        ),
                    decreases chains@.len() - i,
                {
                    match self.evaluate_atom(&chains[i], Some(&current), iterable_item) {
                        Err(m) => {
                            return Err(m);
                        },
                        Ok(v) => {
                            current = v;
                        },
                    }
                    i += 1;
                }
                Ok(current)
            },
        }
    }
}

/// An empty host table: every call falls through to the builtins.
pub struct NoHosts;

impl HostTable for NoHosts {
    open spec fn names(&self) -> Set<Seq<char>> {
        Set::empty()
    }

    open spec fn deterministic(&self) -> bool {
        true
    }

    open spec fn host_outcome(
        &self,
        name: Seq<char>,
        args: Seq<ValueData>,
        callee: Option<ValueData>,
    ) -> Result<ValueData, Seq<char>> {
        Err(Seq::empty())
    }

    fn contains(&self, name: &str) -> (r: bool) {
        false
    }

    fn call(
        &self,
        name: &str,
        args: Vec<DewSchemaLanguageResult>,
        callee: Option<&DewSchemaLanguageResult>,
    ) -> (r: Result<DewSchemaLanguageResult, String>) {
        Err(String::new())
    }
}

/// A host table of constant-valued functions: each entry answers its name
/// by returning its value, and refuses to be called on a callee, which is
/// how a host-supplied nullary function behaves. The table is
/// deterministic: what each call returns is part of the engine's
/// contract.
pub struct ConstHosts {
    entries: Vec<(String, DewSchemaLanguageResult)>,
}

/// The value of the first entry with this name, scanning from `i`.
pub open spec fn const_lookup_from(
    entries: Seq<(Seq<char>, ValueData)>,
    name: Seq<char>,
    i: int,
) -> Option<ValueData>
    decreases entries.len() - i,
{
    if i < 0 || i >= entries.len() {
        None
    } else if entries[i].0 == name {
        Some(entries[i].1)
    } else {
        const_lookup_from(entries, name, i + 1)
    }
}

/// The value registered first under this name, if any.
pub open spec fn const_lookup(entries: Seq<(Seq<char>, ValueData)>, name: Seq<char>) -> Option<
    ValueData,
> {
    const_lookup_from(entries, name, 0)
}

/// Registering a new entry leaves every earlier name's value in place
/// and resolves a fresh name to the registered value.
pub proof fn lemma_const_lookup_push(
    entries: Seq<(Seq<char>, ValueData)>,
    name: Seq<char>,
    v: ValueData,
    n: Seq<char>,
)
    ensures
        const_lookup(entries.push((name, v)), n) == (match const_lookup(entries, n) {
            Some(w) => Some(w),
            None => if n == name {
                Some(v)
            } else {
                None
            },
        }),
{
    lemma_const_lookup_from_push(entries, name, v, n, 0);
}

proof fn lemma_const_lookup_from_push(
    entries: Seq<(Seq<char>, ValueData)>,
    name: Seq<char>,
    v: ValueData,
    n: Seq<char>,
    i: int,
)
    requires
        0 <= i <= entries.len(),
    ensures
        const_lookup_from(entries.push((name, v)), n, i) == (match const_lookup_from(
            entries,
            n,
            i,
        ) {
            Some(w) => Some(w),
            None => if n == name {
                Some(v)
            } else {
                None
            },
        }),
    decreases entries.len() - i,
{
    let pushed = entries.push((name, v));
    if i < entries.len() {
        assert(pushed[i] == entries[i]);
        if entries[i].0 != n {
            lemma_const_lookup_from_push(entries, name, v, n, i + 1);
        }
    } else {
        assert(pushed[i] == (name, v));
        assert(const_lookup_from(entries, n, i) is None);
        if n != name {
            assert(const_lookup_from(pushed, n, i + 1) is None);
        }
    }
}

impl ConstHosts {
    /// The table's entries, by model, in registration order.
    pub closed spec fn entries_view(&self) -> Seq<(Seq<char>, ValueData)> {
        Seq::new(self.entries@.len(), |i: int| (self.entries@[i].0@, self.entries@[i].1@))
    }

    /// An empty table.
    pub fn new() -> (r: Self)
        ensures
            r.names() == Set::<Seq<char>>::empty(),
            r.entries_view() == Seq::<(Seq<char>, ValueData)>::empty(),
    {
        let r = ConstHosts { entries: Vec::new() };
        proof {
            assert(r.entries_view() =~= Seq::<(Seq<char>, ValueData)>::empty());
            assert(r.names() =~= Set::<Seq<char>>::empty());
        }
        r
    }

    /// Registers a host function under `name` that returns `value`. An
    /// earlier entry of the same name keeps answering: the first
    /// registration wins.
    pub fn insert(&mut self, name: String, value: DewSchemaLanguageResult)
        ensures
            final(self).names() == old(self).names().insert(name@),
            final(self).entries_view() == old(self).entries_view().push((name@, value@)),
    {
        let ghost nv = name@;
        let ghost vv = value@;
        let ghost before = self.names();
        let ghost ev0 = self.entries_view();
        let ghost elen = self.entries@.len() as int;
        self.entries.push((name, value));
        proof {
            assert(self.entries_view() =~= ev0.push((nv, vv)));
            assert forall|n: Seq<char>| #[trigger] self.names().contains(n) implies before.insert(
                nv,
            ).contains(n) by {
                let i = choose|i: int|
                    0 <= i < self.entries@.len() && self.entries@[i].0@ == n;
                if i < elen {
                    assert(old(self).entries@[i].0@ == n);
                    assert(before.contains(n));
                }
            }
            assert forall|n: Seq<char>| before.insert(nv).contains(n) implies self.names().contains(
                n,
            ) by {
                if n == nv {
                    assert(self.entries@[elen].0@ == n);
                } else {
                    let i = choose|i: int| 0 <= i < elen && old(self).entries@[i].0@ == n;
                    assert(self.entries@[i].0@ == n);
                }
            }
            assert(self.names() =~= before.insert(nv));
        }
    }
}

impl HostTable for ConstHosts {
    closed spec fn names(&self) -> Set<Seq<char>> {
        Set::new(|n: Seq<char>| exists|i: int| 0 <= i < self.entries@.len() && self.entries@[i].0@ == n)
    }

    open spec fn deterministic(&self) -> bool {
        true
    }

    open spec fn host_outcome(
        &self,
        name: Seq<char>,
        args: Seq<ValueData>,
        callee: Option<ValueData>,
    ) -> Result<ValueData, Seq<char>> {
        if callee is Some {
            Err(name + " should not be called with a callee"@)
        } else {
            match const_lookup(self.entries_view(), name) {
                Some(v) => Ok(v),
                None => Err("Unknown host function: "@ + name),
            }
        }
    }

    fn contains(&self, name: &str) -> (r: bool) {
        let mut i: usize = 0;
        while i < self.entries.len()
            invariant
                i <= self.entries@.len(),
                forall|k: int| 0 <= k < i ==> self.entries@[k].0@ != name@,
            decreases self.entries@.len() - i,
        {
            if str_eq(self.entries[i].0.as_str(), name) {
                proof {
                    assert(self.names().contains(name@));
                }
                return true;
            }
            i += 1;
        }
        proof {
            assert(!self.names().contains(name@));
        }
        false
    }

    fn call(
        &self,
        name: &str,
        args: Vec<DewSchemaLanguageResult>,
        callee: Option<&DewSchemaLanguageResult>,
    ) -> (r: Result<DewSchemaLanguageResult, String>) {
        if callee.is_some() {
            let mut m = String::from_str(name);
            m.append(" should not be called with a callee");
            return Err(m);
        }
        let ghost ev = self.entries_view();
        let mut i: usize = 0;
        while i < self.entries.len()
            invariant
                i <= self.entries@.len(),
                opt_val_view(callee) is None,
                ev == self.entries_view(),
                ev.len() == self.entries@.len(),
                forall|k: int| 0 <= k < ev.len() ==> ev[k] == (
                    self.entries@[k].0@,
                    self.entries@[k].1@,
                ),
                const_lookup(ev, name@) == const_lookup_from(ev, name@, i as int),
            decreases self.entries@.len() - i,
        {
            if str_eq(self.entries[i].0.as_str(), name) {
                proof {
                    assert(ev[i as int].0 == name@);
                }
                return Ok(self.entries[i].1.clone());
            }
            i += 1;
        }
        let mut m = String::from_str("Unknown host function: ");
        m.append(name);
        Err(m)
    }
}

} // verus!
