//! Recursive-descent parsing of a token sequence into an expression AST.

use vstd::prelude::*;
use vstd::string::*;
use crate::tokenizer::{DewSchemaLanguageToken, TokenData, token_eq, toks_view};

verus! {

/// An expression AST node. A chain is a dot-separated sequence of atoms;
/// the parser never builds a one-element chain, collapsing it to the bare
/// element instead.
#[derive(Debug, PartialEq, Eq)]
pub enum DewSchemaLanguageExpression {
    Number(String),
    StringLiteral(String),
    Identifier(String),
    Call { method_name: String, args: Vec<DewSchemaLanguageExpression> },
    Chain(Vec<DewSchemaLanguageExpression>),
}

/// Mathematical model of an expression.
pub enum ExprData {
    Number(Seq<char>),
    StringLiteral(Seq<char>),
    Identifier(Seq<char>),
    Call { name: Seq<char>, args: Seq<ExprData> },
    Chain(Seq<ExprData>),
}

pub open spec fn expr_seq_of(s: Seq<DewSchemaLanguageExpression>) -> Seq<ExprData>
    decreases s,
{
    if s.len() == 0 {
        Seq::empty()
    } else {
        expr_seq_of(s.drop_last()).push(expr_data_of(s.last()))
    }
}

pub open spec fn expr_data_of(e: DewSchemaLanguageExpression) -> ExprData
    decreases e,
{
    match e {
        DewSchemaLanguageExpression::Number(s) => ExprData::Number(s@),
        DewSchemaLanguageExpression::StringLiteral(s) => ExprData::StringLiteral(s@),
        DewSchemaLanguageExpression::Identifier(s) => ExprData::Identifier(s@),
        DewSchemaLanguageExpression::Call { method_name, args } => ExprData::Call {
            name: method_name@,
            args: expr_seq_of(args@),
        },
        DewSchemaLanguageExpression::Chain(elems) => ExprData::Chain(expr_seq_of(elems@)),
    }
}

impl View for DewSchemaLanguageExpression {
    type V = ExprData;

    open spec fn view(&self) -> ExprData {
        expr_data_of(*self)
    }
}

/// The model of a sequence of expressions is the pointwise model.
pub proof fn lemma_expr_seq_of(s: Seq<DewSchemaLanguageExpression>)
    ensures
        expr_seq_of(s).len() == s.len(),
        forall|i: int| 0 <= i < s.len() ==> expr_seq_of(s)[i] == expr_data_of(s[i]),
    decreases s.len(),
{
    if s.len() > 0 {
        lemma_expr_seq_of(s.drop_last());
        assert forall|i: int| 0 <= i < s.len() implies expr_seq_of(s)[i] == expr_data_of(
            s[i],
        ) by {
            if i < s.len() - 1 {
                assert(s.drop_last()[i] == s[i]);
            }
        }
    }
}

/// How a token is named in a parse error message.
pub open spec fn spec_tok_describe(t: TokenData) -> Seq<char> {
    match t {
        TokenData::Number(s) => "Number(\""@ + s + "\")"@,
        TokenData::Identifier(s) => "Identifier(\""@ + s + "\")"@,
        TokenData::StringLiteral(s) => "StringLiteral(\""@ + s + "\")"@,
        TokenData::Dot => "Dot"@,
        TokenData::Comma => "Comma"@,
        TokenData::LeftParen => "LeftParenthesis"@,
        TokenData::RightParen => "RightParenthesis"@,
    }
}

/// How the token at `i` is named in a parse error message: the token's
/// description, or `None` past the end of input.
pub open spec fn spec_opt_describe(toks: Seq<TokenData>, i: int) -> Seq<char> {
    if 0 <= i < toks.len() {
        "Some("@ + spec_tok_describe(toks[i]) + ")"@
    } else {
        "None"@
    }
}

/// Names a token in a parse error message.
pub fn tok_describe(t: &DewSchemaLanguageToken) -> (r: String)
    ensures
        r@ == spec_tok_describe(t@),
{
    match t {
        DewSchemaLanguageToken::Number(s) => {
            let mut m = String::from_str("Number(\"");
            m.append(s.as_str());
            m.append("\")");
            m
        },
        DewSchemaLanguageToken::Identifier(s) => {
            let mut m = String::from_str("Identifier(\"");
            m.append(s.as_str());
            m.append("\")");
            m
        },
        DewSchemaLanguageToken::StringLiteral(s) => {
            let mut m = String::from_str("StringLiteral(\"");
            m.append(s.as_str());
            m.append("\")");
            m
        },
        DewSchemaLanguageToken::Dot => String::from_str("Dot"),
        DewSchemaLanguageToken::Comma => String::from_str("Comma"),
        DewSchemaLanguageToken::LeftParenthesis => String::from_str("LeftParenthesis"),
        DewSchemaLanguageToken::RightParenthesis => String::from_str("RightParenthesis"),
    }
}

/// Parses one full chain expression at `i`: an atom, then further atoms
/// as long as a dot follows. The result carries the position after the
/// expression.
pub open spec fn spec_parse(toks: Seq<TokenData>, i: int) -> Result<(ExprData, int), Seq<char>>
    decreases toks.len() - i, 3int,
{
    match spec_parse_atom(toks, i) {
        Err(m) => Err(m),
        Ok((a, j)) => spec_parse_chain_rest(toks, i, j, seq![a]),
    }
}

/// Continues a chain whose atoms so far are `acc`, from position `j`,
/// where `start < j` is where the chain began. A one-atom chain collapses
/// to the atom itself.
pub open spec fn spec_parse_chain_rest(
    toks: Seq<TokenData>,
    start: int,
    j: int,
    acc: Seq<ExprData>,
) -> Result<(ExprData, int), Seq<char>>
    decreases toks.len() - start, 2int, toks.len() - j,
{
    if start < j && j < toks.len() && toks[j] == TokenData::Dot {
        match spec_parse_atom(toks, j + 1) {
            Err(m) => Err(m),
            Ok((a, k)) => {
                // an atom always consumes at least one token and never leaves
                // the input; the fallback keeps the recursion well-founded
                let k2 = if j + 1 < k && k <= toks.len() {
                    k
                } else {
                    j + 1
                };
                spec_parse_chain_rest(toks, start, k2, acc.push(a))
            },
        }
    } else {
        if acc.len() == 1 {
            Ok((acc[0], j))
        } else {
            Ok((ExprData::Chain(acc), j))
        }
    }
}

/// Parses one atom at `i`: a number, a string literal, an identifier, or
/// a call when a parenthesis follows an identifier. Any other token, or
/// the end of input, is a parse error naming what was found.
pub open spec fn spec_parse_atom(toks: Seq<TokenData>, i: int) -> Result<
    (ExprData, int),
    Seq<char>,
>
    decreases toks.len() - i, 1int,
{
    if i < 0 || i >= toks.len() {
        Err("Unexpected token: None"@)
    } else {
        match toks[i] {
            TokenData::Number(s) => Ok((ExprData::Number(s), i + 1)),
            TokenData::StringLiteral(s) => Ok((ExprData::StringLiteral(s), i + 1)),
            TokenData::Identifier(name) => {
                if i + 1 < toks.len() && toks[i + 1] == TokenData::LeftParen {
                    if i + 2 < toks.len() && toks[i + 2] == TokenData::RightParen {
                        Ok((ExprData::Call { name, args: Seq::empty() }, i + 3))
                    } else {
                        match spec_parse_args(toks, i + 2, Seq::empty()) {
                            Err(m) => Err(m),
                            Ok((args, j)) => Ok((ExprData::Call { name, args }, j)),
                        }
                    }
                } else {
                    Ok((ExprData::Identifier(name), i + 1))
                }
            },
            _ => Err("Unexpected token: "@ + spec_opt_describe(toks, i)),
        }
    }
}

/// Parses the remaining arguments of a call from `i`: a full chain
/// expression, then a comma to continue or a closing parenthesis to end.
/// The result carries the position after the closing parenthesis.
pub open spec fn spec_parse_args(toks: Seq<TokenData>, i: int, acc: Seq<ExprData>) -> Result<
    (Seq<ExprData>, int),
    Seq<char>,
>
    decreases toks.len() - i, 4int,
{
    match spec_parse(toks, i) {
        Err(m) => Err(m),
        Ok((e, j)) => {
            let acc2 = acc.push(e);
            if i < j < toks.len() && toks[j] == TokenData::Comma {
                spec_parse_args(toks, j + 1, acc2)
            } else if 0 <= j < toks.len() && toks[j] == TokenData::RightParen {
                Ok((acc2, j + 1))
            } else {
                Err("Unexpected token in args: "@ + spec_opt_describe(toks, j))
            }
        },
    }
}

/// What parsing a whole input means: tokenize, then parse one expression
/// from the front. Tokens after the first expression are ignored, as the
/// parser's entry point leaves them unconsumed.
pub open spec fn spec_consume(s: Seq<char>) -> Result<ExprData, Seq<char>> {
    match crate::tokenizer::spec_tokenize(s) {
        Err(c) => Err("Unexpected character: "@ + seq![c]),
        Ok(ts) => match spec_parse(ts, 0) {
            Err(m) => Err(m),
            Ok((e, _j)) => Ok(e),
        },
    }
}

/// The tokens an expression prints back to.
pub open spec fn expr_toks(e: ExprData) -> Seq<TokenData>
    decreases e, 0int,
{
    match e {
        ExprData::Number(s) => seq![TokenData::Number(s)],
        ExprData::StringLiteral(s) => seq![TokenData::StringLiteral(s)],
        ExprData::Identifier(s) => seq![TokenData::Identifier(s)],
        ExprData::Call { name, args } => seq![
            TokenData::Identifier(name),
            TokenData::LeftParen,
        ] + args_toks(args) + seq![TokenData::RightParen],
        ExprData::Chain(es) => chain_toks(es),
    }
}

/// A call's arguments printed back, separated by commas.
pub open spec fn args_toks(args: Seq<ExprData>) -> Seq<TokenData>
    decreases args, 1int,
{
    if args.len() == 0 {
        Seq::empty()
    } else if args.len() == 1 {
        expr_toks(args[0])
    } else {
        expr_toks(args[0]) + seq![TokenData::Comma] + args_toks(args.drop_first())
    }
}

/// A chain's elements printed back, separated by dots.
pub open spec fn chain_toks(es: Seq<ExprData>) -> Seq<TokenData>
    decreases es, 1int,
{
    if es.len() == 0 {
        Seq::empty()
    } else if es.len() == 1 {
        expr_toks(es[0])
    } else {
        expr_toks(es[0]) + seq![TokenData::Dot] + chain_toks(es.drop_first())
    }
}

/// The shape the parser guarantees: a chain has at least two elements,
/// none of them itself a chain, and every subexpression has the same
/// shape.
pub open spec fn expr_wf(e: ExprData) -> bool
    decreases e, 0int,
{
    match e {
        ExprData::Number(_) => true,
        ExprData::StringLiteral(_) => true,
        ExprData::Identifier(_) => true,
        ExprData::Call { name: _, args } => exprs_wf(args),
        ExprData::Chain(es) => es.len() >= 2 && atoms_wf(es),
    }
}

/// Every expression in the sequence is well-formed.
pub open spec fn exprs_wf(s: Seq<ExprData>) -> bool
    decreases s, 1int,
{
    if s.len() == 0 {
        true
    } else {
        expr_wf(s[0]) && exprs_wf(s.drop_first())
    }
}

/// Every expression in the sequence is a well-formed atom: not a chain.
pub open spec fn atoms_wf(s: Seq<ExprData>) -> bool
    decreases s, 1int,
{
    if s.len() == 0 {
        true
    } else {
        expr_wf(s[0]) && !(s[0] is Chain) && atoms_wf(s.drop_first())
    }
}

/// Appending an atom to a non-empty chain appends a dot and the atom's
/// tokens to its printed form.
proof fn lemma_chain_toks_push(es: Seq<ExprData>, a: ExprData)
    requires
        es.len() >= 1,
    ensures
        chain_toks(es.push(a)) == chain_toks(es) + seq![TokenData::Dot] + expr_toks(a),
    decreases es.len(),
{
    if es.len() == 1 {
        assert(es.push(a).drop_first() =~= seq![a]);
        assert(chain_toks(es.push(a)) == expr_toks(es[0]) + seq![TokenData::Dot] + chain_toks(
            seq![a],
        ));
    } else {
        lemma_chain_toks_push(es.drop_first(), a);
        assert(es.push(a).drop_first() =~= es.drop_first().push(a));
        assert(chain_toks(es) + seq![TokenData::Dot] + expr_toks(a) =~= expr_toks(es[0]) + seq![
            TokenData::Dot,
        ] + (chain_toks(es.drop_first()) + seq![TokenData::Dot] + expr_toks(a)));
    }
}

/// Appending an atom to a non-empty chain keeps it a sequence of
/// well-formed atoms.
proof fn lemma_atoms_wf_push(es: Seq<ExprData>, a: ExprData)
    requires
        atoms_wf(es),
        expr_wf(a),
        !(a is Chain),
    ensures
        atoms_wf(es.push(a)),
    decreases es.len(),
{
    if es.len() == 0 {
        assert(es.push(a)[0] == a);
        assert(es.push(a).drop_first() =~= Seq::<ExprData>::empty());
        assert(atoms_wf(Seq::<ExprData>::empty()));
    } else {
        lemma_atoms_wf_push(es.drop_first(), a);
        assert(es.push(a).drop_first() =~= es.drop_first().push(a));
    }
}

/// A parse of one atom consumes at least one token, never leaves the
/// input, and yields a well-formed non-chain expression that prints back
/// to exactly the consumed tokens.
pub proof fn lemma_atom_prints(toks: Seq<TokenData>, i: int)
    ensures
        spec_parse_atom(toks, i) matches Ok(aj) ==> i < aj.1 <= toks.len() && expr_toks(aj.0)
            == toks.subrange(i, aj.1) && expr_wf(aj.0) && !(aj.0 is Chain),
    decreases toks.len() - i, 1int,
{
    if 0 <= i < toks.len() {
        match toks[i] {
            TokenData::Identifier(name) => {
                if i + 1 < toks.len() && toks[i + 1] == TokenData::LeftParen {
                    if i + 2 < toks.len() && toks[i + 2] == TokenData::RightParen {
                        let e = ExprData::Call { name, args: Seq::empty() };
                        assert(expr_toks(e) =~= toks.subrange(i, i + 3));
                        assert(exprs_wf(Seq::empty()));
                    } else {
                        lemma_args_print(toks, i + 2, Seq::empty());
                        if spec_parse_args(toks, i + 2, Seq::empty()) is Ok {
                            let oj = spec_parse_args(toks, i + 2, Seq::empty())->Ok_0;
                            let e = ExprData::Call { name, args: oj.0 };
                            assert(oj.0.skip(0) =~= oj.0);
                            assert(expr_toks(e) =~= toks.subrange(i, oj.1));
                        }
                    }
                } else {
                    assert(expr_toks(ExprData::Identifier(name)) =~= toks.subrange(i, i + 1));
                }
            },
            TokenData::Number(s) => {
                assert(expr_toks(ExprData::Number(s)) =~= toks.subrange(i, i + 1));
            },
            TokenData::StringLiteral(s) => {
                assert(expr_toks(ExprData::StringLiteral(s)) =~= toks.subrange(i, i + 1));
            },
            _ => {},
        }
    }
}

/// A parse of a call's remaining arguments extends the arguments
/// gathered so far with well-formed expressions that print back, comma
/// separated, to exactly the tokens before the closing parenthesis.
pub proof fn lemma_args_print(toks: Seq<TokenData>, i: int, acc: Seq<ExprData>)
    ensures
        spec_parse_args(toks, i, acc) matches Ok(oj) ==> i < oj.1 <= toks.len() && oj.0.len()
            > acc.len() && oj.0.subrange(0, acc.len() as int) == acc && args_toks(
            oj.0.skip(acc.len() as int),
        ) == toks.subrange(i, oj.1 - 1) && toks[oj.1 - 1] == TokenData::RightParen && exprs_wf(
            oj.0.skip(acc.len() as int),
        ),
    decreases toks.len() - i, 4int,
{
    lemma_parse_prints(toks, i);
    if spec_parse(toks, i) is Ok {
        let ej = spec_parse(toks, i)->Ok_0;
        let e = ej.0;
        let j0 = ej.1;
        let acc2 = acc.push(e);
        if i < j0 < toks.len() && toks[j0] == TokenData::Comma {
            lemma_args_print(toks, j0 + 1, acc2);
            if spec_parse_args(toks, j0 + 1, acc2) is Ok {
                let oj = spec_parse_args(toks, j0 + 1, acc2)->Ok_0;
                assert(oj.0.subrange(0, acc.len() as int) =~= acc);
                let rest = oj.0.skip(acc.len() as int);
                let rest2 = oj.0.skip(acc.len() as int + 1);
                assert(rest.len() >= 2);
                assert(rest[0] == oj.0[acc.len() as int]);
                assert(oj.0[acc.len() as int] == acc2[acc.len() as int]);
                assert(rest.drop_first() =~= rest2);
                assert(args_toks(rest) == expr_toks(e) + seq![TokenData::Comma] + args_toks(
                    rest2,
                ));
                assert(expr_toks(e) + seq![TokenData::Comma] + toks.subrange(j0 + 1, oj.1 - 1)
                    =~= toks.subrange(i, oj.1 - 1));
            }
        } else if 0 <= j0 < toks.len() && toks[j0] == TokenData::RightParen {
            let out = acc.push(e);
            assert(out.subrange(0, acc.len() as int) =~= acc);
            let rest = out.skip(acc.len() as int);
            assert(rest =~= seq![e]);
            assert(args_toks(rest) == expr_toks(e));
            assert(rest.drop_first() =~= Seq::<ExprData>::empty());
            assert(exprs_wf(Seq::<ExprData>::empty()));
            assert(exprs_wf(rest));
        }
    }
}

/// A partly read chain, extended to its end, prints back to exactly the
/// tokens from the chain's start, and collapses to a single well-formed
/// expression.
pub proof fn lemma_chain_rest_prints(
    toks: Seq<TokenData>,
    start: int,
    j: int,
    acc: Seq<ExprData>,
)
    requires
        0 <= start < j <= toks.len(),
        acc.len() >= 1,
        chain_toks(acc) == toks.subrange(start, j),
        atoms_wf(acc),
    ensures
        spec_parse_chain_rest(toks, start, j, acc) matches Ok(ej) ==> j <= ej.1 <= toks.len()
            && expr_toks(ej.0) == toks.subrange(start, ej.1) && expr_wf(ej.0),
    decreases toks.len() - start, 2int, toks.len() - j,
{
    if start < j && j < toks.len() && toks[j] == TokenData::Dot {
        lemma_atom_prints(toks, j + 1);
        if spec_parse_atom(toks, j + 1) is Ok {
            let aj = spec_parse_atom(toks, j + 1)->Ok_0;
            let a = aj.0;
            let k = aj.1;
            lemma_chain_toks_push(acc, a);
            lemma_atoms_wf_push(acc, a);
            assert(expr_toks(a) == toks.subrange(j + 1, k));
            assert(seq![TokenData::Dot] =~= seq![toks[j]]);
            assert((toks.subrange(start, j) + seq![toks[j]] + toks.subrange(j + 1, k))
                =~= toks.subrange(start, k));
            assert(chain_toks(acc.push(a)) == toks.subrange(start, k));
            lemma_chain_rest_prints(toks, start, k, acc.push(a));
        }
    } else {
        if acc.len() == 1 {
            assert(expr_toks(acc[0]) == chain_toks(acc));
            assert(expr_wf(acc[0]));
        }
    }
}

/// What the parser returns prints back to exactly what it consumed: a
/// successful parse from `i` yields a well-formed expression whose token
/// form is the consumed range of the input.
pub proof fn lemma_parse_prints(toks: Seq<TokenData>, i: int)
    ensures
        spec_parse(toks, i) matches Ok(ej) ==> i < ej.1 <= toks.len() && expr_toks(ej.0)
            == toks.subrange(i, ej.1) && expr_wf(ej.0),
    decreases toks.len() - i, 3int,
{
    lemma_atom_prints(toks, i);
    if spec_parse_atom(toks, i) is Ok {
        let aj = spec_parse_atom(toks, i)->Ok_0;
        assert(chain_toks(seq![aj.0]) == expr_toks(aj.0));
        assert(atoms_wf(seq![aj.0])) by {
            assert(seq![aj.0].drop_first() =~= Seq::<ExprData>::empty());
            assert(atoms_wf(Seq::<ExprData>::empty()));
        }
        lemma_chain_rest_prints(toks, i, aj.1, seq![aj.0]);
    }
}

/// The recursive-descent parser: a token vector and a cursor into it.
pub struct DewSchemaLanguageParser {
    tokens: Vec<DewSchemaLanguageToken>,
    position: usize,
}

impl DewSchemaLanguageParser {
    /// The models of the tokens this parser reads.
    pub closed spec fn toks(&self) -> Seq<TokenData> {
        toks_view(self.tokens@)
    }

    /// The cursor's position among the tokens.
    pub closed spec fn pos(&self) -> int {
        self.position as int
    }

    /// The cursor never runs past the end of the tokens.
    pub closed spec fn wf(&self) -> bool {
        self.position <= self.tokens@.len()
    }

    /// Tokenizes the input and parses one expression from the front.
    pub fn consume(input: &str) -> (r: Result<DewSchemaLanguageExpression, String>)
        ensures
            spec_consume(input@) is Ok ==> r is Ok && r->Ok_0@ == spec_consume(input@)->Ok_0,
            spec_consume(input@) is Err ==> r is Err && r->Err_0@ == spec_consume(input@)->Err_0,
    {
        match crate::tokenizer::tokenize(input) {
            Err(m) => Err(m),
            Ok(tokens) => {
                let mut parser = Self::new(tokens);
                match parser.parse() {
                    Err(m) => Err(m),
                    Ok(e) => Ok(e),
                }
            },
        }
    }

    /// A parser at the start of the given tokens.
    pub fn new(tokens: Vec<DewSchemaLanguageToken>) -> (r: Self)
        ensures
            r.toks() == toks_view(tokens@),
            r.pos() == 0,
            r.wf(),
    {
        DewSchemaLanguageParser { tokens, position: 0 }
    }

    /// The token under the cursor, if any, without consuming it.
    fn peek(&self) -> (r: Option<&DewSchemaLanguageToken>)
        ensures
            self.position < self.tokens@.len() ==> r is Some && r->0@ == self.toks()[self.position as int],
            self.position >= self.tokens@.len() ==> r is None,
    {
        let r = self.tokens.get(self.position);
        proof {
            if self.position < self.tokens@.len() {
                assert(self.toks()[self.position as int] == self.tokens@[self.position as int]@);
            }
        }
        r
    }

    /// Consumes and returns the token under the cursor, if any.
    fn next(&mut self) -> (r: Option<DewSchemaLanguageToken>)
        ensures
            final(self).tokens == old(self).tokens,
            old(self).position < old(self).tokens@.len() ==> r is Some && r->0@ == old(
                self,
            ).toks()[old(self).position as int] && final(self).position == old(self).position + 1,
            old(self).position >= old(self).tokens@.len() ==> r is None && final(self).position
                == old(self).position,
    {
        if self.position < self.tokens.len() {
            let token = self.tokens[self.position].clone();
            self.position += 1;
            proof {
                assert(old(self).toks()[old(self).position as int] == old(self).tokens@[old(
                    self,
                ).position as int]@);
            }
            Some(token)
        } else {
            None
        }
    }

    /// Consumes one token and demands that it be the expected one: any
    /// other token, or the end of input, is a parse error naming both.
    fn expect(&mut self, expected_token: DewSchemaLanguageToken) -> (r: Result<(), String>)
        ensures
            final(self).tokens == old(self).tokens,
            r is Ok <==> old(self).position < old(self).tokens@.len() && old(self).toks()[old(
                self,
            ).position as int] == expected_token@,
            r is Ok ==> final(self).position == old(self).position + 1,
            r is Err && old(self).position < old(self).tokens@.len() ==> r->Err_0@ == "Expected "@
                + spec_tok_describe(expected_token@) + ", got "@ + spec_tok_describe(
                old(self).toks()[old(self).position as int],
            ),
            r is Err && old(self).position >= old(self).tokens@.len() ==> r->Err_0@ == "Expected "@
                + spec_tok_describe(expected_token@) + ", but got EOF"@,
    {
        match self.next() {
            Some(token) => {
                if token_eq(&token, &expected_token) {
                    Ok(())
                } else {
                    let mut m = String::from_str("Expected ");
                    let d1 = tok_describe(&expected_token);
                    m.append(d1.as_str());
                    m.append(", got ");
                    let d2 = tok_describe(&token);
                    m.append(d2.as_str());
                    Err(m)
                }
            },
            None => {
                let mut m = String::from_str("Expected ");
                let d1 = tok_describe(&expected_token);
                m.append(d1.as_str());
                m.append(", but got EOF");
                Err(m)
            },
        }
    }

    /// Entry point: parses one chain expression from the cursor on.
    pub fn parse(&mut self) -> (r: Result<DewSchemaLanguageExpression, String>)
        requires
            old(self).wf(),
        ensures
            final(self).toks() == old(self).toks(),
            final(self).wf(),
            spec_parse(old(self).toks(), old(self).pos()) matches Ok(oj) ==> r is Ok
                && r->Ok_0@ == oj.0 && final(self).pos() == oj.1 && final(self).pos() > old(
                self,
            ).pos(),
            spec_parse(old(self).toks(), old(self).pos()) matches Err(m) ==> r is Err
                && r->Err_0@ == m,
        decreases old(self).toks().len() - old(self).pos(), 3int,
    {
        let ghost tv = old(self).toks();
        let ghost pos0 = old(self).position as int;
        let mut chain: Vec<DewSchemaLanguageExpression> = Vec::new();
        match self.parse_atom() {
            Err(m) => {
                return Err(m);
            },
            Ok(a) => {
                chain.push(a);
            },
        }
        proof {
            lemma_expr_seq_of(chain@);
            assert(expr_seq_of(chain@) =~= seq![chain@[0]@]);
        }
        loop
            invariant
                self.toks() == tv,
                self.wf(),
                tv == old(self).toks(),
                pos0 == old(self).pos(),
                pos0 < self.position,
                chain@.len() >= 1,
                spec_parse(tv, pos0) == spec_parse_chain_rest(
                    tv,
                    pos0,
                    self.position as int,
                    expr_seq_of(chain@),
                ),
            ensures
                self.toks() == tv,
                self.wf(),
                pos0 < self.position,
                chain@.len() >= 1,
                spec_parse(tv, pos0) == spec_parse_chain_rest(
                    tv,
                    pos0,
                    self.position as int,
                    expr_seq_of(chain@),
                ),
                self.position as int >= tv.len() || tv[self.position as int] != TokenData::Dot,
            decreases self.tokens@.len() - self.position,
        {
            let is_dot = match self.peek() {
                Some(DewSchemaLanguageToken::Dot) => true,
                _ => false,
            };
            if !is_dot {
                break;
            }
            self.next();
            match self.parse_atom() {
                Err(m) => {
                    return Err(m);
                },
                Ok(a) => {
                    let ghost chain0 = chain@;
                    chain.push(a);
                    proof {
                        lemma_expr_seq_of(chain@);
                        lemma_expr_seq_of(chain0);
                        assert(expr_seq_of(chain@) =~= expr_seq_of(chain0).push(
                            chain@[chain0.len() as int]@,
                        ));
                    }
                },
            }
        }
        proof {
            lemma_expr_seq_of(chain@);
            assert(spec_parse_chain_rest(tv, pos0, self.position as int, expr_seq_of(chain@))
                is Ok);
        }
        if chain.len() == 1 {
            let e = chain.remove(0);
            Ok(e)
        } else {
            Ok(DewSchemaLanguageExpression::Chain(chain))
        }
    }

    /// Parses one atom: a number, a string literal, an identifier, or a
    /// call when a parenthesis follows an identifier.
    fn parse_atom(&mut self) -> (r: Result<DewSchemaLanguageExpression, String>)
        requires
            old(self).wf(),
        ensures
            final(self).toks() == old(self).toks(),
            final(self).wf(),
            spec_parse_atom(old(self).toks(), old(self).pos()) matches Ok(oj) ==> r is Ok
                && r->Ok_0@ == oj.0 && final(self).pos() == oj.1 && final(self).pos() > old(
                self,
            ).pos(),
            spec_parse_atom(old(self).toks(), old(self).pos()) matches Err(m) ==> r
                is Err && r->Err_0@ == m,
        decreases old(self).toks().len() - old(self).pos(), 1int,
    {
        let ghost tv = old(self).toks();
        let ghost pos0 = old(self).position as int;
        match self.next() {
            Some(DewSchemaLanguageToken::Number(n)) => Ok(DewSchemaLanguageExpression::Number(n)),
            Some(DewSchemaLanguageToken::StringLiteral(s)) => Ok(
                DewSchemaLanguageExpression::StringLiteral(s),
            ),
            Some(DewSchemaLanguageToken::Identifier(name)) => {
                let is_lparen = match self.peek() {
                    Some(DewSchemaLanguageToken::LeftParenthesis) => true,
                    _ => false,
                };
                if is_lparen {
                    self.next();
                    let is_rparen = match self.peek() {
                        Some(DewSchemaLanguageToken::RightParenthesis) => true,
                        _ => false,
                    };
                    if is_rparen {
                        self.next();
                        let args: Vec<DewSchemaLanguageExpression> = Vec::new();
                        proof {
                            lemma_expr_seq_of(args@);
                            assert(expr_seq_of(args@) =~= Seq::<ExprData>::empty());
                        }
                        Ok(DewSchemaLanguageExpression::Call { method_name: name, args })
                    } else {
                        match self.parse_args() {
                            Err(m) => Err(m),
                            Ok(args) => Ok(
                                DewSchemaLanguageExpression::Call { method_name: name, args },
                            ),
                        }
                    }
                } else {
                    Ok(DewSchemaLanguageExpression::Identifier(name))
                }
            },
            Some(other) => {
                let mut m = String::from_str("Unexpected token: ");
                m.append("Some(");
                let d = tok_describe(&other);
                m.append(d.as_str());
                m.append(")");
                proof {
                    assert(m@ =~= "Unexpected token: "@ + ("Some("@ + spec_tok_describe(other@)
                        + ")"@));
                }
                Err(m)
            },
            None => {
                let m = String::from_str("Unexpected token: None");
                Err(m)
            },
        }
    }

    /// Parses the arguments of a call from right after a parenthesis that
    /// is not immediately closed, consuming the closing parenthesis.
    fn parse_args(&mut self) -> (r: Result<Vec<DewSchemaLanguageExpression>, String>)
        requires
            old(self).wf(),
        ensures
            final(self).toks() == old(self).toks(),
            final(self).wf(),
            spec_parse_args(old(self).toks(), old(self).pos(), Seq::empty()) matches Ok(
                oj,
            ) ==> r is Ok && expr_seq_of(r->Ok_0@) == oj.0 && final(self).pos() == oj.1
                && final(self).pos() > old(self).pos(),
            spec_parse_args(old(self).toks(), old(self).pos(), Seq::empty()) matches Err(
                m,
            ) ==> r is Err && r->Err_0@ == m,
        decreases old(self).toks().len() - old(self).pos(), 4int,
    {
        let ghost tv = old(self).toks();
        let ghost pos0 = old(self).position as int;
        let mut args: Vec<DewSchemaLanguageExpression> = Vec::new();
        proof {
            lemma_expr_seq_of(args@);
            assert(expr_seq_of(args@) =~= Seq::<ExprData>::empty());
        }
        loop
            invariant
                self.toks() == tv,
                self.wf(),
                tv == old(self).toks(),
                pos0 == old(self).pos(),
                pos0 <= self.position,
                spec_parse_args(tv, pos0, Seq::empty()) == spec_parse_args(
                    tv,
                    self.position as int,
                    expr_seq_of(args@),
                ),
            decreases self.tokens@.len() - self.position,
        {
            match self.parse() {
                Err(m) => {
                    return Err(m);
                },
                Ok(e) => {
                    let ghost args0 = args@;
                    args.push(e);
                    proof {
                        lemma_expr_seq_of(args@);
                        lemma_expr_seq_of(args0);
                        assert(expr_seq_of(args@) =~= expr_seq_of(args0).push(
                            args@[args0.len() as int]@,
                        ));
                    }
                },
            }
            let which: u8 = match self.peek() {
                Some(DewSchemaLanguageToken::Comma) => 1,
                Some(DewSchemaLanguageToken::RightParenthesis) => 2,
                _ => 0,
            };
            if which == 1 {
                self.next();
            } else if which == 2 {
                self.next();
                return Ok(args);
            } else {
                let mut m = String::from_str("Unexpected token in args: ");
                match self.peek() {
                    Some(t) => {
                        m.append("Some(");
                        let d = tok_describe(t);
                        m.append(d.as_str());
                        m.append(")");
                        proof {
                            assert(m@ =~= "Unexpected token in args: "@ + ("Some("@
                                + spec_tok_describe(tv[self.position as int]) + ")"@));
                        }
                    },
                    None => {
                        m.append("None");
                        proof {
                            assert(m@ =~= "Unexpected token in args: "@ + "None"@);
                        }
                    },
                }
                return Err(m);
            }
        }
    }
}

} // verus!
