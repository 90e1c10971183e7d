use vstd::prelude::*;

use crate::kstr::{kstr_chars, kstr_from_string};
use crate::runtime::{Expr, SpecExpr};
use crate::value::{ModelValue, ScalarVal, SpecScalar, SpecValue};

verus! {

/// One argument token of a tag occurrence, as the host engine's lexer hands
/// them over: a bare identifier, a literal, or the pair separator.
#[derive(Debug, Clone, PartialEq)]
pub enum ArgToken {
    Ident(String),
    StrLit(String),
    IntLit(i64),
    BoolLit(bool),
    Colon,
}

/// Mathematical counterpart of `ArgToken`.
pub enum SpecArgToken {
    Ident(Seq<char>),
    StrLit(Seq<char>),
    IntLit(i64),
    BoolLit(bool),
    Colon,
}

impl View for ArgToken {
    type V = SpecArgToken;

    open spec fn view(&self) -> SpecArgToken {
        match self {
            ArgToken::Ident(s) => SpecArgToken::Ident(s@),
            ArgToken::StrLit(s) => SpecArgToken::StrLit(s@),
            ArgToken::IntLit(i) => SpecArgToken::IntLit(*i),
            ArgToken::BoolLit(b) => SpecArgToken::BoolLit(*b),
            ArgToken::Colon => SpecArgToken::Colon,
        }
    }
}

pub open spec fn toks_view(ts: Seq<ArgToken>) -> Seq<SpecArgToken> {
    ts.map_values(|t: ArgToken| t@)
}

/// What went wrong while reading the tag's arguments.
#[derive(Debug, Clone, Copy, PartialEq, Eq, Structural)]
pub enum ParseErrorKind {
    /// The mandatory first argument is absent, or a pair breaks off early.
    MissingArgument,
    /// A binding pair's separator is not the expected colon.
    InvalidSyntax,
    /// A binding pair's key is not a bare identifier.
    InvalidIdentifier,
    /// A token that had to be a value-producing expression is not one.
    InvalidExpression,
}

/// A parse failure: its kind, and the index of the offending token (the index
/// just past the end when a token was missing).
#[derive(Debug, Clone, Copy, PartialEq, Eq, Structural)]
pub struct ParseError {
    pub kind: ParseErrorKind,
    pub at: usize,
}

/// The parsed, immutable form of one tag occurrence: the expression that
/// names the partial, and the explicit bindings in the order they were
/// written.
#[derive(Debug)]
pub struct IncludeInstruction {
    pub partial: Expr,
    pub vars: Vec<(kstring::KString, Expr)>,
}

/// Mathematical counterpart of `IncludeInstruction`.
pub struct SpecInstruction {
    pub partial: SpecExpr,
    pub vars: Seq<(Seq<char>, SpecExpr)>,
}

pub open spec fn kvars_view(vs: Seq<(kstring::KString, Expr)>) -> Seq<(Seq<char>, SpecExpr)> {
    vs.map_values(|p: (kstring::KString, Expr)| (kstr_chars(p.0), p.1@))
}

impl View for IncludeInstruction {
    type V = SpecInstruction;

    open spec fn view(&self) -> SpecInstruction {
        SpecInstruction { partial: self.partial@, vars: kvars_view(self.vars@) }
    }
}

/// The value expression a single token stands for, if it stands for one: a
/// bare identifier is a variable reference, a literal is itself.
pub open spec fn token_value(t: SpecArgToken) -> Option<SpecExpr> {
    match t {
        SpecArgToken::Ident(s) => Some(SpecExpr::Var(seq![s])),
        SpecArgToken::StrLit(s) => Some(SpecExpr::Lit(SpecValue::Scalar(SpecScalar::Str(s)))),
        SpecArgToken::IntLit(i) => Some(SpecExpr::Lit(SpecValue::Scalar(SpecScalar::Int(i)))),
        SpecArgToken::BoolLit(b) => Some(SpecExpr::Lit(SpecValue::Scalar(SpecScalar::Bool(b)))),
        SpecArgToken::Colon => None,
    }
}

/// The binding pairs read from position `i` on: strictly left to right, each
/// pair an identifier, a colon, then a value expression, until the tokens run
/// out. The error carries the offending position.
pub open spec fn spec_parse_pairs(toks: Seq<SpecArgToken>, i: int) -> Result<
    Seq<(Seq<char>, SpecExpr)>,
    (ParseErrorKind, int),
>
    decreases toks.len() - i,
{
    if i < 0 || i >= toks.len() {
        Ok(seq![])
    } else {
        match toks[i] {
            SpecArgToken::Ident(id) => if i + 1 >= toks.len() || !(toks[i + 1]
                is Colon) {
                Err((ParseErrorKind::InvalidSyntax, i + 1))
            } else if i + 2 >= toks.len() {
                Err((ParseErrorKind::MissingArgument, i + 2))
            } else {
                match token_value(toks[i + 2]) {
                    None => Err((ParseErrorKind::InvalidExpression, i + 2)),
                    Some(e) => match spec_parse_pairs(toks, i + 3) {
                        Ok(rest) => Ok(seq![(id, e)] + rest),
                        Err(er) => Err(er),
                    },
                }
            },
            _ => Err((ParseErrorKind::InvalidIdentifier, i)),
        }
    }
}

/// The whole argument grammar: a mandatory value expression naming the
/// partial, then zero or more binding pairs.
pub open spec fn spec_parse(toks: Seq<SpecArgToken>) -> Result<
    SpecInstruction,
    (ParseErrorKind, int),
> {
    if toks.len() == 0 {
        Err((ParseErrorKind::MissingArgument, 0))
    } else {
        match token_value(toks[0]) {
            None => Err((ParseErrorKind::InvalidExpression, 0)),
            Some(pe) => match spec_parse_pairs(toks, 1) {
                Ok(vars) => Ok(SpecInstruction { partial: pe, vars }),
                Err(er) => Err(er),
            },
        }
    }
}

/// Turn one token into the value expression it stands for.
fn token_to_expr(t: &ArgToken) -> (r: Option<Expr>)
    ensures
        match r {
            Some(e) => token_value(t@) == Some(e@),
            None => token_value(t@) is None,
        },
{
    match t {
        ArgToken::Ident(s) => {
            let mut path: Vec<String> = Vec::new();
            path.push(s.clone());
            proof {
                assert(path.deep_view() =~= seq![s@]);
            }
            Some(Expr::Var(path))
        },
        ArgToken::StrLit(s) => Some(Expr::Lit(ModelValue::Scalar(ScalarVal::Str(s.clone())))),
        ArgToken::IntLit(i) => Some(Expr::Lit(ModelValue::Scalar(ScalarVal::Int(*i)))),
        ArgToken::BoolLit(b) => Some(Expr::Lit(ModelValue::Scalar(ScalarVal::Bool(*b)))),
        ArgToken::Colon => None,
    }
}

/// Read the binding pairs from position `i` on.
fn parse_pairs(toks: &Vec<ArgToken>, i: usize) -> (r: Result<
    Vec<(kstring::KString, Expr)>,
    ParseError,
>)
    requires
        i <= toks@.len(),
    ensures
        match r {
            Ok(vars) => spec_parse_pairs(toks_view(toks@), i as int) == Ok::<
                _,
                (ParseErrorKind, int),
            >(kvars_view(vars@)),
            Err(e) => spec_parse_pairs(toks_view(toks@), i as int) == Err::<
                Seq<(Seq<char>, SpecExpr)>,
                _,
            >((e.kind, e.at as int)),
        },
    decreases toks@.len() - i,
{
    if i >= toks.len() {
        let out: Vec<(kstring::KString, Expr)> = Vec::new();
        proof {
            assert(kvars_view(out@) =~= Seq::<(Seq<char>, SpecExpr)>::empty());
        }
        Ok(out)
    } else {
        match &toks[i] {
            ArgToken::Ident(id) => {
                if i + 1 >= toks.len() || !matches!(&toks[i + 1], ArgToken::Colon) {
                    Err(ParseError { kind: ParseErrorKind::InvalidSyntax, at: i + 1 })
                } else if i + 2 >= toks.len() {
                    Err(ParseError { kind: ParseErrorKind::MissingArgument, at: i + 2 })
                } else {
                    match token_to_expr(&toks[i + 2]) {
                        None => Err(
                            ParseError { kind: ParseErrorKind::InvalidExpression, at: i + 2 },
                        ),
                        Some(e) => {
                            match parse_pairs(toks, i + 3) {
                                Ok(mut rest) => {
                                    let ghost restv = kvars_view(rest@);
                                    let key = kstr_from_string(id.clone());
                                    rest.insert(0, (key, e));
                                    proof {
                                        assert(kvars_view(rest@) =~= seq![(id@, e@)] + restv);
                                    }
                                    Ok(rest)
                                },
                                Err(er) => Err(er),
                            }
                        },
                    }
                }
            },
            _ => Err(ParseError { kind: ParseErrorKind::InvalidIdentifier, at: i }),
        }
    }
}

/// Turn a tag occurrence's argument tokens into a renderable instruction, or
/// fail fast with the first offence, read strictly left to right. No
/// render-time state is touched.
pub fn parse_args(toks: &Vec<ArgToken>) -> (r: Result<IncludeInstruction, ParseError>)
    ensures
        match r {
            Ok(instr) => spec_parse(toks_view(toks@)) == Ok::<_, (ParseErrorKind, int)>(instr@),
            Err(e) => spec_parse(toks_view(toks@)) == Err::<SpecInstruction, _>(
                (e.kind, e.at as int),
            ),
        },
{
    if toks.len() == 0 {
        Err(ParseError { kind: ParseErrorKind::MissingArgument, at: 0 })
    } else {
        match token_to_expr(&toks[0]) {
            None => Err(ParseError { kind: ParseErrorKind::InvalidExpression, at: 0 }),
            Some(pe) => match parse_pairs(toks, 1) {
                Ok(vars) => Ok(IncludeInstruction { partial: pe, vars }),
                Err(er) => Err(er),
            },
        }
    }
}

} // verus!
