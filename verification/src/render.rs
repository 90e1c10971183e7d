use vstd::prelude::*;
use vstd::string::*;

use crate::kstr::kstr_as_str;
use crate::parse::{kvars_view, IncludeInstruction, SpecInstruction};
use crate::runtime::{
    assoc_find, assoc_find_from, eval_expr, find_pair, find_partial, pairs_view,
    spec_eval, Expr, Frame, Node, Partial, RuntimeModel, SpecExpr, SpecFrame, SpecNode,
    SpecRuntime,
};
use crate::value::{scalar_text, spec_scalar_text, ModelValue, SpecValue};

verus! {

/// What defeated one splice occurrence at render time.
#[derive(Debug, PartialEq)]
pub enum RenderProblem {
    /// The name expression evaluated to a composite value or to nothing;
    /// the offending expression itself is carried as context.
    InvalidPartialName { expr: Expr },
    /// A binding's value expression failed to evaluate; the binding's
    /// identifier is named.
    BindingEvaluationFailed { id: String },
    /// The partial source has no entry under the resolved key.
    PartialNotFound { name: String },
    /// The partial itself failed while rendering; the unresolvable or
    /// non-scalar path is carried.
    RenderFailure { path: Vec<String> },
}

/// Mathematical counterpart of `RenderProblem`.
pub enum SpecRenderProblem {
    InvalidPartialName { expr: SpecExpr },
    BindingEvaluationFailed { id: Seq<char> },
    PartialNotFound { name: Seq<char> },
    RenderFailure { path: Seq<Seq<char>> },
}

impl View for RenderProblem {
    type V = SpecRenderProblem;

    open spec fn view(&self) -> SpecRenderProblem {
        match self {
            RenderProblem::InvalidPartialName { expr } => SpecRenderProblem::InvalidPartialName {
                expr: expr@,
            },
            RenderProblem::BindingEvaluationFailed { id } => (
            SpecRenderProblem::BindingEvaluationFailed { id: id@ }),
            RenderProblem::PartialNotFound { name } => SpecRenderProblem::PartialNotFound {
                name: name@,
            },
            RenderProblem::RenderFailure { path } => SpecRenderProblem::RenderFailure {
                path: path.deep_view(),
            },
        }
    }
}

/// One step of attribution: which tag occurrence led to the failure, and the
/// partial name it had resolved, if it had got that far.
#[derive(Debug, PartialEq)]
pub struct TraceFrame {
    pub invocation: Expr,
    pub partial_name: Option<String>,
}

/// Mathematical counterpart of `TraceFrame`.
pub struct SpecTraceFrame {
    pub invocation: SpecExpr,
    pub partial_name: Option<Seq<char>>,
}

impl View for TraceFrame {
    type V = SpecTraceFrame;

    open spec fn view(&self) -> SpecTraceFrame {
        SpecTraceFrame {
            invocation: self.invocation@,
            partial_name: match &self.partial_name {
                Some(n) => Some(n@),
                None => None,
            },
        }
    }
}

/// A render-time failure with its attribution chain: context frames are
/// appended, innermost occurrence first, and never overwritten.
#[derive(Debug, PartialEq)]
pub struct RenderError {
    pub problem: RenderProblem,
    pub trace: Vec<TraceFrame>,
}

/// Mathematical counterpart of `RenderError`.
pub struct SpecRenderError {
    pub problem: SpecRenderProblem,
    pub trace: Seq<SpecTraceFrame>,
}

impl View for RenderError {
    type V = SpecRenderError;

    open spec fn view(&self) -> SpecRenderError {
        SpecRenderError {
            problem: self.problem@,
            trace: self.trace@.map_values(|t: TraceFrame| t@),
        }
    }
}

impl RenderError {
    /// Append one step of attribution, keeping everything already recorded:
    /// this is how an error crossing a splice site picks up which occurrence
    /// it crossed, and which partial that occurrence had resolved.
    pub fn with_site(self, invocation: &Expr, partial_name: Option<&String>) -> (r: RenderError)
        ensures
            r@.problem == self@.problem,
            r@.trace == self@.trace.push(
                SpecTraceFrame {
                    invocation: invocation@,
                    partial_name: match partial_name {
                        Some(n) => Some(n@),
                        None => None,
                    },
                },
            ),
    {
        let ghost before = self@.trace;
        let mut tr = self.trace;
        let name_copy = match partial_name {
            Some(n) => Some(n.clone()),
            None => None,
        };
        tr.push(TraceFrame { invocation: invocation.duplicate(), partial_name: name_copy });
        let out = RenderError { problem: self.problem, trace: tr };
        proof {
            assert(out@.trace =~= before.push(
                SpecTraceFrame {
                    invocation: invocation@,
                    partial_name: match partial_name {
                        Some(n) => Some(n@),
                        None => None,
                    },
                },
            ));
        }
        out
    }
}

/// The evaluation of the binding pairs from position `i` on, against the
/// scope chain `frames` (the newly opened scope, so the caller's variables
/// are visible through it). The first failure aborts, naming the offending
/// identifier.
pub open spec fn spec_eval_bindings(
    vars: Seq<(Seq<char>, SpecExpr)>,
    i: int,
    frames: Seq<SpecFrame>,
) -> Result<Seq<(Seq<char>, SpecValue)>, Seq<char>>
    decreases vars.len() - i,
{
    if i < 0 || i >= vars.len() {
        Ok(seq![])
    } else {
        match spec_eval(vars[i].1, frames) {
            None => Err(vars[i].0),
            Some(v) => match spec_eval_bindings(vars, i + 1, frames) {
                Ok(rest) => Ok(seq![(vars[i].0, v)] + rest),
                Err(id) => Err(id),
            },
        }
    }
}

/// Evaluate the binding pairs from position `i` on against `rt`.
fn eval_bindings(vars: &Vec<(kstring::KString, Expr)>, rt: &RuntimeModel, i: usize) -> (r: Result<
    Vec<(String, ModelValue)>,
    String,
>)
    requires
        i <= vars@.len(),
    ensures
        match r {
            Ok(ps) => spec_eval_bindings(kvars_view(vars@), i as int, rt@.frames) == Ok::<
                _,
                Seq<char>,
            >(pairs_view(ps@)),
            Err(id) => spec_eval_bindings(kvars_view(vars@), i as int, rt@.frames) == Err::<
                Seq<(Seq<char>, SpecValue)>,
                _,
            >(id@),
        },
    decreases vars@.len() - i,
{
    if i >= vars.len() {
        let out: Vec<(String, ModelValue)> = Vec::new();
        proof {
            assert(pairs_view(out@) =~= Seq::<(Seq<char>, SpecValue)>::empty());
        }
        Ok(out)
    } else {
        let key = kstr_as_str(&vars[i].0).to_owned();
        match eval_expr(&vars[i].1, rt) {
            None => Err(key),
            Some(v) => {
                match eval_bindings(vars, rt, i + 1) {
                    Ok(mut rest) => {
                        let ghost restv = pairs_view(rest@);
                        rest.insert(0, (key, v));
                        proof {
                            assert(pairs_view(rest@) =~= seq![
                                (kvars_view(vars@)[i as int].0, spec_eval(
                                    kvars_view(vars@)[i as int].1,
                                    rt@.frames,
                                ).unwrap()),
                            ] + restv);
                        }
                        Ok(rest)
                    },
                    Err(id) => Err(id),
                }
            },
        }
    }
}

/// The binding object materialized from evaluated pairs: each key once, with
/// the value of its last occurrence (standard mapping semantics, last write
/// wins).
pub open spec fn spec_materialize(pairs: Seq<(Seq<char>, SpecValue)>, i: int) -> Seq<
    (Seq<char>, SpecValue),
>
    decreases pairs.len() - i,
{
    if i < 0 || i >= pairs.len() {
        seq![]
    } else {
        let rest = spec_materialize(pairs, i + 1);
        if assoc_find(rest, pairs[i].0) is Some {
            rest
        } else {
            seq![pairs[i]] + rest
        }
    }
}

/// The value of the last occurrence of `k` at position `i` or later.
pub open spec fn spec_last_from(
    pairs: Seq<(Seq<char>, SpecValue)>,
    i: int,
    k: Seq<char>,
) -> Option<SpecValue>
    decreases pairs.len() - i,
{
    if i < 0 || i >= pairs.len() {
        None
    } else {
        match spec_last_from(pairs, i + 1, k) {
            Some(v) => Some(v),
            None => if pairs[i].0 == k {
                Some(pairs[i].1)
            } else {
                None
            },
        }
    }
}

/// Finding a key after an entry was prepended: the new entry wins.
pub proof fn lemma_assoc_cons<V>(p: (Seq<char>, V), s: Seq<(Seq<char>, V)>, i: int, k: Seq<char>)
    requires
        0 <= i <= s.len(),
    ensures
        assoc_find_from(seq![p] + s, i + 1, k) == assoc_find_from(s, i, k),
    decreases s.len() - i,
{
    if i < s.len() {
        assert((seq![p] + s)[i + 1] == s[i]);
        lemma_assoc_cons(p, s, i + 1, k);
    }
}

/// The materialized binding object answers every key with the value of the
/// key's last occurrence among the evaluated pairs.
pub proof fn lemma_materialize_last(pairs: Seq<(Seq<char>, SpecValue)>, i: int, k: Seq<char>)
    requires
        0 <= i <= pairs.len(),
    ensures
        assoc_find(spec_materialize(pairs, i), k) == spec_last_from(pairs, i, k),
    decreases pairs.len() - i,
{
    if i < pairs.len() {
        lemma_materialize_last(pairs, i + 1, k);
        lemma_materialize_last(pairs, i + 1, pairs[i].0);
        let rest = spec_materialize(pairs, i + 1);
        if assoc_find(rest, pairs[i].0) is Some {
        } else {
            assert((seq![pairs[i]] + rest)[0] == pairs[i]);
            lemma_assoc_cons(pairs[i], rest, 0, k);
        }
    }
}

/// Materialize the binding object from the evaluated pairs, from position
/// `i` on.
fn materialize(pairs: &Vec<(String, ModelValue)>, i: usize) -> (r: Vec<(String, ModelValue)>)
    requires
        i <= pairs@.len(),
    ensures
        pairs_view(r@) == spec_materialize(pairs_view(pairs@), i as int),
    decreases pairs@.len() - i,
{
    if i >= pairs.len() {
        let out: Vec<(String, ModelValue)> = Vec::new();
        proof {
            assert(pairs_view(out@) =~= Seq::<(Seq<char>, SpecValue)>::empty());
        }
        out
    } else {
        let mut rest = materialize(pairs, i + 1);
        let ghost restv = pairs_view(rest@);
        match find_pair(&rest, &pairs[i].0) {
            Some(_) => rest,
            None => {
                rest.insert(0, (pairs[i].0.clone(), pairs[i].1.duplicate()));
                proof {
                    assert(pairs_view(rest@) =~= seq![pairs_view(pairs@)[i as int]] + restv);
                }
                rest
            },
        }
    }
}

/// The text a partial's body renders to, node by node from position `i` on:
/// literal text as it stands, a variable as the text form of the scalar it
/// resolves to. An unresolvable or non-scalar variable is the body's own
/// failure, carried as the offending path.
pub open spec fn spec_render_nodes(
    nodes: Seq<SpecNode>,
    frames: Seq<SpecFrame>,
    i: int,
) -> Result<Seq<char>, Seq<Seq<char>>>
    decreases nodes.len() - i,
{
    if i < 0 || i >= nodes.len() {
        Ok(seq![])
    } else {
        match nodes[i] {
            SpecNode::Text(t) => match spec_render_nodes(nodes, frames, i + 1) {
                Ok(rest) => Ok(t + rest),
                Err(e) => Err(e),
            },
            SpecNode::Out(p) => match spec_eval(SpecExpr::Var(p), frames) {
                Some(SpecValue::Scalar(s)) => match spec_render_nodes(nodes, frames, i + 1) {
                    Ok(rest) => Ok(spec_scalar_text(s) + rest),
                    Err(e) => Err(e),
                },
                _ => Err(p),
            },
        }
    }
}

/// Render a partial's body from node `i` on against `rt`'s scope chain.
fn render_nodes(p: &Partial, rt: &RuntimeModel, i: usize) -> (r: Result<String, Vec<String>>)
    requires
        i <= p.nodes@.len(),
    ensures
        match r {
            Ok(text) => spec_render_nodes(p@.nodes, rt@.frames, i as int) == Ok::<_, Seq<Seq<char>>>(
                text@,
            ),
            Err(path) => spec_render_nodes(p@.nodes, rt@.frames, i as int) == Err::<Seq<char>, _>(
                path.deep_view(),
            ),
        },
    decreases p.nodes@.len() - i,
{
    if i >= p.nodes.len() {
        let empty = String::new();
        Ok(empty)
    } else {
        match &p.nodes[i] {
            Node::Text(t) => {
                match render_nodes(p, rt, i + 1) {
                    Ok(rest) => Ok(t.clone().concat(rest.as_str())),
                    Err(path) => Err(path),
                }
            },
            Node::Out(vp) => {
                if vp.len() == 0 {
                    Err(crate::runtime::clone_path(vp))
                } else {
                    match rt.lookup(vp) {
                        Some(ModelValue::Scalar(s)) => {
                            match render_nodes(p, rt, i + 1) {
                                Ok(rest) => Ok(scalar_text(&s).concat(rest.as_str())),
                                Err(path) => Err(path),
                            }
                        },
                        _ => Err(crate::runtime::clone_path(vp)),
                    }
                }
            },
        }
    }
}

/// The empty scope a splice opens, labelled with the partial's name.
pub open spec fn new_frame(label: Seq<char>) -> SpecFrame {
    SpecFrame { label, vars: seq![], bound: None }
}

/// The same scope once the binding object has been installed in it.
pub open spec fn bound_frame(label: Seq<char>, obj: Seq<(Seq<char>, SpecValue)>) -> SpecFrame {
    SpecFrame { label, vars: seq![], bound: Some(obj) }
}

/// What one splice occurrence renders to, or the error it propagates. The
/// whole protocol: evaluate the name, insist on a scalar, open a fresh scope
/// under the caller's chain, evaluate the bindings there, install the
/// materialized binding object when there are bindings, resolve the partial,
/// render its body in the new scope; every failure carries this occurrence's
/// attribution.
pub open spec fn spec_render(instr: SpecInstruction, rt: SpecRuntime) -> Result<
    Seq<char>,
    SpecRenderError,
> {
    match spec_eval(instr.partial, rt.frames) {
        Some(SpecValue::Scalar(s)) => {
            let name = spec_scalar_text(s);
            let frames1 = rt.frames.push(new_frame(name));
            match spec_eval_bindings(instr.vars, 0, frames1) {
                Err(id) => Err(
                    SpecRenderError {
                        problem: SpecRenderProblem::BindingEvaluationFailed { id },
                        trace: seq![
                            SpecTraceFrame { invocation: instr.partial, partial_name: Some(name) },
                        ],
                    },
                ),
                Ok(pairs) => {
                    let frames2 = if instr.vars.len() == 0 {
                        frames1
                    } else {
                        rt.frames.push(bound_frame(name, spec_materialize(pairs, 0)))
                    };
                    match assoc_find(rt.partials, name) {
                        None => Err(
                            SpecRenderError {
                                problem: SpecRenderProblem::PartialNotFound { name },
                                trace: seq![
                                    SpecTraceFrame {
                                        invocation: instr.partial,
                                        partial_name: Some(name),
                                    },
                                ],
                            },
                        ),
                        Some(p) => match spec_render_nodes(p.nodes, frames2, 0) {
                            Ok(text) => Ok(text),
                            Err(path) => Err(
                                SpecRenderError {
                                    problem: SpecRenderProblem::RenderFailure { path },
                                    trace: seq![
                                        SpecTraceFrame {
                                            invocation: instr.partial,
                                            partial_name: Some(name),
                                        },
                                    ],
                                },
                            ),
                        },
                    }
                },
            }
        },
        _ => Err(
            SpecRenderError {
            problem: SpecRenderProblem::InvalidPartialName { expr: instr.partial },
            trace: seq![SpecTraceFrame { invocation: instr.partial, partial_name: None }],
        },
        ),
    }
}

/// An error with exactly this occurrence's attribution frame.
fn site_error(problem: RenderProblem, invocation: &Expr, partial_name: Option<&String>) -> (r:
    RenderError)
    ensures
        r@.problem == problem@,
        r@.trace == seq![
            SpecTraceFrame {
                invocation: invocation@,
                partial_name: match partial_name {
                    Some(n) => Some(n@),
                    None => None,
                },
            },
        ],
{
    let name_copy = match partial_name {
        Some(n) => Some(n.clone()),
        None => None,
    };
    let mut trace: Vec<TraceFrame> = Vec::new();
    trace.push(TraceFrame { invocation: invocation.duplicate(), partial_name: name_copy });
    let out = RenderError { problem, trace };
    proof {
        assert(out@.trace =~= seq![
            SpecTraceFrame {
                invocation: invocation@,
                partial_name: match partial_name {
                    Some(n) => Some(n@),
                    None => None,
                },
            },
        ]);
    }
    out
}

/// Render one parsed splice occurrence against a live runtime, writing into
/// `out`. The scope opened for the partial is closed again on every path,
/// success or failure, and the partial source is only read.
pub fn render_include(instr: &IncludeInstruction, rt: &mut RuntimeModel, out: &mut String) -> (r:
    Result<(), RenderError>)
    ensures
        final(rt)@.frames == old(rt)@.frames,
        final(rt)@.partials == old(rt)@.partials,
        match r {
            Ok(_) => ({
                &&& spec_render(instr@, old(rt)@) matches Ok(t)
                &&& final(out)@ == old(out)@ + t
            }),
            Err(e) => ({
                &&& spec_render(instr@, old(rt)@) == Err::<Seq<char>, _>(e@)
                &&& final(out)@ == old(out)@
            }),
        },
{
    match eval_expr(&instr.partial, rt) {
        Some(ModelValue::Scalar(s)) => {
            let name = scalar_text(&s);
            let ghost frames0 = rt@.frames;
            rt.frames.push(Frame { label: name.clone(), vars: Vec::new(), bound: None });
            proof {
                assert(pairs_view(Seq::<(String, ModelValue)>::empty()) =~= Seq::<
                    (Seq<char>, SpecValue),
                >::empty());
                assert(rt@.frames =~= frames0.push(new_frame(name@)));
            }
            let ghost frames1 = rt@.frames;
            match eval_bindings(&instr.vars, rt, 0) {
                Err(id) => {
                    let _ = rt.frames.pop();
                    proof {
                        assert(rt@.frames =~= frames0);
                    }
                    Err(
                        site_error(
                            RenderProblem::BindingEvaluationFailed { id },
                            &instr.partial,
                            Some(&name),
                        ),
                    )
                },
                Ok(pairs) => {
                    if instr.vars.len() > 0 {
                        let obj = materialize(&pairs, 0);
                        let _ = rt.frames.pop();
                        rt.frames.push(
                            Frame { label: name.clone(), vars: Vec::new(), bound: Some(obj) },
                        );
                        proof {
                            assert(pairs_view(Seq::<(String, ModelValue)>::empty()) =~= Seq::<
                                (Seq<char>, SpecValue),
                            >::empty());
                            assert(rt@.frames =~= frames0.push(
                                bound_frame(
                                    name@,
                                    spec_materialize(
                                        spec_eval_bindings(
                                            kvars_view(instr.vars@),
                                            0,
                                            frames1,
                                        )->Ok_0,
                                        0,
                                    ),
                                ),
                            ));
                        }
                    }
                    match find_partial(&rt.partials, &name) {
                        None => {
                            let _ = rt.frames.pop();
                            proof {
                                assert(rt@.frames =~= frames0);
                            }
                            Err(
                                site_error(
                                    RenderProblem::PartialNotFound { name: name.clone() },
                                    &instr.partial,
                                    Some(&name),
                                ),
                            )
                        },
                        Some(p) => {
                            let pd = p.duplicate();
                            match render_nodes(&pd, rt, 0) {
                                Ok(text) => {
                                    out.append(text.as_str());
                                    let _ = rt.frames.pop();
                                    proof {
                                        assert(rt@.frames =~= frames0);
                                    }
                                    Ok(())
                                },
                                Err(path) => {
                                    let _ = rt.frames.pop();
                                    proof {
                                        assert(rt@.frames =~= frames0);
                                    }
                                    Err(
                                        site_error(
                                            RenderProblem::RenderFailure { path },
                                            &instr.partial,
                                            Some(&name),
                                        ),
                                    )
                                },
                            }
                        },
                    }
                },
            }
        },
        _ => Err(
            site_error(
                RenderProblem::InvalidPartialName { expr: instr.partial.duplicate() },
                &instr.partial,
                None,
            ),
        ),
    }
}

} // verus!
