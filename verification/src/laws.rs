use vstd::prelude::*;

use crate::parse::SpecInstruction;
use crate::render::{
    new_frame, spec_eval_bindings, spec_render, SpecRenderError, SpecRenderProblem, SpecTraceFrame,
};
use crate::runtime::{
    assoc_find, chain_lookup, chain_lookup_upto, frame_has_head, spec_eval, SpecExpr, SpecFrame,
};
use crate::value::{spec_scalar_text, SpecScalar, SpecValue};

verus! {

/// Appending a frame does not change what the frames below it resolve.
pub proof fn lemma_upto_push(
    frames: Seq<SpecFrame>,
    f: SpecFrame,
    n: int,
    path: Seq<Seq<char>>,
)
    requires
        0 <= n <= frames.len(),
    ensures
        chain_lookup_upto(frames.push(f), n, path) == chain_lookup_upto(frames, n, path),
    decreases n,
{
    if n > 0 {
        assert(frames.push(f)[n - 1] == frames[n - 1]);
        lemma_upto_push(frames, f, n - 1, path);
    }
}

/// A freshly opened scope is transparent: it defines nothing of its own, so
/// every lookup through it falls through to the caller's chain unchanged.
pub proof fn lemma_empty_frame_transparent(
    frames: Seq<SpecFrame>,
    label: Seq<char>,
    path: Seq<Seq<char>>,
)
    requires
        path.len() >= 1,
    ensures
        chain_lookup(frames.push(new_frame(label)), path) == chain_lookup(frames, path),
{
    let pushed = frames.push(new_frame(label));
    assert(pushed[frames.len() as int] == new_frame(label));
    assert(assoc_find(new_frame(label).vars, path[0]) is None);
    assert(!frame_has_head(new_frame(label), path[0]));
    lemma_upto_push(frames, new_frame(label), frames.len() as int, path);
}

/// Evaluation inside the scope a splice has just opened agrees with
/// evaluation in the caller's own chain.
pub proof fn lemma_eval_sees_caller_scope(e: SpecExpr, frames: Seq<SpecFrame>, label: Seq<char>)
    ensures
        spec_eval(e, frames.push(new_frame(label))) == spec_eval(e, frames),
{
    match e {
        SpecExpr::Lit(_) => {
        },
        SpecExpr::Var(p) => {
            if p.len() > 0 {
                lemma_empty_frame_transparent(frames, label, p);
            }
        },
    }
}

/// Binding expressions are evaluated in the caller's scope chain: evaluating
/// them against the newly opened (still empty) scope gives exactly what
/// evaluating them against the caller's own chain gives, outcome and
/// offending identifier alike.
pub proof fn lemma_bindings_eval_in_caller_chain(
    vars: Seq<(Seq<char>, SpecExpr)>,
    i: int,
    frames: Seq<SpecFrame>,
    label: Seq<char>,
)
    requires
        0 <= i <= vars.len(),
    ensures
        spec_eval_bindings(vars, i, frames.push(new_frame(label))) == spec_eval_bindings(
            vars,
            i,
            frames,
        ),
    decreases vars.len() - i,
{
    if i < vars.len() {
        lemma_eval_sees_caller_scope(vars[i].1, frames, label);
        lemma_bindings_eval_in_caller_chain(vars, i + 1, frames, label);
    }
}

/// A partial-name expression that evaluates to a composite value, or to
/// nothing, always fails with the invalid-name error and never reaches the
/// partial source: the outcome is the same whatever the source holds.
pub proof fn lemma_composite_name_never_looked_up(
    instr: SpecInstruction,
    rt1: crate::runtime::SpecRuntime,
    rt2: crate::runtime::SpecRuntime,
)
    requires
        rt1.frames == rt2.frames,
        !(spec_eval(instr.partial, rt1.frames) matches Some(SpecValue::Scalar(_))),
    ensures
        spec_render(instr, rt1) == spec_render(instr, rt2),
        spec_render(instr, rt1) == Err::<Seq<char>, SpecRenderError>(
            SpecRenderError {
                problem: SpecRenderProblem::InvalidPartialName { expr: instr.partial },
                trace: seq![
                    SpecTraceFrame { invocation: instr.partial, partial_name: None },
                ],
            },
        ),
{
}

/// When the name resolves to a scalar whose key the partial source does not
/// hold, and the bindings evaluate, the outcome is the not-found error with
/// this occurrence's attribution: never silent empty output.
pub proof fn lemma_missing_partial_fails(
    instr: SpecInstruction,
    rt: crate::runtime::SpecRuntime,
    s: SpecScalar,
)
    requires
        spec_eval(instr.partial, rt.frames) == Some(SpecValue::Scalar(s)),
        assoc_find(rt.partials, spec_scalar_text(s)) is None,
        spec_eval_bindings(instr.vars, 0, rt.frames.push(new_frame(spec_scalar_text(s)))) is Ok,
    ensures
        spec_render(instr, rt) == Err::<Seq<char>, SpecRenderError>(
            SpecRenderError {
                problem: SpecRenderProblem::PartialNotFound { name: spec_scalar_text(s) },
                trace: seq![
                    SpecTraceFrame {
                        invocation: instr.partial,
                        partial_name: Some(spec_scalar_text(s)),
                    },
                ],
            },
        ),
{
}

/// Rendering is a function of the compiled instruction and the runtime's
/// contents alone: two runtimes with the same scopes and the same partial
/// source give the identical output or the identical error. No hidden state
/// survives a render.
pub proof fn lemma_render_deterministic(
    instr: SpecInstruction,
    rt1: crate::runtime::SpecRuntime,
    rt2: crate::runtime::SpecRuntime,
)
    requires
        rt1.frames == rt2.frames,
        rt1.partials == rt2.partials,
    ensures
        spec_render(instr, rt1) == spec_render(instr, rt2),
{
    assert(rt1 == rt2);
}

} // verus!
