use vstd::prelude::*;
use vstd::string::*;

use crate::value::{ModelValue, SpecValue};

verus! {

/// An unevaluated expression, as far as the splicing tag reads one: either a
/// literal value or a reference into the variable scopes, a path of names.
#[derive(Debug, Clone, PartialEq)]
pub enum Expr {
    Lit(ModelValue),
    Var(Vec<String>),
}

/// Mathematical counterpart of `Expr`.
pub enum SpecExpr {
    Lit(SpecValue),
    Var(Seq<Seq<char>>),
}

impl View for Expr {
    type V = SpecExpr;

    open spec fn view(&self) -> SpecExpr {
        match self {
            Expr::Lit(v) => SpecExpr::Lit(v@),
            Expr::Var(p) => SpecExpr::Var(p.deep_view()),
        }
    }
}

impl Expr {
    /// A verified deep copy; its result has the same view as the original.
    pub fn duplicate(&self) -> (r: Expr)
        ensures
            r@ == self@,
    {
        match self {
            Expr::Lit(v) => Expr::Lit(v.duplicate()),
            Expr::Var(p) => Expr::Var(clone_path(p)),
        }
    }
}

/// A verified copy of a variable path.
pub fn clone_path(p: &Vec<String>) -> (r: Vec<String>)
    ensures
        r.deep_view() == p.deep_view(),
{
    let mut out: Vec<String> = Vec::new();
    let mut i: usize = 0;
    while i < p.len()
        invariant
            i <= p.len(),
            out@.len() == i,
            forall|j: int| 0 <= j < i ==> out@[j]@ == p@[j]@,
        decreases p.len() - i,
    {
        out.push(p[i].clone());
        i = i + 1;
    }
    proof {
        assert(out.deep_view() =~= p.deep_view());
    }
    out
}

/// One lexical variable frame: a descriptive label, its own variables, and
/// optionally the reserved binding object that a splice installed in it.
#[derive(Debug, Clone, PartialEq)]
pub struct Frame {
    pub label: String,
    pub vars: Vec<(String, ModelValue)>,
    pub bound: Option<Vec<(String, ModelValue)>>,
}

/// Mathematical counterpart of `Frame`.
pub struct SpecFrame {
    pub label: Seq<char>,
    pub vars: Seq<(Seq<char>, SpecValue)>,
    pub bound: Option<Seq<(Seq<char>, SpecValue)>>,
}

pub open spec fn pairs_view(vs: Seq<(String, ModelValue)>) -> Seq<(Seq<char>, SpecValue)> {
    vs.map_values(|p: (String, ModelValue)| (p.0@, p.1@))
}

impl View for Frame {
    type V = SpecFrame;

    open spec fn view(&self) -> SpecFrame {
        SpecFrame {
            label: self.label@,
            vars: pairs_view(self.vars@),
            bound: match self.bound {
                Some(b) => Some(pairs_view(b@)),
                None => None,
            },
        }
    }
}

/// One node of a partial's body: literal text, or the text form of a variable.
#[derive(Debug, Clone, PartialEq)]
pub enum Node {
    Text(String),
    Out(Vec<String>),
}

/// Mathematical counterpart of `Node`.
pub enum SpecNode {
    Text(Seq<char>),
    Out(Seq<Seq<char>>),
}

impl View for Node {
    type V = SpecNode;

    open spec fn view(&self) -> SpecNode {
        match self {
            Node::Text(t) => SpecNode::Text(t@),
            Node::Out(p) => SpecNode::Out(p.deep_view()),
        }
    }
}

/// A partial in its renderable form: the body the engine will splice in.
#[derive(Debug, Clone, PartialEq)]
pub struct Partial {
    pub nodes: Vec<Node>,
}

/// Mathematical counterpart of `Partial`.
pub struct SpecPartial {
    pub nodes: Seq<SpecNode>,
}

impl View for Partial {
    type V = SpecPartial;

    open spec fn view(&self) -> SpecPartial {
        SpecPartial { nodes: self.nodes@.map_values(|n: Node| n@) }
    }
}

impl Node {
    /// A verified deep copy; its result has the same view as the original.
    pub fn duplicate(&self) -> (r: Node)
        ensures
            r@ == self@,
    {
        match self {
            Node::Text(t) => Node::Text(t.clone()),
            Node::Out(p) => Node::Out(clone_path(p)),
        }
    }
}

impl Partial {
    /// A verified deep copy; its result has the same view as the original.
    pub fn duplicate(&self) -> (r: Partial)
        ensures
            r@ == self@,
    {
        let mut nodes: Vec<Node> = Vec::new();
        let mut i: usize = 0;
        while i < self.nodes.len()
            invariant
                i <= self.nodes.len(),
                nodes@.len() == i,
                forall|j: int| 0 <= j < i ==> nodes@[j]@ == self.nodes@[j]@,
            decreases self.nodes.len() - i,
        {
            nodes.push(self.nodes[i].duplicate());
            i = i + 1;
        }
        proof {
            assert(nodes@.map_values(|n: Node| n@) =~= self.nodes@.map_values(|n: Node| n@));
        }
        Partial { nodes }
    }
}

/// The render-time state the splicing tag works against: the scope chain
/// (outermost frame first) and the partial source, a read-only registry of
/// partials by name.
#[derive(Debug, Clone, PartialEq)]
pub struct RuntimeModel {
    pub frames: Vec<Frame>,
    pub partials: Vec<(String, Partial)>,
}

/// Mathematical counterpart of `RuntimeModel`.
pub struct SpecRuntime {
    pub frames: Seq<SpecFrame>,
    pub partials: Seq<(Seq<char>, SpecPartial)>,
}

impl View for RuntimeModel {
    type V = SpecRuntime;

    open spec fn view(&self) -> SpecRuntime {
        SpecRuntime {
            frames: self.frames@.map_values(|f: Frame| f@),
            partials: self.partials@.map_values(|p: (String, Partial)| (p.0@, p.1@)),
        }
    }
}

/// The reserved name under which a splice's explicit bindings are exposed to
/// the partial it renders.
pub open spec fn spec_reserved() -> Seq<char> {
    "include"@
}

/// The reserved binding name, as a runtime string.
pub fn reserved_name() -> (r: String)
    ensures
        r@ == spec_reserved(),
{
    String::from_str("include")
}

/// First entry of `s` at index `i` or later whose key is `key`.
pub open spec fn assoc_find_from<V>(s: Seq<(Seq<char>, V)>, i: int, key: Seq<char>) -> Option<V>
    decreases s.len() - i,
{
    if i < 0 || i >= s.len() {
        None
    } else if s[i].0 == key {
        Some(s[i].1)
    } else {
        assoc_find_from(s, i + 1, key)
    }
}

/// First entry of `s` whose key is `key`.
pub open spec fn assoc_find<V>(s: Seq<(Seq<char>, V)>, key: Seq<char>) -> Option<V> {
    assoc_find_from(s, 0, key)
}

/// A scan that saw no match up to `i` may resume at `i`.
pub proof fn lemma_assoc_prefix<V>(s: Seq<(Seq<char>, V)>, i: int, key: Seq<char>)
    requires
        0 <= i <= s.len(),
        forall|j: int| 0 <= j < i ==> s[j].0 != key,
    ensures
        assoc_find(s, key) == assoc_find_from(s, i, key),
    decreases i,
{
    if i > 0 {
        lemma_assoc_prefix(s, i - 1, key);
    }
}

/// Linear scan of an association vector of values.
pub fn find_pair<'a>(vs: &'a Vec<(String, ModelValue)>, key: &String) -> (r: Option<
    &'a ModelValue,
>)
    ensures
        match r {
            Some(v) => assoc_find(pairs_view(vs@), key@) == Some(v@),
            None => assoc_find(pairs_view(vs@), key@) is None,
        },
{
    let mut i: usize = 0;
    while i < vs.len()
        invariant
            i <= vs.len(),
            forall|j: int| 0 <= j < i ==> pairs_view(vs@)[j].0 != key@,
        decreases vs.len() - i,
    {
        if vs[i].0 == *key {
            proof {
                lemma_assoc_prefix(pairs_view(vs@), i as int, key@);
            }
            return Some(&vs[i].1);
        }
        i = i + 1;
    }
    proof {
        lemma_assoc_prefix(pairs_view(vs@), vs@.len() as int, key@);
    }
    None
}

/// Linear scan of the partial source.
pub fn find_partial<'a>(ps: &'a Vec<(String, Partial)>, key: &String) -> (r: Option<&'a Partial>)
    ensures
        match r {
            Some(p) => assoc_find(
                ps@.map_values(|q: (String, Partial)| (q.0@, q.1@)),
                key@,
            ) == Some(p@),
            None => assoc_find(ps@.map_values(|q: (String, Partial)| (q.0@, q.1@)), key@) is None,
        },
{
    let ghost sv = ps@.map_values(|q: (String, Partial)| (q.0@, q.1@));
    let mut i: usize = 0;
    while i < ps.len()
        invariant
            i <= ps.len(),
            sv == ps@.map_values(|q: (String, Partial)| (q.0@, q.1@)),
            forall|j: int| 0 <= j < i ==> sv[j].0 != key@,
        decreases ps.len() - i,
    {
        if ps[i].0 == *key {
            proof {
                lemma_assoc_prefix(sv, i as int, key@);
            }
            return Some(&ps[i].1);
        }
        i = i + 1;
    }
    proof {
        lemma_assoc_prefix(sv, ps@.len() as int, key@);
    }
    None
}

/// Resolution of the tail of a path, positions `pos` and later, inside an
/// already found value: at most one further step, into an object's field.
pub open spec fn resolve_in_value(v: SpecValue, path: Seq<Seq<char>>, pos: int) -> Option<
    SpecValue,
> {
    if pos >= path.len() {
        Some(v)
    } else if pos == path.len() - 1 {
        match v {
            SpecValue::Obj(fs) => match assoc_find(fs, path[pos]) {
                Some(s) => Some(SpecValue::Scalar(s)),
                None => None,
            },
            _ => None,
        }
    } else {
        None
    }
}

/// Whether a frame answers for the head of a path: either through the
/// reserved binding object, or through one of its own variables.
pub open spec fn frame_has_head(f: SpecFrame, head: Seq<char>) -> bool {
    (head == spec_reserved() && f.bound is Some) || assoc_find(f.vars, head) is Some
}

/// Resolution of a whole path within one frame. The reserved binding object
/// shadows a variable of the same name, and is visible only field-wise.
pub open spec fn frame_resolve(f: SpecFrame, path: Seq<Seq<char>>) -> Option<SpecValue> {
    if path[0] == spec_reserved() && f.bound is Some {
        if path.len() == 2 {
            match assoc_find(f.bound.unwrap(), path[1]) {
                Some(v) => Some(v),
                None => None,
            }
        } else {
            None
        }
    } else {
        match assoc_find(f.vars, path[0]) {
            Some(v) => resolve_in_value(v, path, 1),
            None => None,
        }
    }
}

/// Lookup through the innermost `n` frames: the innermost frame that answers
/// for the path's head resolves the whole path; other frames are not
/// consulted once a head is found.
pub open spec fn chain_lookup_upto(frames: Seq<SpecFrame>, n: int, path: Seq<Seq<char>>) -> Option<
    SpecValue,
>
    decreases n,
{
    if n <= 0 || n > frames.len() {
        None
    } else if frame_has_head(frames[n - 1], path[0]) {
        frame_resolve(frames[n - 1], path)
    } else {
        chain_lookup_upto(frames, n - 1, path)
    }
}

/// Lookup through the whole scope chain, innermost frame first.
pub open spec fn chain_lookup(frames: Seq<SpecFrame>, path: Seq<Seq<char>>) -> Option<SpecValue> {
    chain_lookup_upto(frames, frames.len() as int, path)
}

/// What an expression evaluates to against a scope chain; `None` is an
/// evaluation failure (an unresolvable reference or an empty path).
pub open spec fn spec_eval(e: SpecExpr, frames: Seq<SpecFrame>) -> Option<SpecValue> {
    match e {
        SpecExpr::Lit(v) => Some(v),
        SpecExpr::Var(p) => if p.len() == 0 {
            None
        } else {
            chain_lookup(frames, p)
        },
    }
}

impl Frame {
    /// Whether this frame answers for `head`.
    pub fn has_head(&self, head: &String) -> (r: bool)
        ensures
            r == frame_has_head(self@, head@),
    {
        let reserved = reserved_name();
        if *head == reserved && self.bound.is_some() {
            true
        } else {
            find_pair(&self.vars, head).is_some()
        }
    }

    /// Resolve a whole path within this frame.
    pub fn resolve(&self, path: &Vec<String>) -> (r: Option<ModelValue>)
        requires
            path@.len() >= 1,
        ensures
            match r {
                Some(v) => frame_resolve(self@, path.deep_view()) == Some(v@),
                None => frame_resolve(self@, path.deep_view()) is None,
            },
    {
        let reserved = reserved_name();
        if path[0] == reserved && self.bound.is_some() {
            let bound = self.bound.as_ref().unwrap();
            if path.len() == 2 {
                match find_pair(bound, &path[1]) {
                    Some(v) => Some(v.duplicate()),
                    None => None,
                }
            } else {
                None
            }
        } else {
            match find_pair(&self.vars, &path[0]) {
                Some(v) => {
                    if path.len() == 1 {
                        Some(v.duplicate())
                    } else if path.len() == 2 {
                        proof {
                            assert(path.deep_view()[1] == path@[1]@);
                        }
                        match obj_field(v, &path[1]) {
                            Some(s) => Some(ModelValue::Scalar(s)),
                            None => None,
                        }
                    } else {
                        None
                    }
                },
                None => None,
            }
        }
    }
}

pub open spec fn pairs_obj_view(fs: Seq<(String, crate::value::ScalarVal)>) -> Seq<
    (Seq<char>, crate::value::SpecScalar),
> {
    fs.map_values(|p: (String, crate::value::ScalarVal)| (p.0@, p.1@))
}

/// Look a field up in a value, when the value is an object.
pub fn obj_field(v: &ModelValue, key: &String) -> (r: Option<crate::value::ScalarVal>)
    ensures
        match r {
            Some(s) => v@ matches SpecValue::Obj(fs) && assoc_find(fs, key@) == Some(s@),
            None => (v@ matches SpecValue::Obj(fs) ==> assoc_find(fs, key@) is None) && (!(v@
                matches SpecValue::Obj(fs2)) ==> r is None),
        },
{
    match v {
        ModelValue::Obj(fs) => {
            let ghost fsv = pairs_obj_view(fs@);
            proof {
                assert(v@ == SpecValue::Obj(fsv));
            }
            let mut i: usize = 0;
            while i < fs.len()
                invariant
                    i <= fs.len(),
                    fsv == pairs_obj_view(fs@),
                    v@ == SpecValue::Obj(fsv),
                    forall|j: int| 0 <= j < i ==> fsv[j].0 != key@,
                decreases fs.len() - i,
            {
                if fs[i].0 == *key {
                    proof {
                        lemma_assoc_prefix(fsv, i as int, key@);
                    }
                    return Some(fs[i].1.duplicate());
                }
                i = i + 1;
            }
            proof {
                lemma_assoc_prefix(fsv, fs@.len() as int, key@);
            }
            None
        },
        _ => None,
    }
}

impl RuntimeModel {
    /// Lookup through the innermost `n` frames of the chain.
    pub fn lookup_upto(&self, n: usize, path: &Vec<String>) -> (r: Option<ModelValue>)
        requires
            n <= self.frames@.len(),
            path@.len() >= 1,
        ensures
            match r {
                Some(v) => chain_lookup_upto(self@.frames, n as int, path.deep_view()) == Some(v@),
                None => chain_lookup_upto(self@.frames, n as int, path.deep_view()) is None,
            },
        decreases n,
    {
        if n == 0 {
            None
        } else if self.frames[n - 1].has_head(&path[0]) {
            self.frames[n - 1].resolve(path)
        } else {
            self.lookup_upto(n - 1, path)
        }
    }

    /// Lookup through the whole scope chain, innermost frame first.
    pub fn lookup(&self, path: &Vec<String>) -> (r: Option<ModelValue>)
        requires
            path@.len() >= 1,
        ensures
            match r {
                Some(v) => chain_lookup(self@.frames, path.deep_view()) == Some(v@),
                None => chain_lookup(self@.frames, path.deep_view()) is None,
            },
    {
        self.lookup_upto(self.frames.len(), path)
    }
}

/// Evaluate an expression against the scope chain of `rt`.
pub fn eval_expr(e: &Expr, rt: &RuntimeModel) -> (r: Option<ModelValue>)
    ensures
        match r {
            Some(v) => spec_eval(e@, rt@.frames) == Some(v@),
            None => spec_eval(e@, rt@.frames) is None,
        },
{
    match e {
        Expr::Lit(v) => Some(v.duplicate()),
        Expr::Var(p) => {
            if p.len() == 0 {
                None
            } else {
                rt.lookup(p)
            }
        },
    }
}

} // verus!
