use vstd::prelude::*;
use vstd::string::*;

verus! {

/// A scalar value of the host engine's data model, as far as this component
/// reads it: the partial's name must evaluate to one of these, and only
/// scalars have a canonical text form.
#[derive(Debug, Clone, PartialEq)]
pub enum ScalarVal {
    Int(i64),
    Bool(bool),
    Str(String),
}

/// Mathematical counterpart of `ScalarVal`.
pub enum SpecScalar {
    Int(i64),
    Bool(bool),
    Str(Seq<char>),
}

impl View for ScalarVal {
    type V = SpecScalar;

    open spec fn view(&self) -> SpecScalar {
        match self {
            ScalarVal::Int(i) => SpecScalar::Int(*i),
            ScalarVal::Bool(b) => SpecScalar::Bool(*b),
            ScalarVal::Str(s) => SpecScalar::Str(s@),
        }
    }
}

/// A value a variable may hold: a scalar, or a composite (array or object).
/// Composites are one level deep: that is all the splicing protocol ever
/// inspects of a value.
#[derive(Debug, Clone, PartialEq)]
pub enum ModelValue {
    Scalar(ScalarVal),
    Arr(Vec<ScalarVal>),
    Obj(Vec<(String, ScalarVal)>),
}

/// Mathematical counterpart of `ModelValue`.
pub enum SpecValue {
    Scalar(SpecScalar),
    Arr(Seq<SpecScalar>),
    Obj(Seq<(Seq<char>, SpecScalar)>),
}

impl View for ModelValue {
    type V = SpecValue;

    open spec fn view(&self) -> SpecValue {
        match self {
            ModelValue::Scalar(s) => SpecValue::Scalar(s@),
            ModelValue::Arr(xs) => SpecValue::Arr(xs@.map_values(|x: ScalarVal| x@)),
            ModelValue::Obj(fs) => SpecValue::Obj(
                fs@.map_values(|p: (String, ScalarVal)| (p.0@, p.1@)),
            ),
        }
    }
}

pub open spec fn spec_is_scalar(v: SpecValue) -> bool {
    v is Scalar
}

impl ModelValue {
    /// Whether this value is a scalar, the test the renderer makes before it
    /// will use a value as a partial's name.
    pub fn is_scalar(&self) -> (r: bool)
        ensures
            r == spec_is_scalar(self@),
    {
        matches!(self, ModelValue::Scalar(_))
    }

    /// A verified deep copy; its result has the same view as the original.
    pub fn duplicate(&self) -> (r: ModelValue)
        ensures
            r@ == self@,
    {
        match self {
            ModelValue::Scalar(s) => ModelValue::Scalar(s.duplicate()),
            ModelValue::Arr(xs) => {
                let mut out: Vec<ScalarVal> = Vec::new();
                let mut i: usize = 0;
                while i < xs.len()
                    invariant
                        i <= xs.len(),
                        out@.len() == i,
                        forall|j: int| 0 <= j < i ==> out@[j]@ == xs@[j]@,
                    decreases xs.len() - i,
                {
                    out.push(xs[i].duplicate());
                    i = i + 1;
                }
                proof {
                    assert(out@.map_values(|x: ScalarVal| x@) =~= xs@.map_values(
                        |x: ScalarVal| x@,
                    ));
                }
                ModelValue::Arr(out)
            },
            ModelValue::Obj(fs) => {
                let mut out: Vec<(String, ScalarVal)> = Vec::new();
                let mut i: usize = 0;
                while i < fs.len()
                    invariant
                        i <= fs.len(),
                        out@.len() == i,
                        forall|j: int|
                            0 <= j < i ==> (#[trigger] out@[j]).0@ == fs@[j].0@ && out@[j].1@
                                == fs@[j].1@,
                    decreases fs.len() - i,
                {
                    let key = fs[i].0.clone();
                    let val = fs[i].1.duplicate();
                    out.push((key, val));
                    i = i + 1;
                }
                proof {
                    assert(out@.map_values(|p: (String, ScalarVal)| (p.0@, p.1@)) =~= fs@.map_values(
                        |p: (String, ScalarVal)| (p.0@, p.1@),
                    ));
                }
                ModelValue::Obj(out)
            },
        }
    }
}

impl ScalarVal {
    /// A verified copy; its result has the same view as the original.
    pub fn duplicate(&self) -> (r: ScalarVal)
        ensures
            r@ == self@,
    {
        match self {
            ScalarVal::Int(i) => ScalarVal::Int(*i),
            ScalarVal::Bool(b) => ScalarVal::Bool(*b),
            ScalarVal::Str(s) => ScalarVal::Str(s.clone()),
        }
    }
}

pub open spec fn spec_digit(d: u64) -> char {
    if d == 0 {
        '0'
    } else if d == 1 {
        '1'
    } else if d == 2 {
        '2'
    } else if d == 3 {
        '3'
    } else if d == 4 {
        '4'
    } else if d == 5 {
        '5'
    } else if d == 6 {
        '6'
    } else if d == 7 {
        '7'
    } else if d == 8 {
        '8'
    } else {
        '9'
    }
}

/// Decimal digits of `n`, most significant first.
pub open spec fn spec_dec_u(n: u64) -> Seq<char>
    decreases n,
{
    if n < 10 {
        seq![spec_digit(n)]
    } else {
        spec_dec_u(n / 10) + seq![spec_digit(n % 10)]
    }
}

/// Decimal form of a signed number: a minus sign before the digits of the
/// magnitude when the number is negative.
pub open spec fn spec_dec_i(i: i64) -> Seq<char> {
    if i >= 0 {
        spec_dec_u(i as u64)
    } else {
        seq!['-'] + spec_dec_u((-(i as int)) as u64)
    }
}

/// The canonical text form of a scalar: decimal for numbers, `true`/`false`
/// for booleans, the string itself otherwise.
pub open spec fn spec_scalar_text(s: SpecScalar) -> Seq<char> {
    match s {
        SpecScalar::Int(i) => spec_dec_i(i),
        SpecScalar::Bool(b) => if b {
            "true"@
        } else {
            "false"@
        },
        SpecScalar::Str(t) => t,
    }
}

fn digit_str(d: u64) -> (r: &'static str)
    requires
        d < 10,
    ensures
        r@ == seq![spec_digit(d)],
{
    if d == 0 {
        proof {
            reveal_strlit("0");
            assert("0"@ =~= seq![spec_digit(0)]);
        }
        "0"
    } else if d == 1 {
        proof {
            reveal_strlit("1");
            assert("1"@ =~= seq![spec_digit(1)]);
        }
        "1"
    } else if d == 2 {
        proof {
            reveal_strlit("2");
            assert("2"@ =~= seq![spec_digit(2)]);
        }
        "2"
    } else if d == 3 {
        proof {
            reveal_strlit("3");
            assert("3"@ =~= seq![spec_digit(3)]);
        }
        "3"
    } else if d == 4 {
        proof {
            reveal_strlit("4");
            assert("4"@ =~= seq![spec_digit(4)]);
        }
        "4"
    } else if d == 5 {
        proof {
            reveal_strlit("5");
            assert("5"@ =~= seq![spec_digit(5)]);
        }
        "5"
    } else if d == 6 {
        proof {
            reveal_strlit("6");
            assert("6"@ =~= seq![spec_digit(6)]);
        }
        "6"
    } else if d == 7 {
        proof {
            reveal_strlit("7");
            assert("7"@ =~= seq![spec_digit(7)]);
        }
        "7"
    } else if d == 8 {
        proof {
            reveal_strlit("8");
            assert("8"@ =~= seq![spec_digit(8)]);
        }
        "8"
    } else {
        proof {
            reveal_strlit("9");
            assert("9"@ =~= seq![spec_digit(9)]);
        }
        "9"
    }
}

fn dec_u(n: u64) -> (r: String)
    ensures
        r@ == spec_dec_u(n),
    decreases n,
{
    if n < 10 {
        digit_str(n).to_owned()
    } else {
        let mut s = dec_u(n / 10);
        s.append(digit_str(n % 10));
        s
    }
}

fn dec_i(i: i64) -> (r: String)
    ensures
        r@ == spec_dec_i(i),
{
    if i >= 0 {
        dec_u(i as u64)
    } else {
        let m: u64 = ((-(i + 1)) as u64) + 1;
        proof {
            assert(m == (-(i as int)) as u64);
        }
        let mut s = "-".to_owned();
        proof {
            reveal_strlit("-");
            assert("-"@ =~= seq!['-']);
        }
        let digits = dec_u(m);
        s.append(digits.as_str());
        s
    }
}

/// Render a scalar to its text form; this is how a scalar becomes a partial's
/// lookup key, and how it is spliced into output text.
pub fn scalar_text(s: &ScalarVal) -> (r: String)
    ensures
        r@ == spec_scalar_text(s@),
{
    match s {
        ScalarVal::Int(i) => dec_i(*i),
        ScalarVal::Bool(b) => if *b {
            "true".to_owned()
        } else {
            "false".to_owned()
        },
        ScalarVal::Str(t) => t.clone(),
    }
}

} // verus!
