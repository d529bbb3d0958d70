//! The plain data values that validators check and coerce.

use vstd::prelude::*;

verus! {

/// A host-supplied data value: the inputs handed to `validate`, the
/// outputs it returns, and any captured defaults are all of this type.
pub enum Value {
    Null,
    Bool(bool),
    Int(i64),
    Str(String),
    List(Vec<Value>),
}

/// The mathematical model of a [`Value`]: integers are unbounded,
/// strings are character sequences and lists are sequences.
pub enum SpecValue {
    Null,
    Bool(bool),
    Int(int),
    Str(Seq<char>),
    List(Seq<SpecValue>),
}

/// Model of a sequence of values, element by element.
pub open spec fn view_seq(items: Seq<Value>) -> Seq<SpecValue>
    decreases items,
    via view_seq_decreases
{
    if items.len() == 0 {
        Seq::empty()
    } else {
        view_seq(items.drop_last()).push(view_value(items.last()))
    }
}

#[via_fn]
proof fn view_seq_decreases(items: Seq<Value>) {
    if items.len() > 0 {
        assert(items.drop_last() == items.subrange(0, items.len() - 1));
        assert(decreases_to!(items => items.subrange(0, items.len() - 1)));
        assert(decreases_to!(items => items.last()));
    }
}

/// Model of a single value.
pub open spec fn view_value(v: Value) -> SpecValue
    decreases v,
    via view_value_decreases
{
    match v {
        Value::Null => SpecValue::Null,
        Value::Bool(b) => SpecValue::Bool(b),
        Value::Int(i) => SpecValue::Int(i as int),
        Value::Str(s) => SpecValue::Str(s@),
        Value::List(items) => SpecValue::List(view_seq(items@)),
    }
}

#[via_fn]
proof fn view_value_decreases(v: Value) {
    match v {
        Value::List(items) => {
            assert(decreases_to!(v => items));
            assert(decreases_to!(items => items@));
        },
        _ => {},
    }
}

impl View for Value {
    type V = SpecValue;

    open spec fn view(&self) -> SpecValue {
        view_value(*self)
    }
}

/// `view_seq` is the element-by-element model: it keeps the length and
/// models each element on its own.
pub broadcast proof fn lemma_view_seq(items: Seq<Value>)
    ensures
        #[trigger] view_seq(items).len() == items.len(),
        forall|i: int| 0 <= i < items.len() ==> view_seq(items)[i] == view_value(items[i]),
    decreases items.len(),
{
    if items.len() > 0 {
        lemma_view_seq(items.drop_last());
        assert(forall|i: int| 0 <= i < items.len() - 1 ==> items.drop_last()[i] == items[i]);
    }
}

/// Structural equality of two values, decided at the model level.
pub fn value_eq(a: &Value, b: &Value) -> (r: bool)
    ensures
        r == (a@ == b@),
    decreases *a,
{
    broadcast use lemma_view_seq;

    match a {
        Value::Null => match b {
            Value::Null => true,
            _ => false,
        },
        Value::Bool(x) => match b {
            Value::Bool(y) => x == y,
            _ => false,
        },
        Value::Int(x) => match b {
            Value::Int(y) => x == y,
            _ => false,
        },
        Value::Str(x) => match b {
            Value::Str(y) => x.eq(y),
            _ => false,
        },
        Value::List(xs) => match b {
            Value::List(ys) => {
            if xs.len() != ys.len() {
                proof {
                    lemma_view_seq(xs@);
                    lemma_view_seq(ys@);
                }
                false
            } else {
                let mut i: usize = 0;
                let mut same: bool = true;
                while i < xs.len()
                    invariant
                        0 <= i <= xs.len(),
                        xs@.len() == ys@.len(),
                        *a == Value::List(*xs),
                        *b == Value::List(*ys),
                        same == (forall|j: int| 0 <= j < i ==> view_value(xs@[j]) == view_value(ys@[j])),
                    decreases xs@.len() - i,
                {
                    proof {
                        assert(decreases_to!((*a) => (*a)->List_0));
                        assert((*a)->List_0 == *xs);
                        assert(decreases_to!(*xs => xs@));
                        assert(decreases_to!(xs@ => xs@[i as int]));
                    }
                    let e = value_eq(&xs[i], &ys[i]);
                    same = same && e;
                    i = i + 1;
                }
                proof {
                    lemma_view_seq(xs@);
                    lemma_view_seq(ys@);
                    if same {
                        assert(view_seq(xs@) =~= view_seq(ys@));
                    } else {
                        assert(view_seq(xs@) != view_seq(ys@)) by {
                            lemma_view_seq(xs@);
                            lemma_view_seq(ys@);
                            let j = choose|j: int|
                                0 <= j < xs@.len() && view_value(xs@[j]) != view_value(ys@[j]);
                            assert(view_seq(xs@)[j] != view_seq(ys@)[j]);
                        }
                    }
                }
                same
            }
            },
            _ => false,
        },
    }
}

/// A deep copy; the copy has the same model as the original.
pub fn clone_value(v: &Value) -> (r: Value)
    ensures
        r@ == v@,
    decreases *v,
{
    broadcast use lemma_view_seq;

    match v {
        Value::Null => Value::Null,
        Value::Bool(b) => Value::Bool(*b),
        Value::Int(i) => Value::Int(*i),
        Value::Str(s) => Value::Str(s.clone()),
        Value::List(items) => {
            let mut out: Vec<Value> = Vec::new();
            let mut i: usize = 0;
            while i < items.len()
                invariant
                    0 <= i <= items.len(),
                    out@.len() == i,
                    *v == Value::List(*items),
                    forall|j: int| 0 <= j < i ==> view_value(out@[j]) == view_value(items@[j]),
                decreases items@.len() - i,
            {
                proof {
                    assert(decreases_to!((*v) => (*v)->List_0));
                    assert((*v)->List_0 == *items);
                    assert(decreases_to!(*items => items@));
                    assert(decreases_to!(items@ => items@[i as int]));
                }
                let c = clone_value(&items[i]);
                out.push(c);
                i = i + 1;
            }
            let r = Value::List(out);
            proof {
                lemma_view_seq(out@);
                lemma_view_seq(items@);
                assert(view_seq(out@) =~= view_seq(items@));
            }
            r
        },
    }
}

} // verus!
