//! The validator variant tree and its capability set.
//!
//! Every variant of [`CombinedValidator`] offers the same capabilities:
//! `validate`, `default_value`, `get_name`, `ask` and `complete`.  A
//! built, completed tree is immutable; every top-level `validate` call
//! threads its own fresh recursion guard and call context through the
//! whole tree.

use vstd::prelude::*;

use crate::errors::{ErrorKind, LocItem, ValError};
use crate::guard::{MarkerId, RecursionGuard};
use crate::schema::BuildError;
use crate::semantics::{
    all_digits, digits_value, dres_view, find_slot, is_digit, lemma_digits_nonneg,
    lemma_digits_prefix_le, lemma_find_slot, res_view, s_ask, s_complete, s_cv_default_value,
    s_int, s_list, s_name, sfuel, spec_outer, spec_parse_int, sv_height, sval, view_vseq,
    wf_slots, wf_validator, SpecValidator,
};
use crate::value::{clone_value, Value};
use crate::with_default::WithDefaultValidator;

verus! {

/// Immutable per-call ambient state, threaded unchanged through every
/// nested validation call.
pub struct Extra {
    /// In strict mode the integer validator accepts only integers; in
    /// lax mode it also coerces booleans and digit strings.
    pub strict: bool,
}

/// A structural question about a validator subtree, answerable without
/// running any validation.
#[derive(Clone, Copy, PartialEq, Eq, Structural)]
pub enum Question {
    /// Does the subtree contain a slot-reference validator?
    ContainsRef,
}

/// Host-side factory bookkeeping: how many times any default factory
/// has been invoked.  A factory is invoked fresh on every use and its
/// invocations are never cached, so this count is observable behaviour.
pub struct FactoryState {
    pub calls: u64,
}

impl FactoryState {
    pub fn new() -> (fs: FactoryState)
        ensures
            fs.calls == 0,
    {
        FactoryState { calls: 0 }
    }
}

/// Where a reference validator points: at a named reference still to be
/// resolved by the completion pass, or at a resolved slot index.
#[derive(Clone, Copy, PartialEq, Eq, Structural)]
pub enum RefTarget {
    Named(u64),
    Slot(usize),
}

/// Validates every element of a list input against `item`.
pub struct ListValidator {
    pub item: Box<CombinedValidator>,
    pub name: String,
}

/// Points into the slot table; used by self-referential schemas.
pub struct RefValidator {
    pub target: RefTarget,
}

/// The closed set of validator kinds, one variant per kind.
pub enum CombinedValidator {
    Int,
    Any,
    List(ListValidator),
    Ref(RefValidator),
    WithDefault(WithDefaultValidator),
}

impl View for CombinedValidator {
    type V = SpecValidator;

    open spec fn view(&self) -> SpecValidator
        decreases self,
    {
        match self {
            CombinedValidator::Int => SpecValidator::Int,
            CombinedValidator::Any => SpecValidator::Any,
            CombinedValidator::List(l) => SpecValidator::List {
                item: Box::new((*l.item)@),
                name: l.name@,
            },
            CombinedValidator::Ref(r) => SpecValidator::Ref { target: r.target },
            CombinedValidator::WithDefault(w) => w@,
        }
    }
}

/// Read a decimal integer out of a string: an optional minus sign and
/// one or more digits, rejected when the value does not fit.
#[verifier::loop_isolation(false)]
pub fn parse_int_str(s: &str) -> (r: Option<i64>)
    ensures
        r is Some ==> spec_parse_int(s@) == Option::Some(r->0 as int),
        r is None ==> match spec_parse_int(s@) {
            Option::Some(n) => !(i64::MIN <= n && n <= i64::MAX),
            Option::None => true,
        },
{
    let n = s.unicode_len();
    if n == 0 {
        return Option::None;
    }
    let neg = s.get_char(0) == '-';
    let start: usize = if neg { 1 } else { 0 };
    if start == n {
        return Option::None;
    }
    let ghost ds: Seq<char> = if neg { s@.skip(1) } else { s@ };
    proof {
        assert(ds.len() == n - start);
        assert(forall|j: int| 0 <= j < ds.len() ==> ds[j] == s@[j + start]);
        assert(ds.take(0) =~= Seq::<char>::empty());
    }
    let mag: u64 = 9223372036854775808u64;
    let mut acc: u64 = 0;
    let mut i: usize = start;
    while i < n
        invariant
            start <= i <= n,
            n == s@.len(),
            start == (if neg { 1int } else { 0int }),
            neg ==> s@[0] == '-',
            !neg ==> (s@.len() > 0 && s@[0] != '-'),
            ds == (if neg { s@.skip(1) } else { s@ }),
            ds.len() == n - start,
            forall|j: int| 0 <= j < ds.len() ==> ds[j] == s@[j + start],
            all_digits(ds.take(i - start)),
            acc as int == digits_value(ds.take(i - start)),
            acc <= 9223372036854775808u64,
        decreases n - i,
    {
        let c = s.get_char(i);
        let cu = c as u32;
        if !(48 <= cu && cu <= 57) {
            proof {
                assert(!is_digit(ds[i - start]));
                assert(spec_parse_int(s@) is None);
            }
            return Option::None;
        }
        let d = (cu - 48) as u64;
        let ghost pre = ds.take(i - start);
        let acc2: u128 = acc as u128 * 10 + d as u128;
        proof {
            assert(ds.take(i - start + 1).drop_last() =~= pre);
            assert(ds.take(i - start + 1).last() == ds[i - start]);
            assert(digits_value(ds.take(i - start + 1)) == digits_value(pre) * 10 + (c as int
                - 48));
            assert(all_digits(ds.take(i - start + 1)));
        }
        if acc2 > mag as u128 {
            proof {
                if all_digits(ds) {
                    lemma_digits_prefix_le(ds, i - start + 1);
                    assert(digits_value(ds) >= acc2);
                    if neg {
                        assert(spec_parse_int(s@) == Option::Some(-digits_value(ds)));
                        assert(-digits_value(ds) < i64::MIN);
                    } else {
                        assert(spec_parse_int(s@) == Option::Some(digits_value(ds)));
                        assert(digits_value(ds) > i64::MAX);
                    }
                } else {
                    assert(spec_parse_int(s@) is None);
                }
            }
            return Option::None;
        }
        acc = acc2 as u64;
        proof {
            assert(acc2 <= 9223372036854775808u128);
            assert(acc as u128 == acc2);
        }
        i = i + 1;
    }
    proof {
        assert(ds.take(i - start) =~= ds);
        assert(all_digits(ds));
        assert(acc as int == digits_value(ds));
        assert(ds.len() > 0);
        if neg {
            assert(spec_parse_int(s@) == Option::Some(-digits_value(ds)));
        } else {
            assert(spec_parse_int(s@) == Option::Some(digits_value(ds)));
        }
    }
    if neg {
        if acc == mag {
            Option::Some(i64::MIN)
        } else {
            Option::Some(-(acc as i64))
        }
    } else {
        if acc >= mag {
            proof {
                assert(digits_value(ds) > i64::MAX);
            }
            Option::None
        } else {
            Option::Some(acc as i64)
        }
    }
}

/// What the integer-coercion validator returns for one input.
pub fn validate_int(strict: bool, input: &Value) -> (res: Result<Value, ValError>)
    ensures
        res_view(res) == s_int(strict, input@),
{
    match input {
        Value::Int(i) => Result::Ok(Value::Int(*i)),
        Value::Bool(b) => {
            if strict {
                Result::Err(ValError::new_line(ErrorKind::IntType, clone_value(input)))
            } else {
                Result::Ok(Value::Int(if *b { 1 } else { 0 }))
            }
        },
        Value::Str(s) => {
            if strict {
                Result::Err(ValError::new_line(ErrorKind::IntType, clone_value(input)))
            } else {
                match parse_int_str(s.as_str()) {
                    Option::Some(v) => Result::Ok(Value::Int(v)),
                    Option::None => Result::Err(
                        ValError::new_line(ErrorKind::IntParsing, clone_value(input)),
                    ),
                }
            }
        },
        _ => Result::Err(ValError::new_line(ErrorKind::IntType, clone_value(input))),
    }
}

/// The first slot reserved under `id`, scanning in slot order.
pub fn find_slot_index(ids: &Vec<u64>, id: u64) -> (r: Option<usize>)
    ensures
        match r {
            Option::Some(i) => find_slot(ids@, id) == Option::Some(i as int),
            Option::None => find_slot(ids@, id) is None,
        },
{
    proof {
        lemma_find_slot(ids@, id);
    }
    let mut i: usize = 0;
    while i < ids.len()
        invariant
            0 <= i <= ids@.len(),
            forall|j: int| 0 <= j < i ==> ids@[j] != id,
            match find_slot(ids@, id) {
                Option::Some(k) => 0 <= k < ids@.len() && ids@[k] == id && (forall|j: int|
                    0 <= j < k ==> ids@[j] != id),
                Option::None => forall|j: int| 0 <= j < ids@.len() ==> ids@[j] != id,
            },
        decreases ids@.len() - i,
    {
        if ids[i] == id {
            return Option::Some(i);
        }
        i = i + 1;
    }
    Option::None
}

impl CombinedValidator {
    /// Check or coerce one input value against this validator,
    /// recursing into owned and slot-referenced children.
    pub fn validate(
        &self,
        input: &Value,
        extra: &Extra,
        slots: &Vec<CombinedValidator>,
        guard: &mut RecursionGuard,
        fs: &mut FactoryState,
    ) -> (res: Result<Value, ValError>)
        requires
            wf_validator((*self)@, slots@.len() as int),
            wf_slots(view_vseq(slots@)),
        ensures
            res_view(res) == sval(
                (*self)@,
                view_vseq(slots@),
                extra.strict,
                input@,
                old(guard).active(),
                old(guard).ceiling(),
            ),
            final(guard).active() == old(guard).active(),
            final(guard).ceiling() == old(guard).ceiling(),
            final(fs).calls >= old(fs).calls,
        decreases sfuel(guard.active().len(), guard.ceiling()), sv_height((*self)@), 0nat, 2nat,
    {
        match self {
            CombinedValidator::Int => validate_int(extra.strict, input),
            CombinedValidator::Any => Result::Ok(clone_value(input)),
            CombinedValidator::WithDefault(w) => w.validate(input, extra, slots, guard, fs),
            CombinedValidator::Ref(r) => match r.target {
                RefTarget::Slot(i) => {
                    let entered = guard.enter(MarkerId::Slot(i), input);
                    if !entered {
                        Result::Err(
                            ValError::new_line(ErrorKind::RecursionLoop, clone_value(input)),
                        )
                    } else {
                        let sub = &slots[i];
                        proof {
                            assert(view_vseq(slots@)[i as int] == sub@);
                        }
                        let res = sub.validate(input, extra, slots, guard, fs);
                        guard.exit();
                        proof {
                            assert(old(guard).active().push(
                                (MarkerId::Slot(i), input@),
                            ).drop_last() =~= old(guard).active());
                        }
                        res
                    }
                },
                RefTarget::Named(_) => {
                    proof {
                        assert(false);
                    }
                    Result::Err(ValError::Omit)
                },
            },
            CombinedValidator::List(l) => match input {
                Value::List(elems) => {
                    let ghost g0 = guard.active();
                    let ghost c0 = guard.ceiling();
                    let ghost sl = view_vseq(slots@);
                    let ghost ev = crate::value::view_seq(elems@);
                    let mut vals: Vec<Value> = Vec::new();
                    let mut errs: Vec<crate::errors::ValLineError> = Vec::new();
                    let mut i: usize = 0;
                    proof {
                        crate::value::lemma_view_seq(elems@);
                        assert(crate::value::view_seq(vals@) =~= Seq::<
                            crate::value::SpecValue,
                        >::empty());
                        assert(crate::errors::view_lines(errs@) =~= Seq::<
                            crate::errors::SpecLineError,
                        >::empty());
                    }
                    while i < elems.len()
                        invariant
                            0 <= i <= elems@.len(),
                            ev == crate::value::view_seq(elems@),
                            ev.len() == elems@.len(),
                            forall|j: int| 0 <= j < elems@.len() ==> ev[j] == elems@[j]@,
                            wf_validator((*l.item)@, slots@.len() as int),
                            wf_slots(view_vseq(slots@)),
                            sl == view_vseq(slots@),
                            sv_height((*l.item)@) < sv_height((*self)@),
                            guard.active() == g0,
                            guard.ceiling() == c0,
                            g0 == old(guard).active(),
                            c0 == old(guard).ceiling(),
                            fs.calls >= old(fs).calls,
                            s_list(
                                (*l.item)@,
                                sl,
                                extra.strict,
                                ev,
                                i as int,
                                crate::value::view_seq(vals@),
                                crate::errors::view_lines(errs@),
                                g0,
                                c0,
                            ) == s_list(
                                (*l.item)@,
                                sl,
                                extra.strict,
                                ev,
                                0,
                                Seq::empty(),
                                Seq::empty(),
                                g0,
                                c0,
                            ),
                        decreases elems@.len() - i,
                    {
                        let ghost vraw0 = vals@;
                        let ghost vals0 = crate::value::view_seq(vals@);
                        let ghost errs0 = crate::errors::view_lines(errs@);
                        let r = l.item.validate(&elems[i], extra, slots, guard, fs);
                        match r {
                            Result::Ok(v) => {
                                vals.push(v);
                                proof {
                                    assert(vals@.drop_last() =~= vraw0);
                                    assert(crate::value::view_seq(vals@) =~= vals0.push(
                                        vals@.last()@,
                                    )) by {
                                        crate::value::lemma_view_seq(vals@);
                                        crate::value::lemma_view_seq(vraw0);
                                    }
                                }
                            },
                            Result::Err(e) => match e {
                                ValError::Omit => {},
                                ValError::LineErrors(ls) => {
                                    let e2 = ValError::LineErrors(ls).with_outer_location(
                                        LocItem::Index(i),
                                    );
                                    match e2 {
                                        ValError::LineErrors(mut ls2) => {
                                            let ghost ls2v = crate::errors::view_lines(ls2@);
                                            errs.append(&mut ls2);
                                            proof {
                                                assert(crate::errors::view_lines(errs@) =~= errs0
                                                    + ls2v);
                                            }
                                        },
                                        ValError::Omit => {
                                            proof {
                                                assert(false);
                                            }
                                        },
                                    }
                                },
                            },
                        }
                        i = i + 1;
                    }
                    proof {
                        assert(crate::value::view_seq(vals@) == s_list(
                            (*l.item)@,
                            sl,
                            extra.strict,
                            ev,
                            0,
                            Seq::empty(),
                            Seq::empty(),
                            g0,
                            c0,
                        ).0);
                        assert(crate::errors::view_lines(errs@) == s_list(
                            (*l.item)@,
                            sl,
                            extra.strict,
                            ev,
                            0,
                            Seq::empty(),
                            Seq::empty(),
                            g0,
                            c0,
                        ).1);
                    }
                    if errs.len() == 0 {
                        let out = Value::List(vals);
                        Result::Ok(out)
                    } else {
                        Result::Err(ValError::LineErrors(errs))
                    }
                },
                _ => Result::Err(ValError::new_line(ErrorKind::ListType, clone_value(input))),
            },
        }
    }

    /// Supply a default for an absent field; only the decorator has
    /// one, every other kind answers "no default present".
    pub fn default_value(
        &self,
        outer_loc: Option<LocItem>,
        extra: &Extra,
        slots: &Vec<CombinedValidator>,
        guard: &mut RecursionGuard,
        fs: &mut FactoryState,
    ) -> (res: Result<Option<Value>, ValError>)
        requires
            wf_validator((*self)@, slots@.len() as int),
            wf_slots(view_vseq(slots@)),
        ensures
            dres_view(res) == s_cv_default_value(
                (*self)@,
                view_vseq(slots@),
                extra.strict,
                spec_outer(outer_loc),
                old(guard).active(),
                old(guard).ceiling(),
            ),
            final(guard).active() == old(guard).active(),
            final(guard).ceiling() == old(guard).ceiling(),
            final(fs).calls >= old(fs).calls,
        decreases sfuel(guard.active().len(), guard.ceiling()), sv_height((*self)@), 0nat, 2nat,
    {
        match self {
            CombinedValidator::WithDefault(w) => w.default_value(
                outer_loc,
                extra,
                slots,
                guard,
                fs,
            ),
            _ => Result::Ok(Option::None),
        }
    }

    /// The composed display name of this validator.
    pub fn get_name(&self) -> (r: String)
        ensures
            r@ == s_name((*self)@),
    {
        match self {
            CombinedValidator::Int => String::from_str("int"),
            CombinedValidator::Any => String::from_str("any"),
            CombinedValidator::Ref(_) => String::from_str("ref"),
            CombinedValidator::List(l) => l.name.clone(),
            CombinedValidator::WithDefault(w) => w.get_name(),
        }
    }

    /// Answer a structural question about this subtree without running
    /// any validation.
    pub fn ask(&self, q: &Question) -> (r: bool)
        ensures
            r == s_ask((*self)@, *q),
        decreases sv_height((*self)@),
    {
        match self {
            CombinedValidator::Int => false,
            CombinedValidator::Any => false,
            CombinedValidator::Ref(_) => true,
            CombinedValidator::List(l) => l.item.ask(q),
            CombinedValidator::WithDefault(w) => w.ask(q),
        }
    }

    /// Second build phase: resolve deferred named references against
    /// the now fully populated slot table.
    pub fn complete(self, ids: &Vec<u64>) -> (res: Result<CombinedValidator, BuildError>)
        ensures
            ({
                let sc = s_complete(self@, ids@);
                match res {
                    Result::Ok(v) => sc is Ok && v@ == sc->Ok_0,
                    Result::Err(e) => sc is Err && e@ == sc->Err_0,
                }
            }),
        decreases sv_height(self@),
    {
        match self {
            CombinedValidator::Int => Result::Ok(CombinedValidator::Int),
            CombinedValidator::Any => Result::Ok(CombinedValidator::Any),
            CombinedValidator::List(l) => {
                let ListValidator { item, name } = l;
                match (*item).complete(ids) {
                    Result::Ok(i2) => Result::Ok(
                        CombinedValidator::List(ListValidator { item: Box::new(i2), name }),
                    ),
                    Result::Err(e) => Result::Err(e),
                }
            },
            CombinedValidator::Ref(r) => match r.target {
                RefTarget::Named(id) => match find_slot_index(ids, id) {
                    Option::Some(i) => Result::Ok(
                        CombinedValidator::Ref(RefValidator { target: RefTarget::Slot(i) }),
                    ),
                    Option::None => Result::Err(BuildError::UnresolvedRef(id)),
                },
                RefTarget::Slot(_) => Result::Ok(CombinedValidator::Ref(r)),
            },
            CombinedValidator::WithDefault(w) => match w.complete(ids) {
                Result::Ok(w2) => Result::Ok(CombinedValidator::WithDefault(w2)),
                Result::Err(e) => Result::Err(e),
            },
        }
    }
}

} // verus!
