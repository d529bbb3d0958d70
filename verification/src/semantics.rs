//! The mathematical model of the validator tree and of validation.
//!
//! `sval` says, for every validator, every slot table and every input,
//! exactly what a `validate` call returns; the executable methods are
//! proved equal to it.  `s_build` and `s_complete` do the same for the
//! two build phases.

use vstd::prelude::*;

use crate::errors::{spec_line, spec_with_outer_line, ErrorKind, SpecLineError, SpecLocItem};
use crate::guard::MarkerId;
use crate::schema::{SpecBuildError, SpecSchema, Config};
use crate::validators::{CombinedValidator, Question, RefTarget};
use crate::value::{SpecValue, Value};
use crate::with_default::OnError;

verus! {

/// The model of a validator tree node.
#[verifier::ext_equal]
pub enum SpecValidator {
    Int,
    Any,
    List { item: Box<SpecValidator>, name: Seq<char> },
    Ref { target: RefTarget },
    WithDefault {
        default: SpecDefault,
        on_error: OnError,
        validator: Box<SpecValidator>,
        validate_default: bool,
        name: Seq<char>,
        uid: u64,
    },
}

/// The model of a default source.
pub enum SpecDefault {
    NoDefault,
    Literal(SpecValue),
    Factory(SpecValue),
}

/// Height of a validator tree, the structural part of the termination
/// measure of `sval`.
pub open spec fn sv_height(v: SpecValidator) -> nat
    decreases v,
{
    match v {
        SpecValidator::Int => 0,
        SpecValidator::Any => 0,
        SpecValidator::Ref { .. } => 0,
        SpecValidator::List { item, .. } => sv_height(*item) + 1,
        SpecValidator::WithDefault { validator, .. } => sv_height(*validator) + 2,
    }
}

/// Height measure used by the decorator's own operations: between the
/// decorator node and its inner validator.
pub open spec fn wd_height(v: SpecValidator) -> nat {
    if v is WithDefault {
        sv_height(*v->WithDefault_validator) + 1
    } else {
        0
    }
}

/// Remaining guard capacity: how many more markers may become active.
pub open spec fn sfuel(depth: nat, ceiling: nat) -> nat {
    if depth <= ceiling {
        (ceiling - depth) as nat
    } else {
        0
    }
}

/// The composed display name of a validator; decorators read as
/// `default[<inner>]`.
pub open spec fn s_name(v: SpecValidator) -> Seq<char> {
    match v {
        SpecValidator::Int => "int"@,
        SpecValidator::Any => "any"@,
        SpecValidator::Ref { .. } => "ref"@,
        SpecValidator::List { name, .. } => name,
        SpecValidator::WithDefault { name, .. } => name,
    }
}

/// Well-formedness of a validator against a slot table of `nslots`
/// entries: every reference is resolved and in range, a substituting
/// decorator has a default source, and stored display names are the
/// composed ones.
pub open spec fn wf_validator(v: SpecValidator, nslots: int) -> bool
    decreases v,
{
    match v {
        SpecValidator::Int => true,
        SpecValidator::Any => true,
        SpecValidator::List { item, name } => wf_validator(*item, nslots) && name == "list["@
            + s_name(*item) + "]"@,
        SpecValidator::Ref { target } => target is Slot && (target->Slot_0 as int) < nslots,
        SpecValidator::WithDefault { default, on_error, validator, name, .. } => {
            &&& (on_error is Substitute ==> !(default is NoDefault))
            &&& wf_validator(*validator, nslots)
            &&& name == "default["@ + s_name(*validator) + "]"@
        },
    }
}

/// Well-formedness of the whole slot table.
pub open spec fn wf_slots(slots: Seq<SpecValidator>) -> bool {
    forall|k: int| 0 <= k < slots.len() ==> wf_validator(#[trigger] slots[k], slots.len() as int)
}

/// The three-way result channel of a `validate` call: a value, a
/// reportable failure, or the omit sentinel.
#[verifier::ext_equal]
pub enum SRes {
    Val(SpecValue),
    Failed(Seq<SpecLineError>),
    Omitted,
}

/// The result channel of a `default_value` call: additionally, "no
/// default is configured" (the caller decides what absence means).
#[verifier::ext_equal]
pub enum DRes {
    Val(SpecValue),
    NoDefault,
    Failed(Seq<SpecLineError>),
    Omitted,
}

/// The model of an executable `validate` result.
pub open spec fn res_view(r: Result<Value, crate::errors::ValError>) -> SRes {
    match r {
        Result::Ok(v) => SRes::Val(v@),
        Result::Err(e) => match e {
            crate::errors::ValError::Omit => SRes::Omitted,
            crate::errors::ValError::LineErrors(ls) => SRes::Failed(
                crate::errors::view_lines(ls@),
            ),
        },
    }
}

/// The model of an executable `default_value` result.
pub open spec fn dres_view(r: Result<Option<Value>, crate::errors::ValError>) -> DRes {
    match r {
        Result::Ok(o) => match o {
            Option::Some(v) => DRes::Val(v@),
            Option::None => DRes::NoDefault,
        },
        Result::Err(e) => match e {
            crate::errors::ValError::Omit => DRes::Omitted,
            crate::errors::ValError::LineErrors(ls) => DRes::Failed(
                crate::errors::view_lines(ls@),
            ),
        },
    }
}

/// The model of an optional outer location argument.
pub open spec fn spec_outer(o: Option<crate::errors::LocItem>) -> Option<SpecLocItem> {
    match o {
        Option::Some(l) => Option::Some(l@),
        Option::None => Option::None,
    }
}

/// A one-line failure of the given kind at the failure site.
pub open spec fn s_fail(kind: ErrorKind, input: SpecValue) -> SRes {
    SRes::Failed(seq![spec_line(kind, input)])
}

/// Is `c` a decimal digit?  (Code points 48 through 57.)
pub open spec fn is_digit(c: char) -> bool {
    48 <= c as int && c as int <= 57
}

/// The numeric value of the decimal digit string `s`.
pub open spec fn digits_value(s: Seq<char>) -> int
    decreases s.len(),
{
    if s.len() == 0 {
        0
    } else {
        digits_value(s.drop_last()) * 10 + (s.last() as int - 48)
    }
}

/// Are all characters of `s` decimal digits?
pub open spec fn all_digits(s: Seq<char>) -> bool {
    forall|i: int| 0 <= i < s.len() ==> is_digit(#[trigger] s[i])
}

/// The integer, if any, that the string `s` denotes: an optional minus
/// sign followed by one or more decimal digits.
pub open spec fn spec_parse_int(s: Seq<char>) -> Option<int> {
    if s.len() > 0 && s[0] == '-' {
        let ds = s.skip(1);
        if ds.len() > 0 && all_digits(ds) {
            Option::Some(-digits_value(ds))
        } else {
            Option::None
        }
    } else {
        if s.len() > 0 && all_digits(s) {
            Option::Some(digits_value(s))
        } else {
            Option::None
        }
    }
}

/// A digit string's value is non-negative.
pub proof fn lemma_digits_nonneg(s: Seq<char>)
    requires
        all_digits(s),
    ensures
        digits_value(s) >= 0,
    decreases s.len(),
{
    if s.len() > 0 {
        assert(all_digits(s.drop_last())) by {
            assert(forall|i: int| 0 <= i < s.len() - 1 ==> s.drop_last()[i] == s[i]);
        }
        lemma_digits_nonneg(s.drop_last());
    }
}

/// A digit string is worth at least any of its prefixes.
pub proof fn lemma_digits_prefix_le(s: Seq<char>, k: int)
    requires
        all_digits(s),
        0 <= k <= s.len(),
    ensures
        digits_value(s.take(k)) <= digits_value(s),
    decreases s.len(),
{
    if k == s.len() {
        assert(s.take(k) =~= s);
    } else {
        assert(forall|i: int| 0 <= i < s.len() - 1 ==> s.drop_last()[i] == s[i]);
        assert(all_digits(s.drop_last()));
        lemma_digits_prefix_le(s.drop_last(), k);
        assert(s.take(k) =~= s.drop_last().take(k));
        lemma_digits_nonneg(s.drop_last());
        assert(digits_value(s) >= digits_value(s.drop_last()));
    }
}

/// What the integer-coercion validator returns.  Strict mode accepts
/// integers alone; lax mode also coerces booleans and decimal strings
/// whose value fits the machine integer type.
pub open spec fn s_int(strict: bool, input: SpecValue) -> SRes {
    match input {
        SpecValue::Int(i) => SRes::Val(SpecValue::Int(i)),
        SpecValue::Bool(b) => if strict {
            s_fail(ErrorKind::IntType, input)
        } else {
            SRes::Val(SpecValue::Int(if b { 1int } else { 0int }))
        },
        SpecValue::Str(s) => if strict {
            s_fail(ErrorKind::IntType, input)
        } else {
            match spec_parse_int(s) {
                Option::Some(n) => if i64::MIN <= n && n <= i64::MAX {
                    SRes::Val(SpecValue::Int(n))
                } else {
                    s_fail(ErrorKind::IntParsing, input)
                },
                Option::None => s_fail(ErrorKind::IntParsing, input),
            }
        },
        _ => s_fail(ErrorKind::IntType, input),
    }
}

/// Model of a slot table, element by element.
pub open spec fn view_vseq(vs: Seq<CombinedValidator>) -> Seq<SpecValidator> {
    Seq::new(vs.len(), |i: int| vs[i]@)
}

/// The value a default source yields, if any.
pub open spec fn dt_template(d: SpecDefault) -> Option<SpecValue> {
    match d {
        SpecDefault::NoDefault => Option::None,
        SpecDefault::Literal(v) => Option::Some(v),
        SpecDefault::Factory(v) => Option::Some(v),
    }
}

/// What `validate` returns, for every validator, slot table, mode,
/// input, set of active guard markers and guard ceiling.
pub open spec fn sval(
    v: SpecValidator,
    slots: Seq<SpecValidator>,
    strict: bool,
    input: SpecValue,
    g: Seq<(MarkerId, SpecValue)>,
    ceiling: nat,
) -> SRes
    decreases sfuel(g.len(), ceiling), sv_height(v), 0nat, 2nat,
{
    match v {
        SpecValidator::Int => s_int(strict, input),
        SpecValidator::Any => SRes::Val(input),
        SpecValidator::List { item, .. } => match input {
            SpecValue::List(elems) => {
                let out = s_list(
                    *item,
                    slots,
                    strict,
                    elems,
                    0,
                    Seq::empty(),
                    Seq::empty(),
                    g,
                    ceiling,
                );
                if out.1.len() == 0 {
                    SRes::Val(SpecValue::List(out.0))
                } else {
                    SRes::Failed(out.1)
                }
            },
            _ => s_fail(ErrorKind::ListType, input),
        },
        SpecValidator::Ref { target } => match target {
            RefTarget::Slot(i) => if i as int >= slots.len() {
                SRes::Failed(Seq::empty())
            } else if g.contains((MarkerId::Slot(i), input)) || g.len() >= ceiling {
                s_fail(ErrorKind::RecursionLoop, input)
            } else {
                sval(
                    slots[i as int],
                    slots,
                    strict,
                    input,
                    g.push((MarkerId::Slot(i), input)),
                    ceiling,
                )
            },
            RefTarget::Named(_) => SRes::Failed(Seq::empty()),
        },
        SpecValidator::WithDefault { .. } => {
            let inner = sval(*v->WithDefault_validator, slots, strict, input, g, ceiling);
            match inner {
                SRes::Val(val) => SRes::Val(val),
                _ => match v->WithDefault_on_error {
                    OnError::Raise => inner,
                    OnError::Omit => SRes::Omitted,
                    OnError::Substitute => match s_default_value(
                        v,
                        slots,
                        strict,
                        Option::None,
                        g,
                        ceiling,
                    ) {
                        DRes::Val(val) => SRes::Val(val),
                        DRes::NoDefault => SRes::Failed(Seq::empty()),
                        DRes::Failed(ls) => SRes::Failed(ls),
                        DRes::Omitted => SRes::Omitted,
                    },
                },
            }
        },
    }
}

/// What validating the elements of a list, from index `i` on, adds to
/// the collected values `vals` and collected line errors `errs`.
/// Elements that fail are reported with their index appended to the
/// location; elements whose failure is the omit sentinel are dropped.
pub open spec fn s_list(
    item: SpecValidator,
    slots: Seq<SpecValidator>,
    strict: bool,
    elems: Seq<SpecValue>,
    i: int,
    vals: Seq<SpecValue>,
    errs: Seq<SpecLineError>,
    g: Seq<(MarkerId, SpecValue)>,
    ceiling: nat,
) -> (Seq<SpecValue>, Seq<SpecLineError>)
    decreases
            sfuel(g.len(), ceiling),
            sv_height(item),
            (if i <= elems.len() {
                (elems.len() - i) as nat
            } else {
                0nat
            }),
            0nat,
{
    if i < 0 || i >= elems.len() {
        (vals, errs)
    } else {
        match sval(item, slots, strict, elems[i], g, ceiling) {
            SRes::Val(v) => s_list(item, slots, strict, elems, i + 1, vals.push(v), errs, g, ceiling),
            SRes::Omitted => s_list(item, slots, strict, elems, i + 1, vals, errs, g, ceiling),
            SRes::Failed(ls) => s_list(
                item,
                slots,
                strict,
                elems,
                i + 1,
                vals,
                errs + Seq::new(ls.len(), |j: int| spec_with_outer_line(ls[j], SpecLocItem::Index(i))),
                g,
                ceiling,
            ),
        }
    }
}

/// What `default_value` returns for the decorator `v` (a `WithDefault`
/// node).  With no source there is no default; an unvalidated default
/// is returned as produced; a validated one runs through the
/// decorator's own `validate` under a fresh guard marker, and a failure
/// is reported at the enclosing location `outer` when one is given.
pub open spec fn s_default_value(
    v: SpecValidator,
    slots: Seq<SpecValidator>,
    strict: bool,
    outer: Option<SpecLocItem>,
    g: Seq<(MarkerId, SpecValue)>,
    ceiling: nat,
) -> DRes
    decreases sfuel(g.len(), ceiling), wd_height(v), 0nat, 1nat,
{
    if !(v is WithDefault) {
        DRes::NoDefault
    } else {
        match dt_template(v->WithDefault_default) {
            Option::None => DRes::NoDefault,
            Option::Some(dv) => {
                if !v->WithDefault_validate_default {
                    DRes::Val(dv)
                } else {
                    let m = (MarkerId::Decorator(v->WithDefault_uid), dv);
                    let r = if g.contains(m) || g.len() >= ceiling {
                        s_fail(ErrorKind::RecursionLoop, dv)
                    } else {
                        sval(v, slots, strict, dv, g.push(m), ceiling)
                    };
                    match r {
                        SRes::Val(val) => DRes::Val(val),
                        SRes::Omitted => DRes::Omitted,
                        SRes::Failed(ls) => DRes::Failed(
                            match outer {
                                Option::Some(loc) => Seq::new(
                                    ls.len(),
                                    |j: int| spec_with_outer_line(ls[j], loc),
                                ),
                                Option::None => ls,
                            },
                        ),
                    }
                }
            },
        }
    }
}

/// What `default_value` returns for an arbitrary validator kind: only
/// the decorator supplies defaults.
pub open spec fn s_cv_default_value(
    v: SpecValidator,
    slots: Seq<SpecValidator>,
    strict: bool,
    outer: Option<SpecLocItem>,
    g: Seq<(MarkerId, SpecValue)>,
    ceiling: nat,
) -> DRes {
    if v is WithDefault {
        s_default_value(v, slots, strict, outer, g, ceiling)
    } else {
        DRes::NoDefault
    }
}

/// What `ask` answers: structural questions are answered by the
/// subtree; the decorator forwards them to its inner validator.
pub open spec fn s_ask(v: SpecValidator, q: Question) -> bool
    decreases v,
{
    match v {
        SpecValidator::Int => false,
        SpecValidator::Any => false,
        SpecValidator::Ref { .. } => true,
        SpecValidator::List { item, .. } => s_ask(*item, q),
        SpecValidator::WithDefault { validator, .. } => s_ask(*validator, q),
    }
}

/// The index of the slot reserved under reference id `id`, if any.
pub open spec fn find_slot(ids: Seq<u64>, id: u64) -> Option<int>
    decreases ids.len(),
{
    if ids.len() == 0 {
        Option::None
    } else if ids[0] == id {
        Option::Some(0int)
    } else {
        match find_slot(ids.skip(1), id) {
            Option::Some(j) => Option::Some(j + 1),
            Option::None => Option::None,
        }
    }
}

/// `find_slot` finds the first slot with the given id, or none exists.
pub proof fn lemma_find_slot(ids: Seq<u64>, id: u64)
    ensures
        match find_slot(ids, id) {
            Option::Some(i) => 0 <= i < ids.len() && ids[i] == id && (forall|j: int|
                0 <= j < i ==> ids[j] != id),
            Option::None => forall|j: int| 0 <= j < ids.len() ==> ids[j] != id,
        },
    decreases ids.len(),
{
    if ids.len() > 0 && ids[0] != id {
        lemma_find_slot(ids.skip(1), id);
        assert(forall|j: int| 1 <= j < ids.len() ==> ids[j] == ids.skip(1)[j - 1]);
    }
}

/// What the completion pass turns a validator into: deferred named
/// references are resolved to slot indices, everything else is kept;
/// a name that matches no slot is a build error.
pub open spec fn s_complete(v: SpecValidator, ids: Seq<u64>) -> Result<
    SpecValidator,
    SpecBuildError,
>
    decreases v,
{
    match v {
        SpecValidator::Int => Result::Ok(v),
        SpecValidator::Any => Result::Ok(v),
        SpecValidator::List { item, name } => match s_complete(*item, ids) {
            Result::Ok(i2) => Result::Ok(SpecValidator::List { item: Box::new(i2), name }),
            Result::Err(e) => Result::Err(e),
        },
        SpecValidator::Ref { target } => match target {
            RefTarget::Named(id) => match find_slot(ids, id) {
                Option::Some(i) => Result::Ok(
                    SpecValidator::Ref { target: RefTarget::Slot(i as usize) },
                ),
                Option::None => Result::Err(SpecBuildError::UnresolvedRef(id)),
            },
            RefTarget::Slot(_) => Result::Ok(v),
        },
        SpecValidator::WithDefault { default, on_error, validator, validate_default, name, uid } =>
            match s_complete(*validator, ids) {
            Result::Ok(i2) => Result::Ok(
                SpecValidator::WithDefault {
                    default,
                    on_error,
                    validator: Box::new(i2),
                    validate_default,
                    name,
                    uid,
                },
            ),
            Result::Err(e) => Result::Err(e),
        },
    }
}

/// The reference ids of the slot table entries, in slot order.
pub open spec fn entry_ids(entries: Seq<(u64, Option<SpecValidator>)>) -> Seq<u64> {
    Seq::new(entries.len(), |i: int| entries[i].0)
}

/// What the first build phase does: the built validator (or the build
/// error), the slot table after the call, and the next decorator id.
pub open spec fn s_build(
    s: SpecSchema,
    cfg: Config,
    entries: Seq<(u64, Option<SpecValidator>)>,
    uid: u64,
) -> (Result<SpecValidator, SpecBuildError>, Seq<(u64, Option<SpecValidator>)>, u64)
    decreases s,
{
    match s {
        SpecSchema::Int => (Result::Ok(SpecValidator::Int), entries, uid),
        SpecSchema::Any => (Result::Ok(SpecValidator::Any), entries, uid),
        SpecSchema::Unknown { kind } => (
            Result::Err(SpecBuildError::UnknownKind(kind)),
            entries,
            uid,
        ),
        SpecSchema::List { item } => {
            let r = s_build(*item, cfg, entries, uid);
            match r.0 {
                Result::Err(e) => (Result::Err(e), r.1, r.2),
                Result::Ok(iv) => (
                    Result::Ok(
                        SpecValidator::List {
                            item: Box::new(iv),
                            name: "list["@ + s_name(iv) + "]"@,
                        },
                    ),
                    r.1,
                    r.2,
                ),
            }
        },
        SpecSchema::Ref { id } => match find_slot(entry_ids(entries), id) {
            Option::Some(i) => (
                Result::Ok(SpecValidator::Ref { target: RefTarget::Slot(i as usize) }),
                entries,
                uid,
            ),
            Option::None => (
                Result::Ok(SpecValidator::Ref { target: RefTarget::Named(id) }),
                entries,
                uid,
            ),
        },
        SpecSchema::Recursive { id, schema } => {
            if find_slot(entry_ids(entries), id) is Some {
                (Result::Err(SpecBuildError::DuplicateRef(id)), entries, uid)
            } else {
                let idx = entries.len() as int;
                let r = s_build(*schema, cfg, entries.push((id, Option::None)), uid);
                match r.0 {
                    Result::Err(e) => (Result::Err(e), r.1, r.2),
                    Result::Ok(iv) => (
                        Result::Ok(SpecValidator::Ref { target: RefTarget::Slot(idx as usize) }),
                        r.1.update(idx, (id, Option::Some(iv))),
                        r.2,
                    ),
                }
            }
        },
        SpecSchema::WithDefault { default, default_factory, on_error, validate_default, schema } => {
            if default is Some && default_factory is Some {
                (Result::Err(SpecBuildError::ConflictingDefaults), entries, uid)
            } else {
                let dt = if default is Some {
                    SpecDefault::Literal(default->0)
                } else if default_factory is Some {
                    SpecDefault::Factory(default_factory->0)
                } else {
                    SpecDefault::NoDefault
                };
                let oe = match on_error {
                    Option::Some(o) => o,
                    Option::None => OnError::Raise,
                };
                if oe is Substitute && dt is NoDefault {
                    (Result::Err(SpecBuildError::SubstituteRequiresDefault), entries, uid)
                } else {
                    let r = s_build(*schema, cfg, entries, uid);
                    match r.0 {
                        Result::Err(e) => (Result::Err(e), r.1, r.2),
                        Result::Ok(iv) => {
                            let vd = match validate_default {
                                Option::Some(b) => b,
                                Option::None => match cfg.validate_default {
                                    Option::Some(b) => b,
                                    Option::None => false,
                                },
                            };
                            (
                                Result::Ok(
                                    SpecValidator::WithDefault {
                                        default: dt,
                                        on_error: oe,
                                        validator: Box::new(iv),
                                        validate_default: vd,
                                        name: "default["@ + s_name(iv) + "]"@,
                                        uid: r.2,
                                    },
                                ),
                                r.1,
                                if r.2 < u64::MAX {
                                    (r.2 + 1) as u64
                                } else {
                                    r.2
                                },
                            )
                        },
                    }
                }
            }
        },
    }
}

/// The first build phase only appends to the slot table and never
/// changes the reference id a slot was reserved under.
pub proof fn lemma_s_build_grow(
    s: SpecSchema,
    cfg: Config,
    entries: Seq<(u64, Option<SpecValidator>)>,
    uid: u64,
)
    ensures
        ({
            let r = s_build(s, cfg, entries, uid);
            &&& r.1.len() >= entries.len()
            &&& forall|k: int| 0 <= k < entries.len() ==> r.1[k].0 == entries[k].0
        }),
    decreases s,
{
    let r = s_build(s, cfg, entries, uid);
    match s {
        SpecSchema::List { item } => {
            lemma_s_build_grow(*item, cfg, entries, uid);
            let ri = s_build(*item, cfg, entries, uid);
            assert(r.1 == ri.1);
        },
        SpecSchema::WithDefault { default, default_factory, on_error, schema, .. } => {
            lemma_s_build_grow(*schema, cfg, entries, uid);
        },
        SpecSchema::Recursive { id, schema } => {
            if !(find_slot(entry_ids(entries), id) is Some) {
                let e1 = entries.push((id, Option::None));
                lemma_s_build_grow(*schema, cfg, e1, uid);
                let ri = s_build(*schema, cfg, e1, uid);
                assert(forall|k: int| 0 <= k < entries.len() ==> e1[k].0 == entries[k].0);
                assert(ri.1.len() >= entries.len() + 1);
                if ri.0 is Ok {
                    let idx = entries.len() as int;
                    assert(r.1 == ri.1.update(idx, (id, Option::Some(ri.0->Ok_0))));
                    assert(forall|k: int| 0 <= k < entries.len() ==> r.1[k].0 == ri.1[k].0);
                }
            }
        },
        _ => {},
    }
}

/// Well-formedness before the completion pass: as `wf_validator`, but a
/// reference may still be named rather than resolved.
pub open spec fn prewf(v: SpecValidator, nslots: int) -> bool
    decreases v,
{
    match v {
        SpecValidator::Int => true,
        SpecValidator::Any => true,
        SpecValidator::List { item, name } => prewf(*item, nslots) && name == "list["@ + s_name(
            *item,
        ) + "]"@,
        SpecValidator::Ref { target } => match target {
            RefTarget::Named(_) => true,
            RefTarget::Slot(i) => (i as int) < nslots,
        },
        SpecValidator::WithDefault { default, on_error, validator, name, .. } => {
            &&& (on_error is Substitute ==> !(default is NoDefault))
            &&& prewf(*validator, nslots)
            &&& name == "default["@ + s_name(*validator) + "]"@
        },
    }
}

/// Pre-completion well-formedness survives growing the slot table.
pub proof fn lemma_prewf_mono(v: SpecValidator, n: int, m: int)
    requires
        prewf(v, n),
        n <= m,
    ensures
        prewf(v, m),
    decreases v,
{
    match v {
        SpecValidator::List { item, .. } => lemma_prewf_mono(*item, n, m),
        SpecValidator::WithDefault { validator, .. } => lemma_prewf_mono(*validator, n, m),
        _ => {},
    }
}

/// Every validator stored in the slot table is well formed against the
/// table's own length.
pub open spec fn entries_prewf(entries: Seq<(u64, Option<SpecValidator>)>) -> bool {
    forall|k: int| 0 <= k < entries.len() && entries[k].1 is Some ==> prewf(
        #[trigger] entries[k].1->0,
        entries.len() as int,
    )
}

/// The first build phase only constructs pre-completion well-formed
/// validators, in the tree it returns and in the slots it fills.
pub proof fn lemma_s_build_prewf(
    s: SpecSchema,
    cfg: Config,
    entries: Seq<(u64, Option<SpecValidator>)>,
    uid: u64,
)
    requires
        entries_prewf(entries),
    ensures
        ({
            let r = s_build(s, cfg, entries, uid);
            &&& entries_prewf(r.1)
            &&& r.0 is Ok ==> prewf(r.0->Ok_0, r.1.len() as int)
        }),
    decreases s,
{
    let r = s_build(s, cfg, entries, uid);
    match s {
        SpecSchema::List { item } => {
            lemma_s_build_prewf(*item, cfg, entries, uid);
        },
        SpecSchema::WithDefault { schema, .. } => {
            lemma_s_build_prewf(*schema, cfg, entries, uid);
        },
        SpecSchema::Ref { id } => {
            if find_slot(entry_ids(entries), id) is Some {
                lemma_find_slot(entry_ids(entries), id);
            }
        },
        SpecSchema::Recursive { id, schema } => {
            if !(find_slot(entry_ids(entries), id) is Some) {
                let e1 = entries.push((id, Option::None));
                assert(entries_prewf(e1)) by {
                    assert forall|k: int|
                        0 <= k < e1.len() && e1[k].1 is Some implies prewf(
                        e1[k].1->0,
                        e1.len() as int,
                    ) by {
                        assert(e1[k] == entries[k]);
                        lemma_prewf_mono(e1[k].1->0, entries.len() as int, e1.len() as int);
                    }
                }
                lemma_s_build_prewf(*schema, cfg, e1, uid);
                lemma_s_build_grow(*schema, cfg, e1, uid);
                let ri = s_build(*schema, cfg, e1, uid);
                if ri.0 is Ok {
                    let idx = entries.len() as int;
                    let fin = ri.1.update(idx, (id, Option::Some(ri.0->Ok_0)));
                    assert(entries_prewf(fin)) by {
                        assert forall|k: int|
                            0 <= k < fin.len() && fin[k].1 is Some implies prewf(
                            fin[k].1->0,
                            fin.len() as int,
                        ) by {
                            if k == idx {
                                assert(fin[k].1->0 == ri.0->Ok_0);
                            } else {
                                assert(fin[k] == ri.1[k]);
                            }
                        }
                    }
                }
            }
        },
        _ => {},
    }
}

/// The completion pass yields a fully well-formed validator from a
/// pre-completion well-formed one, and keeps its display name.
pub proof fn lemma_s_complete_wf(v: SpecValidator, ids: Seq<u64>)
    requires
        prewf(v, ids.len() as int),
        s_complete(v, ids) is Ok,
    ensures
        wf_validator(s_complete(v, ids)->Ok_0, ids.len() as int),
        s_name(s_complete(v, ids)->Ok_0) == s_name(v),
    decreases v,
{
    match v {
        SpecValidator::List { item, .. } => {
            lemma_s_complete_wf(*item, ids);
        },
        SpecValidator::WithDefault { validator, .. } => {
            lemma_s_complete_wf(*validator, ids);
        },
        SpecValidator::Ref { target } => {
            match target {
                RefTarget::Named(id) => {
                    lemma_find_slot(ids, id);
                },
                RefTarget::Slot(_) => {},
            }
        },
        _ => {},
    }
}

/// What completing every stored slot validator, in slot order, yields:
/// the completed validators, or the first completion error.
pub open spec fn s_complete_all(vs: Seq<SpecValidator>, ids: Seq<u64>) -> Result<
    Seq<SpecValidator>,
    SpecBuildError,
>
    decreases vs.len(),
{
    if vs.len() == 0 {
        Result::Ok(Seq::empty())
    } else {
        match s_complete(vs[0], ids) {
            Result::Err(e) => Result::Err(e),
            Result::Ok(v2) => match s_complete_all(vs.skip(1), ids) {
                Result::Err(e) => Result::Err(e),
                Result::Ok(rest) => Result::Ok(seq![v2] + rest),
            },
        }
    }
}

/// Extracting the stored validators out of the slot table: a slot still
/// empty after the first phase is an unresolved-reference error.
pub open spec fn s_finalize(entries: Seq<(u64, Option<SpecValidator>)>) -> Result<
    Seq<SpecValidator>,
    SpecBuildError,
>
    decreases entries.len(),
{
    if entries.len() == 0 {
        Result::Ok(Seq::empty())
    } else {
        match entries[0].1 {
            Option::None => Result::Err(SpecBuildError::UnresolvedRef(entries[0].0)),
            Option::Some(v) => match s_finalize(entries.skip(1)) {
                Result::Err(e) => Result::Err(e),
                Result::Ok(rest) => Result::Ok(seq![v] + rest),
            },
        }
    }
}

/// What both build phases together yield: the completed root and the
/// completed slot table, or the first build error.
pub open spec fn s_schema_build(s: SpecSchema, cfg: Config) -> Result<
    (SpecValidator, Seq<SpecValidator>),
    SpecBuildError,
> {
    let b = s_build(s, cfg, Seq::empty(), 0);
    match b.0 {
        Result::Err(e) => Result::Err(e),
        Result::Ok(root) => match s_finalize(b.1) {
            Result::Err(e) => Result::Err(e),
            Result::Ok(raw) => {
                let ids = entry_ids(b.1);
                match s_complete_all(raw, ids) {
                    Result::Err(e) => Result::Err(e),
                    Result::Ok(slots2) => match s_complete(root, ids) {
                        Result::Err(e) => Result::Err(e),
                        Result::Ok(root2) => Result::Ok((root2, slots2)),
                    },
                }
            },
        },
    }
}

/// `s_finalize` succeeds exactly when every slot is filled, and then
/// returns the stored validators in slot order.
pub proof fn lemma_s_finalize_elems(entries: Seq<(u64, Option<SpecValidator>)>)
    requires
        s_finalize(entries) is Ok,
    ensures
        s_finalize(entries)->Ok_0.len() == entries.len(),
        forall|k: int| #![trigger entries[k]] 0 <= k < entries.len() ==> entries[k].1 is Some
            && s_finalize(entries)->Ok_0[k] == entries[k].1->0,
    decreases entries.len(),
{
    if entries.len() > 0 {
        lemma_s_finalize_elems(entries.skip(1));
        assert(forall|k: int| 1 <= k < entries.len() ==> entries.skip(1)[k - 1] == entries[k]);
        let rest = s_finalize(entries.skip(1))->Ok_0;
        assert(s_finalize(entries)->Ok_0 == seq![entries[0].1->0] + rest);
        assert forall|k: int| 0 <= k < entries.len() implies (entries[k].1 is Some && s_finalize(
            entries,
        )->Ok_0[k] == entries[k].1->0) by {
            if k == 0 {
                assert(s_finalize(entries)->Ok_0[0] == entries[0].1->0);
            } else {
                assert(entries.skip(1)[k - 1].1 is Some && rest[k - 1] == entries.skip(
                    1,
                )[k - 1].1->0);
                assert(s_finalize(entries)->Ok_0[k] == rest[k - 1]);
            }
        }
    }
}

/// `s_complete_all` succeeds exactly when each element completes, and
/// then returns the completed validators in order.
pub proof fn lemma_s_complete_all_elems(vs: Seq<SpecValidator>, ids: Seq<u64>)
    requires
        s_complete_all(vs, ids) is Ok,
    ensures
        s_complete_all(vs, ids)->Ok_0.len() == vs.len(),
        forall|k: int| 0 <= k < vs.len() ==> s_complete(#[trigger] vs[k], ids) is Ok
            && s_complete_all(vs, ids)->Ok_0[k] == s_complete(vs[k], ids)->Ok_0,
    decreases vs.len(),
{
    if vs.len() > 0 {
        lemma_s_complete_all_elems(vs.skip(1), ids);
        assert(forall|k: int| 1 <= k < vs.len() ==> vs.skip(1)[k - 1] == vs[k]);
    }
}

/// After both phases the root and every slot validator are fully well
/// formed against the completed slot table.
pub proof fn lemma_wf_after_completion(
    entries: Seq<(u64, Option<SpecValidator>)>,
    raw: Seq<SpecValidator>,
    ids: Seq<u64>,
    root: SpecValidator,
)
    requires
        entries_prewf(entries),
        prewf(root, entries.len() as int),
        s_finalize(entries) == Result::<Seq<SpecValidator>, SpecBuildError>::Ok(raw),
        ids == entry_ids(entries),
        s_complete_all(raw, ids) is Ok,
        s_complete(root, ids) is Ok,
    ensures
        raw.len() == entries.len(),
        s_complete_all(raw, ids)->Ok_0.len() == entries.len(),
        wf_validator(s_complete(root, ids)->Ok_0, entries.len() as int),
        wf_slots(s_complete_all(raw, ids)->Ok_0),
{
    lemma_s_finalize_elems(entries);
    lemma_s_complete_all_elems(raw, ids);
    lemma_s_complete_wf(root, ids);
    let out = s_complete_all(raw, ids)->Ok_0;
    assert forall|k: int| 0 <= k < out.len() implies wf_validator(
        #[trigger] out[k],
        out.len() as int,
    ) by {
        assert(raw[k] == entries[k].1->0);
        assert(prewf(raw[k], entries.len() as int));
        lemma_s_complete_wf(raw[k], ids);
    }
}


} // verus!
