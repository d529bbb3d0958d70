//! The decorator's policy laws, stated over the validation model and
//! proved for every inner validator, slot table, mode, input and guard
//! state.

use vstd::prelude::*;

use crate::errors::SpecLineError;
use crate::guard::MarkerId;
use crate::semantics::{dt_template, s_default_value, sval, DRes, SRes, SpecValidator};
use crate::value::SpecValue;
use crate::with_default::OnError;

verus! {

/// Whenever the inner validator succeeds, the decorator returns the
/// inner result unchanged, whatever the `on_error` policy says.
pub proof fn law_success_independent_of_policy(
    v: SpecValidator,
    slots: Seq<SpecValidator>,
    strict: bool,
    input: SpecValue,
    g: Seq<(MarkerId, SpecValue)>,
    ceiling: nat,
    out: SpecValue,
)
    requires
        v is WithDefault,
        sval(*v->WithDefault_validator, slots, strict, input, g, ceiling) == SRes::Val(out),
    ensures
        sval(v, slots, strict, input, g, ceiling) == SRes::Val(out),
{
}

/// Whenever the inner validator fails and the policy is to omit, the
/// decorator fails with the omit sentinel, never with the inner error.
pub proof fn law_omit_on_error(
    v: SpecValidator,
    slots: Seq<SpecValidator>,
    strict: bool,
    input: SpecValue,
    g: Seq<(MarkerId, SpecValue)>,
    ceiling: nat,
)
    requires
        v is WithDefault,
        v->WithDefault_on_error == OnError::Omit,
        !(sval(*v->WithDefault_validator, slots, strict, input, g, ceiling) is Val),
    ensures
        sval(v, slots, strict, input, g, ceiling) == SRes::Omitted,
{
}

/// Whenever the inner validator fails and the policy is to raise, the
/// decorator's error is exactly the inner validator's error, its
/// location chain unchanged.
pub proof fn law_raise_propagates_unchanged(
    v: SpecValidator,
    slots: Seq<SpecValidator>,
    strict: bool,
    input: SpecValue,
    g: Seq<(MarkerId, SpecValue)>,
    ceiling: nat,
    lines: Seq<SpecLineError>,
)
    requires
        v is WithDefault,
        v->WithDefault_on_error == OnError::Raise,
        sval(*v->WithDefault_validator, slots, strict, input, g, ceiling) == SRes::Failed(lines),
    ensures
        sval(v, slots, strict, input, g, ceiling) == SRes::Failed(lines),
{
}

/// Whenever the inner validator fails, the policy substitutes and
/// defaults are not themselves validated, the decorator returns the
/// stored or produced default exactly as the source yields it.
pub proof fn law_substitute_returns_default_unvalidated(
    v: SpecValidator,
    slots: Seq<SpecValidator>,
    strict: bool,
    input: SpecValue,
    g: Seq<(MarkerId, SpecValue)>,
    ceiling: nat,
    dft: SpecValue,
)
    requires
        v is WithDefault,
        v->WithDefault_on_error == OnError::Substitute,
        !v->WithDefault_validate_default,
        dt_template(v->WithDefault_default) == Option::Some(dft),
        !(sval(*v->WithDefault_validator, slots, strict, input, g, ceiling) is Val),
    ensures
        sval(v, slots, strict, input, g, ceiling) == SRes::Val(dft),
{
    assert(s_default_value(v, slots, strict, Option::None, g, ceiling) == DRes::Val(dft));
}

/// With no default source configured, `default_value` answers "no
/// default present" and raises nothing; the caller decides what the
/// field's absence means.
pub proof fn law_no_default_source(
    v: SpecValidator,
    slots: Seq<SpecValidator>,
    strict: bool,
    outer: Option<crate::errors::SpecLocItem>,
    g: Seq<(MarkerId, SpecValue)>,
    ceiling: nat,
)
    requires
        v is WithDefault,
        dt_template(v->WithDefault_default) is None,
    ensures
        s_default_value(v, slots, strict, outer, g, ceiling) == DRes::NoDefault,
{
}

} // verus!
