//! The default-value decorator validator.
//!
//! It wraps exactly one inner validator and adds two policies: where a
//! default comes from when a surrounding container finds the field
//! absent, and what happens when the inner validator fails.

use vstd::prelude::*;
use vstd::string::StringExecFns;

use crate::errors::{ErrorKind, LocItem, ValError};
use crate::pipeline::{build_validator, ctx_entries, schema_or_config, BuildContext};
use crate::schema::{ss_height, BuildError, Config, Schema};
use crate::semantics::s_build;
use crate::guard::{MarkerId, RecursionGuard};
use crate::semantics::{
    dres_view, res_view, s_ask, s_complete, s_default_value, s_name, sfuel, spec_outer, sval,
    view_vseq, wd_height, wf_slots, wf_validator, SpecDefault, SpecValidator,
};
use crate::validators::{CombinedValidator, Extra, FactoryState, Question};
use crate::value::{clone_value, Value};

verus! {

/// Where a default value comes from: nowhere, a literal captured at
/// build time, or a zero-argument factory.  A factory is modelled by
/// the value it produces; invoking it is counted in [`FactoryState`],
/// because a producer runs fresh on every use and is never cached.
pub enum DefaultType {
    NoDefault,
    Literal(Value),
    Factory(Value),
}

/// What the decorator does when its inner validator fails.
#[derive(Clone, Copy, PartialEq, Eq, Structural)]
pub enum OnError {
    /// Propagate the inner error unchanged.
    Raise,
    /// Fail with the omit sentinel: the caller drops the field.
    Omit,
    /// Return the default value instead.
    Substitute,
}

impl DefaultType {
    /// Read the two mutually exclusive default sources of a schema.
    /// Both present is a configuration error.
    pub fn new(default: Option<Value>, default_factory: Option<Value>) -> (r: Result<
        DefaultType,
        crate::schema::BuildError,
    >)
        ensures
            match (default, default_factory) {
                (Option::Some(_), Option::Some(_)) => r is Err && r->Err_0@
                    == crate::schema::SpecBuildError::ConflictingDefaults,
                (Option::Some(d), Option::None) => r is Ok && r->Ok_0 == DefaultType::Literal(d),
                (Option::None, Option::Some(f)) => r is Ok && r->Ok_0 == DefaultType::Factory(f),
                (Option::None, Option::None) => r is Ok && r->Ok_0 == DefaultType::NoDefault,
            },
    {
        match (default, default_factory) {
            (Option::Some(_), Option::Some(_)) => Result::Err(
                crate::schema::BuildError::ConflictingDefaults,
            ),
            (Option::Some(d), Option::None) => Result::Ok(DefaultType::Literal(d)),
            (Option::None, Option::Some(f)) => Result::Ok(DefaultType::Factory(f)),
            (Option::None, Option::None) => Result::Ok(DefaultType::NoDefault),
        }
    }

    /// Produce the default value, if any source is configured.  A
    /// literal is copied; a factory runs fresh, which is counted.
    pub fn default_value(&self, fs: &mut FactoryState) -> (r: Option<Value>)
        ensures
            match *self {
                DefaultType::NoDefault => r is None && final(fs).calls == old(fs).calls,
                DefaultType::Literal(d) => r is Some && r->0@ == d@ && final(fs).calls == old(
                    fs,
                ).calls,
                DefaultType::Factory(d) => r is Some && r->0@ == d@ && final(fs).calls == (
                if old(fs).calls < u64::MAX {
                    old(fs).calls + 1
                } else {
                    old(fs).calls as int
                }),
            },
    {
        match self {
            DefaultType::NoDefault => Option::None,
            DefaultType::Literal(d) => Option::Some(clone_value(d)),
            DefaultType::Factory(d) => {
                if fs.calls < u64::MAX {
                    fs.calls = fs.calls + 1;
                }
                Option::Some(clone_value(d))
            },
        }
    }
}

/// The decorator: an exclusively owned inner validator, the default
/// source, the failure policy, whether produced defaults are themselves
/// validated, and a display name precomputed at build time.
pub struct WithDefaultValidator {
    pub default: DefaultType,
    pub on_error: OnError,
    pub validator: Box<CombinedValidator>,
    pub validate_default: bool,
    pub name: String,
    /// Build-assigned identity, used as a re-entrancy marker when the
    /// decorator re-validates its own default.
    pub uid: u64,
}

impl View for WithDefaultValidator {
    type V = SpecValidator;

    open spec fn view(&self) -> SpecValidator
        decreases self,
    {
        SpecValidator::WithDefault {
            default: match self.default {
                DefaultType::NoDefault => SpecDefault::NoDefault,
                DefaultType::Literal(d) => SpecDefault::Literal(d@),
                DefaultType::Factory(d) => SpecDefault::Factory(d@),
            },
            on_error: self.on_error,
            validator: Box::new((*self.validator)@),
            validate_default: self.validate_default,
            name: self.name@,
            uid: self.uid,
        }
    }
}

impl WithDefaultValidator {
    /// Whether any default source is configured.
    pub fn has_default(&self) -> (r: bool)
        ensures
            r == !(self.default is NoDefault),
    {
        match self.default {
            DefaultType::NoDefault => false,
            _ => true,
        }
    }

    /// Whether the failure policy is to omit the field.
    pub fn omit_on_error(&self) -> (r: bool)
        ensures
            r == (self.on_error is Omit),
    {
        match self.on_error {
            OnError::Omit => true,
            _ => false,
        }
    }
}

impl WithDefaultValidator {
    /// Check or coerce one present input value.  The inner validator
    /// decides; on its failure the configured policy does: raise the
    /// inner error unchanged, fail with the omit sentinel, or return
    /// the default value instead.
    pub fn validate(
        &self,
        input: &Value,
        extra: &Extra,
        slots: &Vec<CombinedValidator>,
        guard: &mut RecursionGuard,
        fs: &mut FactoryState,
    ) -> (res: Result<Value, ValError>)
        requires
            wf_validator(self@, slots@.len() as int),
            wf_slots(view_vseq(slots@)),
        ensures
            res_view(res) == sval(
                self@,
                view_vseq(slots@),
                extra.strict,
                input@,
                old(guard).active(),
                old(guard).ceiling(),
            ),
            final(guard).active() == old(guard).active(),
            final(guard).ceiling() == old(guard).ceiling(),
            final(fs).calls >= old(fs).calls,
        decreases sfuel(guard.active().len(), guard.ceiling()), wd_height(self@), 0nat, 2nat,
    {
        let inner_res = self.validator.validate(input, extra, slots, guard, fs);
        match inner_res {
            Result::Ok(v) => Result::Ok(v),
            Result::Err(e) => match self.on_error {
                OnError::Raise => Result::Err(e),
                OnError::Omit => Result::Err(ValError::Omit),
                OnError::Substitute => match self.default_value(
                    Option::None,
                    extra,
                    slots,
                    guard,
                    fs,
                ) {
                    Result::Ok(o) => match o {
                        Option::Some(v) => Result::Ok(v),
                        Option::None => {
                            proof {
                                assert(false);
                            }
                            Result::Err(ValError::Omit)
                        },
                    },
                    Result::Err(e2) => Result::Err(e2),
                },
            },
        }
    }

    /// Supply the default when the caller found the field absent: no
    /// source gives "no default present"; otherwise the produced value
    /// is returned as is, or, with `validate_default`, run through this
    /// decorator's own `validate` under a fresh guard marker, a failure
    /// being reported at the enclosing location when one is given.
    pub fn default_value(
        &self,
        outer_loc: Option<LocItem>,
        extra: &Extra,
        slots: &Vec<CombinedValidator>,
        guard: &mut RecursionGuard,
        fs: &mut FactoryState,
    ) -> (res: Result<Option<Value>, ValError>)
        requires
            wf_validator(self@, slots@.len() as int),
            wf_slots(view_vseq(slots@)),
        ensures
            dres_view(res) == s_default_value(
                self@,
                view_vseq(slots@),
                extra.strict,
                spec_outer(outer_loc),
                old(guard).active(),
                old(guard).ceiling(),
            ),
            final(guard).active() == old(guard).active(),
            final(guard).ceiling() == old(guard).ceiling(),
            final(fs).calls >= old(fs).calls,
            self.default is NoDefault ==> final(fs).calls == old(fs).calls,
            self.default is Literal && !self.validate_default ==> final(fs).calls == old(
                fs,
            ).calls,
            self.default is Factory && !self.validate_default && old(fs).calls < u64::MAX
                ==> final(fs).calls == old(fs).calls + 1,
        decreases sfuel(guard.active().len(), guard.ceiling()), wd_height(self@), 0nat, 1nat,
    {
        match self.default.default_value(fs) {
            Option::None => Result::Ok(Option::None),
            Option::Some(dft) => {
                if !self.validate_default {
                    Result::Ok(Option::Some(dft))
                } else {
                    let entered = guard.enter(MarkerId::Decorator(self.uid), &dft);
                    let vres: Result<Value, ValError> = if entered {
                        let r = self.validate(&dft, extra, slots, guard, fs);
                        guard.exit();
                        proof {
                            assert(old(guard).active().push(
                                (MarkerId::Decorator(self.uid), dft@),
                            ).drop_last() =~= old(guard).active());
                        }
                        r
                    } else {
                        Result::Err(ValError::new_line(ErrorKind::RecursionLoop, dft))
                    };
                    match vres {
                        Result::Ok(v) => Result::Ok(Option::Some(v)),
                        Result::Err(e) => match outer_loc {
                            Option::Some(loc) => Result::Err(e.with_outer_location(loc)),
                            Option::None => Result::Err(e),
                        },
                    }
                }
            },
        }
    }

    /// The precomputed display name, `default[<inner name>]`.
    pub fn get_name(&self) -> (r: String)
        ensures
            r@ == s_name(self@),
    {
        self.name.clone()
    }

    /// Forward a structural question to the inner validator.
    pub fn ask(&self, q: &Question) -> (r: bool)
        ensures
            r == s_ask(self@, *q),
        decreases wd_height(self@),
    {
        self.validator.ask(q)
    }

    /// Second build phase: forward to the inner validator so its
    /// deferred slot references are resolved.
    pub fn complete(self, ids: &Vec<u64>) -> (res: Result<
        WithDefaultValidator,
        crate::schema::BuildError,
    >)
        ensures
            ({
                let sc = s_complete(self@, ids@);
                match res {
                    Result::Ok(v) => sc is Ok && v@ == sc->Ok_0,
                    Result::Err(e) => sc is Err && e@ == sc->Err_0,
                }
            }),
        decreases wd_height(self@),
    {
        let WithDefaultValidator { default, on_error, validator, validate_default, name, uid } =
            self;
        match (*validator).complete(ids) {
            Result::Ok(i2) => Result::Ok(
                WithDefaultValidator {
                    default,
                    on_error,
                    validator: Box::new(i2),
                    validate_default,
                    name,
                    uid,
                },
            ),
            Result::Err(e) => Result::Err(e),
        }
    }
}

impl WithDefaultValidator {
    /// Construct the decorator from its schema node: read the mutually
    /// exclusive default sources, read the failure policy (substitution
    /// demands a default source), build the mandatory inner sub-schema,
    /// resolve `validate_default` from the schema or the ambient
    /// configuration, and compose the display name.
    pub fn build(schema: &Schema, config: &Config, ctx: &mut BuildContext) -> (res: Result<
        CombinedValidator,
        BuildError,
    >)
        requires
            schema is WithDefault,
        ensures
            ({
                let sb = s_build(
                    (*schema)@,
                    *config,
                    ctx_entries(*old(ctx)),
                    old(ctx).next_uid,
                );
                &&& match res {
                    Result::Ok(v) => sb.0 is Ok && v@ == sb.0->Ok_0,
                    Result::Err(e) => sb.0 is Err && e@ == sb.0->Err_0,
                }
                &&& ctx_entries(*final(ctx)) == sb.1
                &&& final(ctx).next_uid == sb.2
            }),
        decreases ss_height((*schema)@), 0nat,
    {
        match schema {
            Schema::WithDefault { default, default_factory, on_error, validate_default, schema: inner } => {
                let d = match default {
                    Option::Some(v) => Option::Some(clone_value(v)),
                    Option::None => Option::None,
                };
                let f = match default_factory {
                    Option::Some(v) => Option::Some(clone_value(v)),
                    Option::None => Option::None,
                };
                let dt = match DefaultType::new(d, f) {
                    Result::Ok(dt) => dt,
                    Result::Err(e) => {
                        return Result::Err(e);
                    },
                };
                let oe = match on_error {
                    Option::Some(o) => *o,
                    Option::None => OnError::Raise,
                };
                let substitute = match oe {
                    OnError::Substitute => true,
                    _ => false,
                };
                let no_default = match dt {
                    DefaultType::NoDefault => true,
                    _ => false,
                };
                if substitute && no_default {
                    return Result::Err(BuildError::SubstituteRequiresDefault);
                }
                let iv = match build_validator(inner, config, ctx) {
                    Result::Ok(v) => v,
                    Result::Err(e) => {
                        return Result::Err(e);
                    },
                };
                let vd = match schema_or_config(*validate_default, config.validate_default) {
                    Option::Some(b) => b,
                    Option::None => false,
                };
                let uid = ctx.next_uid;
                if ctx.next_uid < u64::MAX {
                    ctx.next_uid = ctx.next_uid + 1;
                }
                let inner_name = iv.get_name();
                let name = String::from_str("default[").concat(&inner_name).concat("]");
                let wv = WithDefaultValidator {
                    default: dt,
                    on_error: oe,
                    validator: Box::new(iv),
                    validate_default: vd,
                    name,
                    uid,
                };
                proof {
                    assert(wv@ is WithDefault);
                }
                let out = CombinedValidator::WithDefault(wv);
                proof {
                    let sb = s_build(
                        (*schema)@,
                        *config,
                        ctx_entries(*old(ctx)),
                        old(ctx).next_uid,
                    );
                    assert(sb.0 is Ok);
                    assert(out@ == sb.0->Ok_0);
                }
                Result::Ok(out)
            },
            _ => {
                proof {
                    assert(false);
                }
                Result::Err(BuildError::SubstituteRequiresDefault)
            },
        }
    }
}

} // verus!
