//! The two-phase build pipeline: schema to validator tree.
//!
//! The first phase dispatches on each schema node's discriminator and
//! constructs the tree, reserving a slot per `Recursive` node so that
//! self-references can point at a slot before its validator is fully
//! constructed.  The second phase, `complete`, resolves the references
//! that were still named after the first phase.  No `validate` call is
//! possible before completion finishes: only [`build_schema`], which
//! runs both phases, hands out a [`SchemaValidator`].

use vstd::prelude::*;
use vstd::string::StringExecFns;

use crate::errors::{LocItem, ValError};
use crate::guard::RecursionGuard;
use crate::schema::{ss_height, BuildError, Config, Schema};
use crate::semantics::{
    dres_view, entry_ids, find_slot, lemma_find_slot, lemma_s_build_grow, lemma_s_build_prewf,
    lemma_wf_after_completion, res_view, s_ask, s_build, s_complete, s_complete_all,
    s_cv_default_value, s_finalize, s_name, s_schema_build, sval, view_vseq, wf_slots,
    wf_validator, SpecValidator,
};
use crate::validators::{
    CombinedValidator, Extra, FactoryState, ListValidator, Question, RefTarget, RefValidator,
};
use crate::value::Value;
use crate::with_default::WithDefaultValidator;

verus! {

/// One reserved position of the build-owned slot table: the reference
/// id it was reserved under, and the validator once it is constructed.
pub struct SlotEntry {
    pub id: u64,
    pub validator: Option<CombinedValidator>,
}

/// Build-time state: the slot table for forward references, and the
/// next identity to hand to a decorator.
pub struct BuildContext {
    pub slots: Vec<SlotEntry>,
    pub next_uid: u64,
}

/// The model of a sequence of slot entries: (reference id, validator
/// model) pairs.
pub open spec fn entries_of(slots: Seq<SlotEntry>) -> Seq<(u64, Option<SpecValidator>)> {
    Seq::new(
        slots.len(),
        |i: int|
            (
                slots[i].id,
                match slots[i].validator {
                    Option::Some(v) => Option::Some(v@),
                    Option::None => Option::None,
                },
            ),
    )
}

/// The model of the slot table held by a build context.
pub open spec fn ctx_entries(ctx: BuildContext) -> Seq<(u64, Option<SpecValidator>)> {
    entries_of(ctx.slots@)
}

impl BuildContext {
    pub fn new() -> (ctx: BuildContext)
        ensures
            ctx_entries(ctx) == Seq::<(u64, Option<SpecValidator>)>::empty(),
            ctx.next_uid == 0,
    {
        let ctx = BuildContext { slots: Vec::new(), next_uid: 0 };
        proof {
            assert(ctx_entries(ctx) =~= Seq::<(u64, Option<SpecValidator>)>::empty());
        }
        ctx
    }

    /// The slot reserved under `id`, if one is.
    pub fn find(&self, id: u64) -> (r: Option<usize>)
        ensures
            match r {
                Option::Some(i) => find_slot(entry_ids(ctx_entries(*self)), id) == Option::Some(
                    i as int,
                ),
                Option::None => find_slot(entry_ids(ctx_entries(*self)), id) is None,
            },
    {
        proof {
            lemma_find_slot(entry_ids(ctx_entries(*self)), id);
        }
        let ghost ids = entry_ids(ctx_entries(*self));
        let mut i: usize = 0;
        while i < self.slots.len()
            invariant
                0 <= i <= self.slots@.len(),
                ids == entry_ids(ctx_entries(*self)),
                ids.len() == self.slots@.len(),
                forall|j: int| 0 <= j < ids.len() ==> ids[j] == self.slots@[j].id,
                forall|j: int| 0 <= j < i ==> ids[j] != id,
                match find_slot(ids, id) {
                    Option::Some(k) => 0 <= k < ids.len() && ids[k] == id && (forall|j: int|
                        0 <= j < k ==> ids[j] != id),
                    Option::None => forall|j: int| 0 <= j < ids.len() ==> ids[j] != id,
                },
            decreases self.slots@.len() - i,
        {
            if self.slots[i].id == id {
                proof {
                    match find_slot(ids, id) {
                        Option::Some(k) => {
                            if k < i as int {
                                assert(ids[k] != id);
                            }
                            if k > i as int {
                                assert(ids[i as int] != id);
                            }
                        },
                        Option::None => {
                            assert(ids[i as int] == id);
                        },
                    }
                }
                return Option::Some(i);
            }
            i = i + 1;
        }
        Option::None
    }

    /// Put the constructed validator into the slot reserved for it.
    pub fn fill_slot(&mut self, idx: usize, v: CombinedValidator)
        requires
            idx < old(self).slots@.len(),
        ensures
            ctx_entries(*final(self)) == ctx_entries(*old(self)).update(
                idx as int,
                (old(self).slots@[idx as int].id, Option::Some(v@)),
            ),
            final(self).next_uid == old(self).next_uid,
    {
        let id = self.slots[idx].id;
        self.slots.remove(idx);
        self.slots.insert(idx, SlotEntry { id, validator: Option::Some(v) });
        proof {
            assert(ctx_entries(*self) =~= ctx_entries(*old(self)).update(
                idx as int,
                (old(self).slots@[idx as int].id, Option::Some(v@)),
            ));
        }
    }
}

/// Field lookup for options that may be set once for a whole
/// compilation: the schema's own value if present, else the ambient
/// configuration's, else absent.
pub fn schema_or_config<T>(schema_value: Option<T>, config_value: Option<T>) -> (r: Option<T>)
    ensures
        r == (if schema_value is Some {
            schema_value
        } else {
            config_value
        }),
{
    match schema_value {
        Option::Some(v) => Option::Some(v),
        Option::None => config_value,
    }
}

/// First build phase: read the schema's discriminator, dispatch to the
/// matching constructor, and build the subtree; an unrecognized
/// discriminator fails the build naming the offending value.
pub fn build_validator(schema: &Schema, config: &Config, ctx: &mut BuildContext) -> (res: Result<
    CombinedValidator,
    BuildError,
>)
    ensures
        ({
            let sb = s_build((*schema)@, *config, ctx_entries(*old(ctx)), old(ctx).next_uid);
            &&& match res {
                Result::Ok(v) => sb.0 is Ok && v@ == sb.0->Ok_0,
                Result::Err(e) => sb.0 is Err && e@ == sb.0->Err_0,
            }
            &&& ctx_entries(*final(ctx)) == sb.1
            &&& final(ctx).next_uid == sb.2
        }),
    decreases ss_height((*schema)@), 1nat,
{
    match schema {
        Schema::Int => Result::Ok(CombinedValidator::Int),
        Schema::Any => Result::Ok(CombinedValidator::Any),
        Schema::Unknown { kind } => Result::Err(BuildError::UnknownKind(kind.clone())),
        Schema::List { item } => {
            match build_validator(item, config, ctx) {
                Result::Err(e) => Result::Err(e),
                Result::Ok(iv) => {
                    let inner_name = iv.get_name();
                    let name = String::from_str("list[").concat(&inner_name).concat("]");
                    Result::Ok(CombinedValidator::List(ListValidator { item: Box::new(iv), name }))
                },
            }
        },
        Schema::Ref { id } => match ctx.find(*id) {
            Option::Some(i) => Result::Ok(
                CombinedValidator::Ref(RefValidator { target: RefTarget::Slot(i) }),
            ),
            Option::None => Result::Ok(
                CombinedValidator::Ref(RefValidator { target: RefTarget::Named(*id) }),
            ),
        },
        Schema::Recursive { id, schema: inner } => match ctx.find(*id) {
            Option::Some(_) => Result::Err(BuildError::DuplicateRef(*id)),
            Option::None => {
                let idx = ctx.slots.len();
                ctx.slots.push(SlotEntry { id: *id, validator: Option::None });
                proof {
                    assert(ctx_entries(*ctx) =~= ctx_entries(*old(ctx)).push(
                        (*id, Option::None),
                    ));
                }
                match build_validator(inner, config, ctx) {
                    Result::Err(e) => Result::Err(e),
                    Result::Ok(iv) => {
                        let ghost e1 = ctx_entries(*old(ctx)).push((*id, Option::None));
                        let ghost ri = s_build((**inner)@, *config, e1, old(ctx).next_uid);
                        let ghost pre = ctx_entries(*ctx);
                        proof {
                            lemma_s_build_grow((**inner)@, *config, e1, old(ctx).next_uid);
                            assert(pre == ri.1);
                            assert(e1[idx as int].0 == *id);
                            assert(ri.1[idx as int].0 == *id);
                            assert(pre[idx as int].0 == ctx.slots@[idx as int].id);
                            assert(ctx.slots@[idx as int].id == *id);
                        }
                        ctx.fill_slot(idx, iv);
                        proof {
                            assert(ctx_entries(*ctx) =~= ri.1.update(
                                idx as int,
                                (*id, Option::Some(iv@)),
                            ));
                        }
                        Result::Ok(
                            CombinedValidator::Ref(RefValidator { target: RefTarget::Slot(idx) }),
                        )
                    },
                }
            },
        },
        Schema::WithDefault { .. } => WithDefaultValidator::build(schema, config, ctx),
    }
}

/// A built and completed validator tree, ready to be invoked: the
/// phase barrier between build and validation is that only
/// [`build_schema`] constructs this type, after the completion pass.
pub struct SchemaValidator {
    root: CombinedValidator,
    slots: Vec<CombinedValidator>,
    ceiling: usize,
}

impl SchemaValidator {
    /// The model of the root validator.
    pub closed spec fn root_spec(&self) -> SpecValidator {
        self.root@
    }

    /// The model of the slot table.
    pub closed spec fn slots_spec(&self) -> Seq<SpecValidator> {
        view_vseq(self.slots@)
    }

    /// The recursion ceiling every validate call starts from.
    pub closed spec fn ceiling_spec(&self) -> nat {
        self.ceiling as nat
    }

    /// The tree is completed and well formed.
    pub closed spec fn wf(&self) -> bool {
        &&& wf_validator(self.root_spec(), self.slots_spec().len() as int)
        &&& wf_slots(self.slots_spec())
    }

    /// Check or coerce one input value against the whole tree.  Each
    /// call allocates its own fresh recursion guard and call context.
    pub fn validate(&self, input: &Value, strict: bool, fs: &mut FactoryState) -> (res: Result<
        Value,
        ValError,
    >)
        requires
            self.wf(),
        ensures
            res_view(res) == sval(
                self.root_spec(),
                self.slots_spec(),
                strict,
                input@,
                Seq::empty(),
                self.ceiling_spec(),
            ),
            final(fs).calls >= old(fs).calls,
    {
        let extra = Extra { strict };
        let mut guard = RecursionGuard::new(self.ceiling);
        self.root.validate(input, &extra, &self.slots, &mut guard, fs)
    }

    /// Ask the tree for a default for an absent field.
    pub fn default_value(
        &self,
        outer_loc: Option<LocItem>,
        strict: bool,
        fs: &mut FactoryState,
    ) -> (res: Result<Option<Value>, ValError>)
        requires
            self.wf(),
        ensures
            dres_view(res) == s_cv_default_value(
                self.root_spec(),
                self.slots_spec(),
                strict,
                crate::semantics::spec_outer(outer_loc),
                Seq::empty(),
                self.ceiling_spec(),
            ),
            final(fs).calls >= old(fs).calls,
    {
        let extra = Extra { strict };
        let mut guard = RecursionGuard::new(self.ceiling);
        self.root.default_value(outer_loc, &extra, &self.slots, &mut guard, fs)
    }

    /// The composed display name of the root validator.
    pub fn get_name(&self) -> (r: String)
        ensures
            r@ == s_name(self.root_spec()),
    {
        self.root.get_name()
    }

    /// Answer a structural question about the tree.
    pub fn ask(&self, q: &Question) -> (r: bool)
        ensures
            r == s_ask(self.root_spec(), *q),
    {
        self.root.ask(q)
    }
}

/// Build and complete a whole schema: the first phase constructs the
/// tree and fills the slot table, the second resolves every deferred
/// reference; only then is a usable [`SchemaValidator`] handed out.
#[verifier::loop_isolation(false)]
pub fn build_schema(schema: &Schema, config: &Config, ceiling: usize) -> (res: Result<
    SchemaValidator,
    BuildError,
>)
    ensures
        match s_schema_build((*schema)@, *config) {
            Result::Ok(pair) => res is Ok && {
                let sv = res->Ok_0;
                &&& sv.root_spec() == pair.0
                &&& sv.slots_spec() == pair.1
                &&& sv.ceiling_spec() == ceiling as nat
                &&& sv.wf()
            },
            Result::Err(e) => res is Err && res->Err_0@ == e,
        },
{
    let mut ctx = BuildContext::new();
    proof {
        assert(entry_ids(ctx_entries(ctx)) =~= Seq::<u64>::empty());
    }
    let root = match build_validator(schema, config, &mut ctx) {
        Result::Ok(v) => v,
        Result::Err(e) => {
            return Result::Err(e);
        },
    };
    let ghost built = s_build((*schema)@, *config, Seq::empty(), 0);
    proof {
        assert(ctx_entries(ctx) =~= built.1);
        lemma_s_build_prewf((*schema)@, *config, Seq::empty(), 0);
    }

    // Extract the slot table: a slot still unfilled is an unresolved
    // forward reference.
    let ghost entries0 = ctx_entries(ctx);
    let mut rest = ctx.slots;
    let mut ids: Vec<u64> = Vec::new();
    let mut raw: Vec<CombinedValidator> = Vec::new();
    proof {
        assert(entries_of(rest@) =~= entries0);
        assert(view_vseq(raw@) =~= Seq::<SpecValidator>::empty());
        assert(entry_ids(entries0) =~= ids@ + entry_ids(entries_of(rest@)));
    }
    while rest.len() > 0
        invariant
            ids@.len() == raw@.len(),
            entry_ids(entries0) == ids@ + entry_ids(entries_of(rest@)),
            s_finalize(entries0) == (match s_finalize(entries_of(rest@)) {
                Result::Ok(r) => Result::<Seq<SpecValidator>, crate::schema::SpecBuildError>::Ok(
                    view_vseq(raw@) + r,
                ),
                Result::Err(e) => Result::Err(e),
            }),
        decreases rest@.len(),
    {
        let ghost rpre = entries_of(rest@);
        let ghost rawpre = view_vseq(raw@);
        let e = rest.remove(0);
        proof {
            assert(entries_of(rest@) =~= rpre.skip(1));
        }
        ids.push(e.id);
        match e.validator {
            Option::Some(v) => {
                raw.push(v);
                proof {
                    assert(view_vseq(raw@) =~= rawpre.push(raw@.last()@));
                    if s_finalize(entries_of(rest@)) is Ok {
                        assert((rawpre + (seq![rpre[0].1->0] + s_finalize(rpre.skip(1))->Ok_0))
                            =~= (view_vseq(raw@) + s_finalize(entries_of(rest@))->Ok_0));
                    }
                    assert(entry_ids(entries0) =~= ids@ + entry_ids(entries_of(rest@)));
                }
            },
            Option::None => {
                proof {
                    assert(rpre[0].1 is None && rpre[0].0 == e.id);
                    assert(s_finalize(rpre) == Result::<
                        Seq<SpecValidator>,
                        crate::schema::SpecBuildError,
                    >::Err(crate::schema::SpecBuildError::UnresolvedRef(e.id)));
                    assert(s_finalize(entries0) == Result::<
                        Seq<SpecValidator>,
                        crate::schema::SpecBuildError,
                    >::Err(crate::schema::SpecBuildError::UnresolvedRef(e.id)));
                    assert(built.0 is Ok);
                    assert(built.1 == entries0);
                    assert(s_schema_build((*schema)@, *config) == Result::<
                        (SpecValidator, Seq<SpecValidator>),
                        crate::schema::SpecBuildError,
                    >::Err(crate::schema::SpecBuildError::UnresolvedRef(e.id)));
                }
                return Result::Err(BuildError::UnresolvedRef(e.id));
            },
        }
    }
    proof {
        assert(entries_of(rest@) =~= Seq::<(u64, Option<SpecValidator>)>::empty());
        assert(s_finalize(entries0) == Result::<
            Seq<SpecValidator>,
            crate::schema::SpecBuildError,
        >::Ok(view_vseq(raw@))) by {
            assert(view_vseq(raw@) + Seq::<SpecValidator>::empty() =~= view_vseq(raw@));
        }
        assert(ids@ =~= entry_ids(entries0)) by {
            assert(entry_ids(entries_of(rest@)) =~= Seq::<u64>::empty());
            assert(ids@ + Seq::<u64>::empty() =~= ids@);
        }
    }

    // Second phase: resolve deferred references in every slot
    // validator, then in the root.
    let ghost raw0 = view_vseq(raw@);
    let mut todo = raw;
    let mut slots2: Vec<CombinedValidator> = Vec::new();
    proof {
        assert(view_vseq(slots2@) =~= Seq::<SpecValidator>::empty());
    }
    while todo.len() > 0
        invariant
            s_complete_all(raw0, ids@) == (match s_complete_all(view_vseq(todo@), ids@) {
                Result::Ok(r) => Result::<Seq<SpecValidator>, crate::schema::SpecBuildError>::Ok(
                    view_vseq(slots2@) + r,
                ),
                Result::Err(e) => Result::Err(e),
            }),
        decreases todo@.len(),
    {
        let ghost tpre = view_vseq(todo@);
        let ghost spre = view_vseq(slots2@);
        let v = todo.remove(0);
        proof {
            assert(view_vseq(todo@) =~= tpre.skip(1));
        }
        match v.complete(&ids) {
            Result::Ok(v2) => {
                slots2.push(v2);
                proof {
                    assert(view_vseq(slots2@) =~= spre.push(slots2@.last()@));
                    if s_complete_all(view_vseq(todo@), ids@) is Ok {
                        assert((spre + (seq![s_complete(tpre[0], ids@)->Ok_0] + s_complete_all(
                            view_vseq(todo@),
                            ids@,
                        )->Ok_0)) =~= (view_vseq(slots2@) + s_complete_all(
                            view_vseq(todo@),
                            ids@,
                        )->Ok_0));
                    }
                }
            },
            Result::Err(e) => {
                proof {
                    assert(s_complete(tpre[0], ids@) is Err);
                    assert(s_complete_all(tpre, ids@) == Result::<
                        Seq<SpecValidator>,
                        crate::schema::SpecBuildError,
                    >::Err(e@));
                    assert(s_complete_all(raw0, ids@) == Result::<
                        Seq<SpecValidator>,
                        crate::schema::SpecBuildError,
                    >::Err(e@));
                    assert(s_finalize(built.1) == Result::<
                        Seq<SpecValidator>,
                        crate::schema::SpecBuildError,
                    >::Ok(raw0));
                    assert(ids@ == entry_ids(built.1));
                    assert(s_schema_build((*schema)@, *config) == Result::<
                        (SpecValidator, Seq<SpecValidator>),
                        crate::schema::SpecBuildError,
                    >::Err(e@));
                }
                return Result::Err(e);
            },
        }
    }
    proof {
        assert(view_vseq(todo@) =~= Seq::<SpecValidator>::empty());
        assert(s_complete_all(raw0, ids@) == Result::<
            Seq<SpecValidator>,
            crate::schema::SpecBuildError,
        >::Ok(view_vseq(slots2@))) by {
            assert(view_vseq(slots2@) + Seq::<SpecValidator>::empty() =~= view_vseq(slots2@));
        }
    }

    let root2 = match root.complete(&ids) {
        Result::Ok(r) => r,
        Result::Err(e) => {
            return Result::Err(e);
        },
    };

    let out = SchemaValidator { root: root2, slots: slots2, ceiling };
    proof {
        lemma_wf_after_completion(built.1, raw0, ids@, built.0->Ok_0);
        assert(out.slots_spec() == s_schema_build((*schema)@, *config)->Ok_0.1);
        assert(out.root_spec() == s_schema_build((*schema)@, *config)->Ok_0.0);
    }
    Result::Ok(out)
}

} // verus!
