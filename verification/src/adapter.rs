//! The plugin adapter: the pipeline-facing plugin built from a
//! configuration record with up to three externally supplied hook
//! functions. Construction binds each configured slot to its own callback
//! handle, once, and fails if any supplied reference cannot be bound.
//!
//! A hook call has two verified halves around the host's execution. The
//! request half decides: with no handle bound the hook declines on the
//! spot — the pipeline receives `Ok(None)` and nothing is scheduled —
//! otherwise it encodes the arguments for the host. The completion half
//! takes the host's reply, whatever it was, and translates it: a present
//! result decodes into the pipeline's outcome record, an absent result
//! means the hook declined, and a failure becomes a pipeline error naming
//! this plugin and the hook.

use vstd::prelude::*;

use crate::codec;
use crate::errors;
use crate::errors::BindError;
use crate::errors::HookFailure;
use crate::errors::InvokeError;
use crate::errors::PipelineError;
use crate::handle::bind_error;
use crate::handle::bindable;
use crate::handle::CallbackHandle;
use crate::handle::ExternalFnRef;
use crate::hooks::ArgTuple;
use crate::hooks::HookKind;
use crate::hooks::HookLoadArgs;
use crate::hooks::HookResolveIdArgs;
use crate::hooks::HookTransformArgs;
use crate::hooks::PluginContext;
use crate::hooks::ResolveIdOutcome;
use crate::hooks::ResolveIdResult;
use crate::hooks::SourceOutcome;
use crate::hooks::SourceResult;

verus! {

/// External configuration for one plugin: its name and up to three
/// optional hook function references.
pub struct PluginOptions {
    pub name: String,
    pub resolve_id: Option<ExternalFnRef>,
    pub load: Option<ExternalFnRef>,
    pub transform: Option<ExternalFnRef>,
}

/// What the request half of a hook call decides: either the hook is
/// settled without any host involvement, or the host must be called with
/// the encoded arguments.
pub enum HookAction<T> {
    Done(Result<Option<T>, PipelineError>),
    Call(ArgTuple),
}

/// What binding one configuration slot yields: no handle for an empty
/// slot, a bound handle for a bindable reference, and the slot's bind
/// error otherwise.
pub open spec fn slot_binding(slot: Option<ExternalFnRef>) -> Result<
    Option<CallbackHandle>,
    BindError,
> {
    match slot {
        None => Ok(None),
        Some(f) => if bindable(f) {
            Ok(Some(CallbackHandle { fn_id: f.fn_id }))
        } else {
            Err(bind_error(f))
        },
    }
}

/// The first bind failure construction runs into — the hook whose slot
/// refused to bind and the slot's error — checking the slots in the order
/// resolve, load, transform; `None` when every configured slot binds.
pub open spec fn first_bind_failure(option: PluginOptions) -> Option<(HookKind, BindError)> {
    match slot_binding(option.resolve_id) {
        Err(e) => Some((HookKind::ResolveId, e)),
        Ok(_) => match slot_binding(option.load) {
            Err(e) => Some((HookKind::Load, e)),
            Ok(_) => match slot_binding(option.transform) {
                Err(e) => Some((HookKind::Transform, e)),
                Ok(_) => None,
            },
        },
    }
}

/// Binds one configuration slot, mirroring [`slot_binding`].
fn bind_slot(slot: &Option<ExternalFnRef>) -> (r: Result<Option<CallbackHandle>, BindError>)
    ensures
        r == slot_binding(*slot),
{
    match slot {
        None => Ok(None),
        Some(f) => match CallbackHandle::new(f) {
            Ok(h) => Ok(Some(h)),
            Err(e) => Err(e),
        },
    }
}

/// The adapter: the plugin's name plus one optional bound callback handle
/// per hook. Immutable after construction — hooks are fixed, handles are
/// never rebound.
#[derive(Debug)]
pub struct JsAdapterPlugin {
    name: String,
    resolve_id_fn: Option<CallbackHandle>,
    load_fn: Option<CallbackHandle>,
    transform_fn: Option<CallbackHandle>,
}

impl JsAdapterPlugin {
    /// The plugin's name, as a spec-level sequence of characters.
    pub closed spec fn spec_name(&self) -> Seq<char> {
        self.name@
    }

    /// The handle bound for the resolution hook, if any.
    pub closed spec fn spec_resolve_id_fn(&self) -> Option<CallbackHandle> {
        self.resolve_id_fn
    }

    /// The handle bound for the load hook, if any.
    pub closed spec fn spec_load_fn(&self) -> Option<CallbackHandle> {
        self.load_fn
    }

    /// The handle bound for the transform hook, if any.
    pub closed spec fn spec_transform_fn(&self) -> Option<CallbackHandle> {
        self.transform_fn
    }

    pub open spec fn resolve_id_bound(&self) -> bool {
        self.spec_resolve_id_fn() is Some
    }

    pub open spec fn load_bound(&self) -> bool {
        self.spec_load_fn() is Some
    }

    pub open spec fn transform_bound(&self) -> bool {
        self.spec_transform_fn() is Some
    }

    /// How a constructed adapter relates to its configuration: the name is
    /// kept, and each hook is bound exactly when its own configuration
    /// slot is supplied, to the function that slot names.
    pub open spec fn reflects(&self, option: PluginOptions) -> bool {
        &&& self.spec_name() == option.name@
        &&& self.spec_resolve_id_fn() == slot_binding(option.resolve_id)->Ok_0
        &&& self.spec_load_fn() == slot_binding(option.load)->Ok_0
        &&& self.spec_transform_fn() == slot_binding(option.transform)->Ok_0
    }

    /// Builds an adapter from its configuration, binding each configured
    /// hook slot to its own callback handle. Registration fails on the
    /// first slot, in the order resolve, load, transform, whose supplied
    /// reference cannot be bound; the failure surfaces as the pipeline's
    /// uniform error, naming this plugin, the refusing hook and the bind
    /// error itself.
    pub fn new(option: PluginOptions) -> (r: Result<JsAdapterPlugin, PipelineError>)
        ensures
            r is Ok <==> first_bind_failure(option) is None,
            r matches Ok(p) ==> p.reflects(option),
            r matches Err(pe) ==> (first_bind_failure(option) matches Some(he) && pe.plugin@
                == option.name@ && pe.hook == he.0 && pe.cause == HookFailure::Bind(he.1)),
    {
        let resolve_id_fn = match bind_slot(&option.resolve_id) {
            Ok(h) => h,
            Err(e) => {
                return Err(errors::bind_failure(&option.name, HookKind::ResolveId, e));
            },
        };
        let load_fn = match bind_slot(&option.load) {
            Ok(h) => h,
            Err(e) => {
                return Err(errors::bind_failure(&option.name, HookKind::Load, e));
            },
        };
        let transform_fn = match bind_slot(&option.transform) {
            Ok(h) => h,
            Err(e) => {
                return Err(errors::bind_failure(&option.name, HookKind::Transform, e));
            },
        };
        Ok(JsAdapterPlugin { name: option.name, resolve_id_fn, load_fn, transform_fn })
    }

    /// Builds a boxed adapter, for a pipeline that stores its plugins
    /// behind indirection.
    pub fn new_boxed(option: PluginOptions) -> (r: Result<Box<JsAdapterPlugin>, PipelineError>)
        ensures
            r is Ok <==> first_bind_failure(option) is None,
            r matches Ok(p) ==> p.reflects(option),
            r matches Err(pe) ==> (first_bind_failure(option) matches Some(he) && pe.plugin@
                == option.name@ && pe.hook == he.0 && pe.cause == HookFailure::Bind(he.1)),
    {
        match Self::new(option) {
            Ok(p) => Ok(Box::new(p)),
            Err(e) => Err(e),
        }
    }

    /// The plugin's identity, stable for the adapter's lifetime.
    pub fn name(&self) -> (r: String)
        ensures
            r@ == self.spec_name(),
    {
        self.name.clone()
    }

    /// The bound resolution handle, for routing a call to its dispatcher.
    pub fn resolve_id_callback(&self) -> (r: Option<CallbackHandle>)
        ensures
            r == self.spec_resolve_id_fn(),
    {
        self.resolve_id_fn
    }

    /// The bound load handle, for routing a call to its dispatcher.
    pub fn load_callback(&self) -> (r: Option<CallbackHandle>)
        ensures
            r == self.spec_load_fn(),
    {
        self.load_fn
    }

    /// The bound transform handle, for routing a call to its dispatcher.
    pub fn transform_callback(&self) -> (r: Option<CallbackHandle>)
        ensures
            r == self.spec_transform_fn(),
    {
        self.transform_fn
    }

    /// The request half of the resolution hook. With no handle bound the
    /// hook declines at once — `Ok(None)`, nothing scheduled; otherwise
    /// the arguments are encoded for the host. The context is handed back
    /// untouched.
    pub fn resolve_id_request(&self, ctx: &mut PluginContext, args: &HookResolveIdArgs) -> (r:
        HookAction<ResolveIdOutcome>)
        ensures
            *final(ctx) == *old(ctx),
            !self.resolve_id_bound() ==> r == HookAction::<ResolveIdOutcome>::Done(Ok(None)),
            self.resolve_id_bound() ==> (r matches HookAction::Call(t) && t@
                == codec::resolve_id_args_encoding(args@)),
    {
        if self.resolve_id_fn.is_some() {
            HookAction::Call(codec::encode_resolve_id_args(args))
        } else {
            HookAction::Done(Ok(None))
        }
    }

    /// The completion half of the resolution hook: translates the host's
    /// reply. A present record decodes to the pipeline's outcome, an
    /// absent one means the hook declined, and a failure is wrapped with
    /// this plugin's name and the resolution hook's identity.
    pub fn resolve_id_complete(&self, reply: Result<Option<ResolveIdResult>, InvokeError>) -> (r:
        Result<Option<ResolveIdOutcome>, PipelineError>)
        requires
            self.resolve_id_bound(),
        ensures
            reply matches Ok(Some(v)) ==> (r matches Ok(o) && o matches Some(out) && out@
                == codec::resolve_id_result_decoding(v@)),
            reply matches Ok(None) ==> r == Ok::<Option<ResolveIdOutcome>, PipelineError>(None),
            reply matches Err(e) ==> (r matches Err(pe) && pe.plugin@ == self.spec_name() && pe.hook
                == HookKind::ResolveId && pe.cause == HookFailure::Invoke(e)),
    {
        match reply {
            Ok(Some(v)) => Ok(Some(codec::decode_resolve_id_result(v))),
            Ok(None) => Ok(None),
            Err(e) => Err(errors::invoke_failure(&self.name, HookKind::ResolveId, e)),
        }
    }

    /// The request half of the load hook; see [`Self::resolve_id_request`].
    pub fn load_request(&self, ctx: &mut PluginContext, args: &HookLoadArgs) -> (r: HookAction<
        SourceOutcome,
    >)
        ensures
            *final(ctx) == *old(ctx),
            !self.load_bound() ==> r == HookAction::<SourceOutcome>::Done(Ok(None)),
            self.load_bound() ==> (r matches HookAction::Call(t) && t@
                == codec::load_args_encoding(args@)),
    {
        if self.load_fn.is_some() {
            HookAction::Call(codec::encode_load_args(args))
        } else {
            HookAction::Done(Ok(None))
        }
    }

    /// The completion half of the load hook; see
    /// [`Self::resolve_id_complete`].
    pub fn load_complete(&self, reply: Result<Option<SourceResult>, InvokeError>) -> (r: Result<
        Option<SourceOutcome>,
        PipelineError,
    >)
        requires
            self.load_bound(),
        ensures
            reply matches Ok(Some(v)) ==> (r matches Ok(o) && o matches Some(out) && out@
                == codec::source_result_decoding(v@)),
            reply matches Ok(None) ==> r == Ok::<Option<SourceOutcome>, PipelineError>(None),
            reply matches Err(e) ==> (r matches Err(pe) && pe.plugin@ == self.spec_name() && pe.hook
                == HookKind::Load && pe.cause == HookFailure::Invoke(e)),
    {
        match reply {
            Ok(Some(v)) => Ok(Some(codec::decode_source_result(v))),
            Ok(None) => Ok(None),
            Err(e) => Err(errors::invoke_failure(&self.name, HookKind::Load, e)),
        }
    }

    /// The request half of the transform hook; see
    /// [`Self::resolve_id_request`].
    pub fn transform_request(&self, ctx: &mut PluginContext, args: &HookTransformArgs) -> (r:
        HookAction<SourceOutcome>)
        ensures
            *final(ctx) == *old(ctx),
            !self.transform_bound() ==> r == HookAction::<SourceOutcome>::Done(Ok(None)),
            self.transform_bound() ==> (r matches HookAction::Call(t) && t@
                == codec::transform_args_encoding(args@)),
    {
        if self.transform_fn.is_some() {
            HookAction::Call(codec::encode_transform_args(args))
        } else {
            HookAction::Done(Ok(None))
        }
    }

    /// The completion half of the transform hook; see
    /// [`Self::resolve_id_complete`].
    pub fn transform_complete(&self, reply: Result<Option<SourceResult>, InvokeError>) -> (r:
        Result<Option<SourceOutcome>, PipelineError>)
        requires
            self.transform_bound(),
        ensures
            reply matches Ok(Some(v)) ==> (r matches Ok(o) && o matches Some(out) && out@
                == codec::source_result_decoding(v@)),
            reply matches Ok(None) ==> r == Ok::<Option<SourceOutcome>, PipelineError>(None),
            reply matches Err(e) ==> (r matches Err(pe) && pe.plugin@ == self.spec_name() && pe.hook
                == HookKind::Transform && pe.cause == HookFailure::Invoke(e)),
    {
        match reply {
            Ok(Some(v)) => Ok(Some(codec::decode_source_result(v))),
            Ok(None) => Ok(None),
            Err(e) => Err(errors::invoke_failure(&self.name, HookKind::Transform, e)),
        }
    }
}

} // verus!
