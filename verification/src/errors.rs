//! The error taxonomy of the bridge and the translation into the
//! pipeline's uniform error type. A bind failure is fatal to plugin
//! registration; an invoke failure fails one hook call; both are wrapped,
//! without losing their textual description, together with the plugin's
//! name and the failing hook.

use vstd::prelude::*;

use crate::hooks::HookKind;

verus! {

/// Why a callback handle could not be constructed from a supplied external
/// function reference.
#[derive(Clone, Copy, Debug, PartialEq, Eq, Structural)]
pub enum BindError {
    /// The supplied reference does not denote a callable function.
    InvalidReference,
    /// The reference is callable but cannot be captured for use from other
    /// threads, e.g. because construction ran in the wrong execution
    /// context.
    NotThreadSafe,
}

/// Why one invocation through a callback handle failed. The variants keep
/// the failure's origin distinguishable, and carry the host's own message
/// where one exists.
#[derive(Debug, PartialEq)]
pub enum InvokeError {
    /// The host function threw, or propagated a failure while it ran.
    HostFailure(String),
    /// The arguments could not be converted into host-transmissible form.
    ArgEncoding(String),
    /// The host's result could not be converted back.
    ResultDecoding(String),
    /// The scheduling channel to the host's thread was closed mid-call.
    ChannelClosed,
}

/// The underlying failure a pipeline error wraps.
#[derive(Debug, PartialEq)]
pub enum HookFailure {
    Bind(BindError),
    Invoke(InvokeError),
}

/// The pipeline's uniform error: the plugin's name, the hook that failed,
/// and the underlying failure, kept whole.
#[derive(Debug, PartialEq)]
pub struct PipelineError {
    pub plugin: String,
    pub hook: HookKind,
    pub cause: HookFailure,
}

/// The textual description preserved from the underlying failure.
pub open spec fn failure_description(cause: HookFailure) -> Seq<char> {
    match cause {
        HookFailure::Invoke(InvokeError::HostFailure(m)) => m@,
        HookFailure::Invoke(InvokeError::ArgEncoding(m)) => m@,
        HookFailure::Invoke(InvokeError::ResultDecoding(m)) => m@,
        HookFailure::Invoke(InvokeError::ChannelClosed) => "host channel closed"@,
        HookFailure::Bind(BindError::InvalidReference) => "invalid callback reference"@,
        HookFailure::Bind(BindError::NotThreadSafe) => "callback not thread safe"@,
    }
}

/// Wraps a per-call failure with the plugin's name and the failing hook.
pub fn invoke_failure(plugin: &String, hook: HookKind, cause: InvokeError) -> (r: PipelineError)
    ensures
        r.plugin@ == plugin@,
        r.hook == hook,
        r.cause == HookFailure::Invoke(cause),
{
    PipelineError { plugin: plugin.clone(), hook, cause: HookFailure::Invoke(cause) }
}

/// Wraps a registration-time bind failure with the plugin's name and the
/// hook whose reference could not be bound.
pub fn bind_failure(plugin: &String, hook: HookKind, cause: BindError) -> (r: PipelineError)
    ensures
        r.plugin@ == plugin@,
        r.hook == hook,
        r.cause == HookFailure::Bind(cause),
{
    PipelineError { plugin: plugin.clone(), hook, cause: HookFailure::Bind(cause) }
}

impl PipelineError {
    /// The diagnostic text carried over from the underlying failure.
    pub fn description(&self) -> (r: String)
        ensures
            r@ == failure_description(self.cause),
    {
        match &self.cause {
            HookFailure::Invoke(InvokeError::HostFailure(m)) => m.clone(),
            HookFailure::Invoke(InvokeError::ArgEncoding(m)) => m.clone(),
            HookFailure::Invoke(InvokeError::ResultDecoding(m)) => m.clone(),
            HookFailure::Invoke(InvokeError::ChannelClosed) => String::from_str(
                "host channel closed",
            ),
            HookFailure::Bind(BindError::InvalidReference) => String::from_str(
                "invalid callback reference",
            ),
            HookFailure::Bind(BindError::NotThreadSafe) => String::from_str(
                "callback not thread safe",
            ),
        }
    }
}

} // verus!
