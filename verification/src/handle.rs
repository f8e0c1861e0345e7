//! The callback handle: the bridge's thread-safe reference to one
//! externally defined function. Binding checks the supplied reference once,
//! at adapter construction; the handle then identifies the bound function
//! for the rest of the adapter's life. The handle's scheduling state — the
//! queue that keeps concurrent calls from executing at once on the host's
//! designated thread — is modelled by [`crate::dispatch::Dispatcher`].

use vstd::prelude::*;

use crate::errors::BindError;

verus! {

/// What the host hands over for one configured hook slot: an identifier for
/// the external function, together with what the host reports of the
/// reference at construction time — whether it denotes a callable function,
/// and whether it can be captured for invocation from other threads.
#[derive(Clone, Copy, Debug, PartialEq, Eq, Structural)]
pub struct ExternalFnRef {
    pub fn_id: u64,
    pub valid: bool,
    pub thread_safe: bool,
}

/// A bound, clonable reference to one external function. At most one
/// execution of the function proceeds at a time per handle; requests are
/// queued by the dispatcher, never run concurrently.
#[derive(Clone, Copy, Debug, PartialEq, Eq, Structural)]
pub struct CallbackHandle {
    pub fn_id: u64,
}

/// Whether a reference can be bound at all.
pub open spec fn bindable(f: ExternalFnRef) -> bool {
    f.valid && f.thread_safe
}

/// The bind failure a reference produces, when it produces one: an invalid
/// reference is reported before a thread-safety failure.
pub open spec fn bind_error(f: ExternalFnRef) -> BindError {
    if !f.valid {
        BindError::InvalidReference
    } else {
        BindError::NotThreadSafe
    }
}

impl CallbackHandle {
    /// Binds one external function reference, failing if the host reported
    /// the reference invalid or not capturable for cross-thread use.
    pub fn new(f: &ExternalFnRef) -> (r: Result<CallbackHandle, BindError>)
        ensures
            bindable(*f) ==> r == Ok::<CallbackHandle, BindError>(
                CallbackHandle { fn_id: f.fn_id },
            ),
            !bindable(*f) ==> r == Err::<CallbackHandle, BindError>(bind_error(*f)),
    {
        if !f.valid {
            Err(BindError::InvalidReference)
        } else if !f.thread_safe {
            Err(BindError::NotThreadSafe)
        } else {
            Ok(CallbackHandle { fn_id: f.fn_id })
        }
    }
}

} // verus!
