//! The scheduling model of one callback handle. The wrapped host function
//! may execute only on its designated thread, one call at a time, while
//! the pipeline issues calls concurrently from many worker tasks. This
//! module gives that shared scheduling state an exact model: calls are
//! submitted against a fresh ticket, at most one submitted call is running
//! at any moment, and each host reply is recorded under the ticket of the
//! call it answers — so queued calls can never exchange results, whatever
//! order they are served in.

use vstd::prelude::*;

use crate::errors::InvokeError;
use crate::handle::CallbackHandle;
use crate::hooks::ArgTuple;

verus! {

/// One queued call: the ticket handed back to the submitter and the
/// encoded arguments the host will receive.
pub struct PendingCall {
    pub ticket: u64,
    pub args: ArgTuple,
}

/// One finished call: the ticket of the submission it answers and the
/// host's reply for that submission.
pub struct CompletedCall<R> {
    pub ticket: u64,
    pub reply: Result<Option<R>, InvokeError>,
}

/// The scheduling state of one callback handle: the queue of submitted
/// calls, the at-most-one call currently on the host's thread, and the log
/// of completed calls. The ghost map remembers the arguments of every
/// submission ever made, keyed by ticket, so contracts can tie a completion
/// back to its own submission.
pub struct Dispatcher<R> {
    pub fn_id: u64,
    pub next_ticket: u64,
    pub pending: Vec<PendingCall>,
    pub running: Option<u64>,
    pub served: Vec<CompletedCall<R>>,
    pub submitted: Ghost<Map<u64, ArgTuple>>,
}

impl<R> Dispatcher<R> {
    /// Well-formedness: every ticket in play was issued, is recorded in
    /// the submission map with its own arguments, and belongs to exactly
    /// one of the queue, the running slot and the completion log.
    pub open spec fn wf(&self) -> bool {
        &&& forall|i: int|
            #![trigger self.pending@[i]]
            0 <= i < self.pending@.len() ==> {
                &&& self.pending@[i].ticket < self.next_ticket
                &&& self.submitted@.contains_key(self.pending@[i].ticket)
                &&& self.submitted@[self.pending@[i].ticket] == self.pending@[i].args
            }
        &&& forall|i: int, j: int|
            #![trigger self.pending@[i], self.pending@[j]]
            0 <= i < j < self.pending@.len() ==> self.pending@[i].ticket
                != self.pending@[j].ticket
        &&& forall|i: int|
            #![trigger self.served@[i]]
            0 <= i < self.served@.len() ==> {
                &&& self.served@[i].ticket < self.next_ticket
                &&& self.submitted@.contains_key(self.served@[i].ticket)
            }
        &&& forall|i: int, j: int|
            #![trigger self.served@[i], self.served@[j]]
            0 <= i < j < self.served@.len() ==> self.served@[i].ticket != self.served@[j].ticket
        &&& forall|i: int, j: int|
            #![trigger self.pending@[i], self.served@[j]]
            0 <= i < self.pending@.len() && 0 <= j < self.served@.len() ==> self.pending@[i].ticket
                != self.served@[j].ticket
        &&& match self.running {
            Some(t) => {
                &&& t < self.next_ticket
                &&& self.submitted@.contains_key(t)
                &&& forall|i: int|
                    #![trigger self.pending@[i]]
                    0 <= i < self.pending@.len() ==> self.pending@[i].ticket != t
                &&& forall|i: int|
                    #![trigger self.served@[i]]
                    0 <= i < self.served@.len() ==> self.served@[i].ticket != t
            },
            None => true,
        }
    }

    /// A fresh dispatcher for one bound handle: nothing queued, nothing
    /// running, nothing served.
    pub fn new(h: &CallbackHandle) -> (r: Dispatcher<R>)
        ensures
            r.wf(),
            r.fn_id == h.fn_id,
            r.next_ticket == 0,
            r.pending@.len() == 0,
            r.running is None,
            r.served@.len() == 0,
            r.submitted@ == Map::<u64, ArgTuple>::empty(),
    {
        Dispatcher {
            fn_id: h.fn_id,
            next_ticket: 0,
            pending: Vec::new(),
            running: None,
            served: Vec::new(),
            submitted: Ghost(Map::empty()),
        }
    }

    /// Submits one call: queues the arguments under a fresh ticket and
    /// hands the ticket back, touching nothing else. Safe to interleave
    /// with other submissions — each gets its own ticket.
    pub fn submit(&mut self, args: ArgTuple) -> (t: u64)
        requires
            old(self).wf(),
            old(self).next_ticket < u64::MAX,
        ensures
            final(self).wf(),
            t == old(self).next_ticket,
            final(self).next_ticket == old(self).next_ticket + 1,
            final(self).submitted@ == old(self).submitted@.insert(t, args),
            final(self).pending@ == old(self).pending@.push(PendingCall { ticket: t, args }),
            final(self).running == old(self).running,
            final(self).served@ == old(self).served@,
            final(self).fn_id == old(self).fn_id,
    {
        let t = self.next_ticket;
        let ghost a = args;
        self.pending.push(PendingCall { ticket: t, args });
        self.next_ticket = t + 1;
        proof {
            self.submitted@ = self.submitted@.insert(t, a);
        }
        t
    }

    /// Takes the next queued call onto the host's thread — but only when
    /// no call is running: with one in flight, or with an empty queue,
    /// nothing changes. The call handed out carries exactly the arguments
    /// its submission recorded.
    pub fn begin(&mut self) -> (r: Option<PendingCall>)
        requires
            old(self).wf(),
        ensures
            final(self).wf(),
            final(self).fn_id == old(self).fn_id,
            final(self).next_ticket == old(self).next_ticket,
            final(self).submitted@ == old(self).submitted@,
            final(self).served@ == old(self).served@,
            old(self).running is Some || old(self).pending@.len() == 0 ==> {
                &&& r is None
                &&& final(self).pending@ == old(self).pending@
                &&& final(self).running == old(self).running
            },
            old(self).running is None && old(self).pending@.len() > 0 ==> {
                &&& r matches Some(c)
                &&& c == old(self).pending@[0]
                &&& old(self).submitted@.contains_key(c.ticket)
                &&& old(self).submitted@[c.ticket] == c.args
                &&& final(self).pending@ == old(self).pending@.remove(0)
                &&& final(self).running == Some(c.ticket)
            },
    {
        if self.running.is_some() {
            return None;
        }
        if self.pending.len() == 0 {
            return None;
        }
        let c = self.pending.remove(0);
        self.running = Some(c.ticket);
        Some(c)
    }

    /// Records the host's reply for the running call, under that call's
    /// ticket, and frees the host's thread for the next queued call.
    pub fn complete(&mut self, reply: Result<Option<R>, InvokeError>) -> (t: u64)
        requires
            old(self).wf(),
            old(self).running is Some,
        ensures
            final(self).wf(),
            Some(t) == old(self).running,
            final(self).running is None,
            final(self).served@ == old(self).served@.push(CompletedCall { ticket: t, reply }),
            final(self).pending@ == old(self).pending@,
            final(self).submitted@ == old(self).submitted@,
            final(self).next_ticket == old(self).next_ticket,
            final(self).fn_id == old(self).fn_id,
    {
        let t = self.running.unwrap();
        self.running = None;
        self.served.push(CompletedCall { ticket: t, reply });
        t
    }
}

/// Law: one-at-a-time dispatch never mixes concurrent calls. In every
/// well-formed dispatcher state, each completed call carries the ticket of
/// a real submission — whose recorded arguments are the very ones the host
/// was given for it — and no two completed calls answer the same
/// submission: N submitted calls yield N completions, each its own.
pub proof fn lemma_completions_isolated<R>(d: &Dispatcher<R>)
    requires
        d.wf(),
    ensures
        forall|i: int|
            #![trigger d.served@[i]]
            0 <= i < d.served@.len() ==> d.submitted@.contains_key(d.served@[i].ticket),
        forall|i: int, j: int|
            #![trigger d.served@[i], d.served@[j]]
            0 <= i < j < d.served@.len() ==> d.served@[i].ticket != d.served@[j].ticket,
{
}

} // verus!
