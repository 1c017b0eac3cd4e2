//! The dual-stack connection acceptor: two independently bound listeners,
//! one per address family, presented as a single source of inbound
//! connections.
//!
//! The model holds, per listener, the queue of connections that are ready
//! but not yet handed out. `next` is the acceptor's whole contract: the v4
//! listener is checked first on every call, then the v6 listener, and only
//! when both queues are empty does the caller have to wait. Because each
//! call re-checks both queues independently, the fixed order starves
//! neither side: whatever is pending is handed out before the acceptor
//! reports that it would block.

use vstd::prelude::*;

verus! {

use crate::config::ListenStack;

/// Two listeners' ready connections, multiplexed into one acceptor.
///
/// `T` stands for a pending connection: accepted by the transport, not yet
/// handed to the HTTP layer. It may just as well be an accept *result*, so
/// that a transient accept error on one listener is surfaced once as an
/// ordinary item — the acceptor keeps going either way. In a single-stack
/// mode only the one bound listener exists, so the other family's queue is
/// forever empty; that is the well-formedness invariant.
pub struct DualStackAcceptor<T> {
    pub mode: ListenStack,
    pub ready_v4: Vec<T>,
    pub ready_v6: Vec<T>,
}

impl<T> DualStackAcceptor<T> {
    /// A family with no bound listener never has a ready connection.
    pub open spec fn wf(self) -> bool {
        &&& (self.mode is V4 ==> self.ready_v6@.len() == 0)
        &&& (self.mode is V6 ==> self.ready_v4@.len() == 0)
    }

    /// A fresh acceptor for the given mode, with nothing pending.
    pub fn new(mode: ListenStack) -> (r: Self)
        ensures
            r.wf(),
            r.mode == mode,
            r.ready_v4@.len() == 0,
            r.ready_v6@.len() == 0,
    {
        DualStackAcceptor { mode, ready_v4: Vec::new(), ready_v6: Vec::new() }
    }

    /// A connection became ready on the v4 listener. Only modes that bind a
    /// v4 listener can see one.
    pub fn arrive_v4(&mut self, c: T)
        requires
            old(self).wf(),
            !(old(self).mode is V6),
        ensures
            final(self).wf(),
            final(self).mode == old(self).mode,
            final(self).ready_v4@ == old(self).ready_v4@.push(c),
            final(self).ready_v6@ == old(self).ready_v6@,
    {
        self.ready_v4.push(c);
    }

    /// A connection became ready on the v6 listener. Only modes that bind a
    /// v6 listener can see one.
    pub fn arrive_v6(&mut self, c: T)
        requires
            old(self).wf(),
            !(old(self).mode is V4),
        ensures
            final(self).wf(),
            final(self).mode == old(self).mode,
            final(self).ready_v4@ == old(self).ready_v4@,
            final(self).ready_v6@ == old(self).ready_v6@.push(c),
    {
        self.ready_v6.push(c);
    }

    /// The next ready connection, or `None` when the caller must wait for a
    /// readiness event. The v4 listener is checked first, then the v6 one;
    /// a single call never waits on one listener while the other already
    /// has a connection ready.
    pub fn next(&mut self) -> (r: Option<T>)
        ensures
            final(self).mode == old(self).mode,
            old(self).ready_v4@.len() > 0 ==> r == Some(old(self).ready_v4@[0])
                && final(self).ready_v4@ == old(self).ready_v4@.remove(0)
                && final(self).ready_v6@ == old(self).ready_v6@,
            old(self).ready_v4@.len() == 0 && old(self).ready_v6@.len() > 0 ==> r == Some(
                old(self).ready_v6@[0],
            ) && final(self).ready_v4@ == old(self).ready_v4@
                && final(self).ready_v6@ == old(self).ready_v6@.remove(0),
            old(self).ready_v4@.len() == 0 && old(self).ready_v6@.len() == 0 ==> r is None
                && final(self).ready_v4@ == old(self).ready_v4@
                && final(self).ready_v6@ == old(self).ready_v6@,
            old(self).wf() ==> final(self).wf(),
    {
        if self.ready_v4.len() > 0 {
            Some(self.ready_v4.remove(0))
        } else if self.ready_v6.len() > 0 {
            Some(self.ready_v6.remove(0))
        } else {
            None
        }
    }

    /// Hand out every pending connection, in acceptor order: repeated calls
    /// of `next` until it would block yield the whole v4 queue, then the
    /// whole v6 queue, and nothing else.
    pub fn drain(&mut self) -> (r: Vec<T>)
        ensures
            final(self).mode == old(self).mode,
            final(self).ready_v4@.len() == 0,
            final(self).ready_v6@.len() == 0,
            r@ == old(self).ready_v4@ + old(self).ready_v6@,
    {
        let ghost g_v4 = self.ready_v4@;
        let ghost g_v6 = self.ready_v6@;
        let mut out: Vec<T> = Vec::new();
        loop
            invariant
                self.mode == old(self).mode,
                out@ + self.ready_v4@ + self.ready_v6@ == g_v4 + g_v6,
            ensures
                self.mode == old(self).mode,
                self.ready_v4@.len() == 0,
                self.ready_v6@.len() == 0,
                out@ + self.ready_v4@ + self.ready_v6@ == g_v4 + g_v6,
            decreases self.ready_v4@.len() + self.ready_v6@.len(),
        {
            let ghost pre_v4 = self.ready_v4@;
            let ghost pre_v6 = self.ready_v6@;
            let ghost pre_out = out@;
            match self.next() {
                Some(c) => {
                    out.push(c);
                    proof {
                        assert(out@ + self.ready_v4@ + self.ready_v6@ =~= pre_out + pre_v4
                            + pre_v6);
                    }
                },
                None => {
                    break ;
                },
            }
        }
        proof {
            assert(out@ =~= g_v4 + g_v6);
        }
        out
    }
}

/// Law: draining surfaces exactly the pending connections of both
/// listeners — every connection that was ready on either side appears in
/// the drained sequence, and nothing else does.
pub proof fn lemma_drain_surfaces_all<T>(v4: Seq<T>, v6: Seq<T>)
    ensures
        forall|c: T| #[trigger] (v4 + v6).contains(c) <==> v4.contains(c) || v6.contains(c),
{
    assert forall|c: T| #[trigger] (v4 + v6).contains(c) implies v4.contains(c) || v6.contains(
        c,
    ) by {
        let i = choose|i: int| 0 <= i < (v4 + v6).len() && (v4 + v6)[i] == c;
        if i < v4.len() {
            assert(v4[i] == c);
        } else {
            assert(v6[i - v4.len()] == c);
        }
    }
    assert forall|c: T| v4.contains(c) || v6.contains(c) implies #[trigger] (v4 + v6).contains(
        c,
    ) by {
        if v4.contains(c) {
            let i = choose|i: int| 0 <= i < v4.len() && v4[i] == c;
            assert((v4 + v6)[i] == c);
        } else {
            let i = choose|i: int| 0 <= i < v6.len() && v6[i] == c;
            assert((v4 + v6)[i + v4.len()] == c);
        }
    }
}

/// Law: in a single-stack mode no connection of the disabled family is ever
/// surfaced. A well-formed acceptor in v4-only mode holds no v6
/// connections, so all it can ever hand out is its v4 queue; likewise with
/// the families swapped.
pub proof fn lemma_single_stack_surfaces_one_family<T>(acc: DualStackAcceptor<T>)
    requires
        acc.wf(),
    ensures
        acc.mode is V4 ==> acc.ready_v4@ + acc.ready_v6@ == acc.ready_v4@,
        acc.mode is V6 ==> acc.ready_v4@ + acc.ready_v6@ == acc.ready_v6@,
{
    if acc.mode is V4 {
        assert(acc.ready_v4@ + acc.ready_v6@ =~= acc.ready_v4@);
    }
    if acc.mode is V6 {
        assert(acc.ready_v4@ + acc.ready_v6@ =~= acc.ready_v6@);
    }
}

} // verus!
