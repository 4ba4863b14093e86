//! Inside node: parameters and the coordinator that pairs local clients
//! with outside-initiated data connections.
//!
//! The inside node owns two listeners.  On the control/data port, the first
//! accepted connection becomes the control channel and every later one is a
//! data connection that joins a bounded FIFO queue.  On the client port,
//! each accepted local client first has one signal queued for the control
//! writer, then claims the data connection that has waited longest.  The
//! state machine below records exactly those steps; the front end drives it
//! once per socket event, so its invariants hold of the real connections.

use vstd::prelude::*;

use crate::queue::PendingQueue;
use crate::queue::QUEUE_CAPACITY;

verus! {

/// Ports the inside node listens on.
#[derive(Debug, Copy, Clone)]
pub struct InsideParams {
    /// Client-facing port: local proxy traffic enters here.
    pub proxy_port: u16,
    /// Control/data port: the outside node dials this port, first for the
    /// control channel and then once per data connection.
    pub inside_outside_port: u16,
}

impl InsideParams {
    pub fn new(inside_outside_port: u16, proxy_port: u16) -> (p: InsideParams)
        ensures
            p.inside_outside_port == inside_outside_port,
            p.proxy_port == proxy_port,
    {
        InsideParams { inside_outside_port, proxy_port }
    }
}

/// The pairing record a coordinator with `paired` completed pairings over
/// the data connections `data_order` must show: the k-th pairing serves the
/// k-th accepted client with the k-th arrived data connection.
pub open spec fn fifo_pair_log(paired: nat, data_order: Seq<u64>) -> Seq<(u64, u64)> {
    Seq::new(paired, |k: int| (k as u64, data_order[k]))
}

/// Coordinator state of the inside node.
///
/// Connection identities are `u64` tokens handed in by the front end; the
/// ghost fields record the order in which data connections arrived and which
/// client each pairing served, so FIFO pairing is a stated invariant rather
/// than a hope.
pub struct InsideState {
    /// A control read or write failed.  The tunnel is unrecoverable; the
    /// front end must log and shut the node down.  Relay pairs already
    /// started are not touched — they run until their own sockets fail.
    pub link_broken: bool,
    /// Local clients accepted so far.
    pub clients_accepted: u64,
    /// Signals queued for the control writer and not yet written.
    pub queued_signals: u64,
    /// Signals the control writer has put on the wire; the counter value of
    /// the latest signal equals this number.
    pub signals_sent: u64,
    /// Data connections waiting to be claimed, in arrival order.
    pub pending_data: PendingQueue,
    /// Pairings completed so far.
    pub paired: u64,
    /// Every data connection that was ever queued, in arrival order.
    pub data_order: Ghost<Seq<u64>>,
    /// One entry per completed pairing, in order: the index of the client
    /// served (clients are numbered in acceptance order, from 0) and the
    /// data connection it received.
    pub pair_log: Ghost<Seq<(u64, u64)>>,
}

impl InsideState {
    /// Invariant of every reachable state.
    pub open spec fn wf(&self) -> bool {
        &&& self.pending_data.wf()
        &&& self.queued_signals <= QUEUE_CAPACITY
        &&& self.clients_accepted == self.queued_signals + self.signals_sent
        &&& self.paired <= self.clients_accepted
        &&& self.paired + self.pending_data@.len() == self.data_order@.len()
        &&& self.pending_data@ =~= self.data_order@.skip(self.paired as int)
        &&& self.pair_log@ =~= fifo_pair_log(self.paired as nat, self.data_order@)
    }

    /// The state right after startup: control link healthy, nothing counted.
    pub fn new() -> (st: InsideState)
        ensures
            st.wf(),
            !st.link_broken,
            st.clients_accepted == 0,
            st.queued_signals == 0,
            st.signals_sent == 0,
            st.paired == 0,
            st.pending_data@ =~= Seq::<u64>::empty(),
            st.data_order@ =~= Seq::<u64>::empty(),
            st.pair_log@ =~= Seq::<(u64, u64)>::empty(),
    {
        InsideState {
            link_broken: false,
            clients_accepted: 0,
            queued_signals: 0,
            signals_sent: 0,
            pending_data: PendingQueue::new(),
            paired: 0,
            data_order: Ghost(Seq::empty()),
            pair_log: Ghost(Seq::empty()),
        }
    }

    /// A local client connected.  Exactly one signal is queued for it,
    /// strictly before the client waits for its pairing.  A full signal
    /// queue refuses the client: the accept loop must block until the
    /// control writer drains a signal — bounded backpressure instead of
    /// unbounded growth.
    pub fn accept_client(&mut self) -> (queued: bool)
        requires
            old(self).wf(),
            !old(self).link_broken,
            old(self).clients_accepted < u64::MAX,
        ensures
            final(self).wf(),
            queued == (old(self).queued_signals < QUEUE_CAPACITY),
            queued ==> final(self).clients_accepted == old(self).clients_accepted + 1
                && final(self).queued_signals == old(self).queued_signals + 1,
            !queued ==> final(self).clients_accepted == old(self).clients_accepted && final(self).queued_signals == old(self).queued_signals,
            final(self).link_broken == old(self).link_broken,
            final(self).signals_sent == old(self).signals_sent,
            final(self).paired == old(self).paired,
            final(self).pending_data@ =~= old(self).pending_data@,
            final(self).data_order == old(self).data_order,
            final(self).pair_log == old(self).pair_log,
    {
        if self.queued_signals < QUEUE_CAPACITY as u64 {
            self.clients_accepted = self.clients_accepted + 1;
            self.queued_signals = self.queued_signals + 1;
            true
        } else {
            false
        }
    }

    /// The control writer drains one queued signal and serializes it.  The
    /// value returned is the counter value to put on the wire: 1 for the
    /// first signal, increasing by one per signal.
    pub fn take_signal_for_write(&mut self) -> (v: Option<i32>)
        requires
            old(self).wf(),
            !old(self).link_broken,
            old(self).signals_sent + 1 <= i32::MAX,
        ensures
            final(self).wf(),
            (v is Some) == (old(self).queued_signals > 0),
            old(self).queued_signals > 0 ==> v == Some((old(self).signals_sent + 1) as i32)
                && final(self).queued_signals == old(self).queued_signals - 1 && final(self).signals_sent == old(self).signals_sent + 1,
            old(self).queued_signals == 0 ==> final(self).queued_signals == old(self).queued_signals && final(self).signals_sent == old(self).signals_sent,
            final(self).link_broken == old(self).link_broken,
            final(self).clients_accepted == old(self).clients_accepted,
            final(self).paired == old(self).paired,
            final(self).pending_data@ =~= old(self).pending_data@,
            final(self).data_order == old(self).data_order,
            final(self).pair_log == old(self).pair_log,
    {
        if self.queued_signals > 0 {
            self.queued_signals = self.queued_signals - 1;
            self.signals_sent = self.signals_sent + 1;
            Some(self.signals_sent as i32)
        } else {
            None
        }
    }

    /// A connection after the first arrived on the control/data port: a data
    /// connection.  It joins the pending queue in arrival order; a full
    /// queue refuses it, and the enqueueing task must block until a pairing
    /// makes room.
    pub fn data_conn_arrived(&mut self, id: u64) -> (accepted: bool)
        requires
            old(self).wf(),
            !old(self).link_broken,
        ensures
            final(self).wf(),
            accepted == (old(self).pending_data@.len() < QUEUE_CAPACITY),
            accepted ==> final(self).data_order@ =~= old(self).data_order@.push(id) && final(self).pending_data@ =~= old(self).pending_data@.push(id),
            !accepted ==> final(self).data_order == old(self).data_order && final(self).pending_data@ =~= old(self).pending_data@,
            final(self).link_broken == old(self).link_broken,
            final(self).clients_accepted == old(self).clients_accepted,
            final(self).queued_signals == old(self).queued_signals,
            final(self).signals_sent == old(self).signals_sent,
            final(self).paired == old(self).paired,
            final(self).pair_log == old(self).pair_log,
    {
        let accepted = self.pending_data.push_back(id);
        if accepted {
            proof {
                self.data_order@ = self.data_order@.push(id);
                assert(self.pending_data@ =~= self.data_order@.skip(self.paired as int));
                assert(self.pair_log@ =~= fifo_pair_log(self.paired as nat, self.data_order@));
            }
        }
        accepted
    }

    /// The waiting client claims a data connection.  The connection handed
    /// out is exactly the one that has waited longest; with the invariant
    /// this makes every pairing FIFO.  An empty queue returns nothing and
    /// the claim must be retried once a data connection arrives.
    pub fn pair_next(&mut self) -> (d: Option<u64>)
        requires
            old(self).wf(),
            !old(self).link_broken,
            old(self).paired < old(self).clients_accepted,
        ensures
            final(self).wf(),
            (d is Some) == (old(self).pending_data@.len() > 0),
            old(self).pending_data@.len() > 0 ==> d == Some(old(self).data_order@[old(self).paired as int]) && final(self).paired == old(self).paired + 1 && final(self).pair_log@ =~= old(self).pair_log@.push(
                (old(self).paired, old(self).data_order@[old(self).paired as int]),
            ) && final(self).pending_data@ =~= old(self).pending_data@.skip(1),
            old(self).pending_data@.len() == 0 ==> final(self).paired == old(self).paired
                && final(self).pair_log == old(self).pair_log && final(self).pending_data@ =~= old(self).pending_data@,
            final(self).link_broken == old(self).link_broken,
            final(self).clients_accepted == old(self).clients_accepted,
            final(self).queued_signals == old(self).queued_signals,
            final(self).signals_sent == old(self).signals_sent,
            final(self).data_order == old(self).data_order,
    {
        let d = self.pending_data.pop_front();
        match d {
            Some(id) => {
                proof {
                    assert(old(self).pending_data@[0] == old(self).data_order@[old(self).paired as int]);
                }
                self.paired = self.paired + 1;
                proof {
                    self.pair_log@ = self.pair_log@.push(((self.paired - 1) as u64, id));
                    assert(self.pending_data@ =~= self.data_order@.skip(self.paired as int));
                    assert(self.pair_log@ =~= fifo_pair_log(self.paired as nat, self.data_order@));
                }
                Some(id)
            },
            None => None,
        }
    }

    /// A read or write on the control channel failed.  The coordination
    /// path is gone and cannot be rebuilt: the node must report the broken
    /// link and shut down.  Everything already paired is left untouched —
    /// running relays continue until their own I/O fails.
    pub fn control_failed(&mut self)
        requires
            old(self).wf(),
        ensures
            final(self).wf(),
            final(self).link_broken,
            final(self).clients_accepted == old(self).clients_accepted,
            final(self).queued_signals == old(self).queued_signals,
            final(self).signals_sent == old(self).signals_sent,
            final(self).paired == old(self).paired,
            final(self).pending_data@ =~= old(self).pending_data@,
            final(self).data_order == old(self).data_order,
            final(self).pair_log == old(self).pair_log,
    {
        self.link_broken = true;
    }
}

/// Signal accounting and FIFO pairing, for every reachable coordinator
/// state: each of the N accepted clients has exactly one signal, queued or
/// already on the wire, and the pairings made so far match the k-th
/// accepted client with the k-th arrived data connection, in order.
pub proof fn lemma_signal_count_and_fifo_pairing(st: InsideState)
    requires
        st.wf(),
    ensures
        st.clients_accepted == st.queued_signals + st.signals_sent,
        st.pair_log@.len() == st.paired,
        forall|k: int|
            0 <= k < st.pair_log@.len() ==> (#[trigger] st.pair_log@[k]) == (
            k as u64,
            st.data_order@[k],
            ),
{
}

/// The diagnostic an operator sees when the control link dies.
pub fn link_broken_message() -> (m: String)
    ensures
        m@ =~= "control link broken; restart both nodes"@,
{
    "control link broken; restart both nodes".to_owned()
}

} // verus!
