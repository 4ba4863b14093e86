//! Outside node: parameters, egress selection, and the coordinator that
//! answers every signal with exactly one fresh dial toward the inside node.
//!
//! The outside node dials the inside control/data port once for the control
//! channel, sends a heartbeat byte on it every `HEARTBEAT_INTERVAL_SECS`
//! seconds, and on every signal counter it reads dials the same port again
//! for a data connection, bridging it to the chosen egress provider.  A
//! failed control read or write is fatal; a failed data or egress dial
//! abandons only that one pairing attempt.

use vstd::prelude::*;

verus! {

/// How the outside node reaches its egress provider.
#[derive(Debug)]
pub enum Egress {
    /// Dial an externally configured HTTP proxy at this address.
    External(String),
    /// Dial the HTTP engine this process itself serves on the loopback
    /// interface, at this port.
    Builtin(u16),
}

/// Configuration of the outside node.
#[derive(Debug)]
pub struct OutsideParams {
    /// Address of the inside node's control/data port, as `ip:port`.
    pub inside_addr: String,
    /// Loopback port for the built-in HTTP engine.
    pub proxy_port: u16,
    /// Address of an external HTTP proxy; empty means none is configured
    /// and the built-in engine is used instead.
    pub proxy_out_addr: String,
}

impl OutsideParams {
    pub fn new(inside_addr: String, proxy_port: u16, proxy_out_addr: String) -> (p: OutsideParams)
        ensures
            p.inside_addr == inside_addr,
            p.proxy_port == proxy_port,
            p.proxy_out_addr == proxy_out_addr,
    {
        OutsideParams { inside_addr, proxy_port, proxy_out_addr }
    }

    /// A field-for-field duplicate, so that concurrent tasks can each own
    /// the configuration.
    pub fn copy(&self) -> (p: OutsideParams)
        ensures
            p.inside_addr == self.inside_addr,
            p.proxy_port == self.proxy_port,
            p.proxy_out_addr == self.proxy_out_addr,
    {
        OutsideParams {
            inside_addr: self.inside_addr.clone(),
            proxy_port: self.proxy_port,
            proxy_out_addr: self.proxy_out_addr.clone(),
        }
    }

    /// Whether this process must run the built-in HTTP engine: only when no
    /// external proxy address is configured.
    pub fn use_builtin_proxy(&self) -> (b: bool)
        ensures
            b == (self.proxy_out_addr@.len() == 0),
    {
        self.proxy_out_addr.as_str().is_empty()
    }

    /// The egress provider every data connection is bridged to, fixed for
    /// the process lifetime: the external proxy when one is configured,
    /// otherwise the built-in engine on the loopback interface.
    pub fn egress(&self) -> (e: Egress)
        ensures
            self.proxy_out_addr@.len() == 0 ==> e == Egress::Builtin(self.proxy_port),
            self.proxy_out_addr@.len() > 0 ==> (e matches Egress::External(a) && a
                == self.proxy_out_addr),
    {
        if self.proxy_out_addr.as_str().is_empty() {
            Egress::Builtin(self.proxy_port)
        } else {
            Egress::External(self.proxy_out_addr.clone())
        }
    }
}

/// The decimal digits of `n`, most significant first, as ASCII bytes.
pub open spec fn dec_digits(n: nat) -> Seq<u8>
    decreases n,
{
    if n < 10 {
        seq![(48 + n) as u8]
    } else {
        dec_digits(n / 10).push((48 + n % 10) as u8)
    }
}

/// The bytes of the loopback address `127.0.0.1:<port>` the outside node
/// dials to reach its own built-in HTTP engine.
pub open spec fn loopback_addr_spec(port: nat) -> Seq<u8> {
    seq![49u8, 50u8, 55u8, 46u8, 48u8, 46u8, 48u8, 46u8, 49u8, 58u8] + dec_digits(port)
}

/// Append the decimal digits of `n` to `v`.
fn push_dec(n: u16, v: &mut Vec<u8>)
    requires
        old(v)@.len() + 6 <= usize::MAX,
    ensures
        final(v)@ =~= old(v)@ + dec_digits(n as nat),
    decreases n,
{
    if n < 10 {
        v.push(48 + n as u8);
    } else {
        push_dec(n / 10, v);
        v.push(48 + (n % 10) as u8);
    }
}

/// Render `127.0.0.1:<port>` as bytes.
pub fn loopback_addr(port: u16) -> (v: Vec<u8>)
    ensures
        v@ =~= loopback_addr_spec(port as nat),
{
    let mut v: Vec<u8> = Vec::new();
    v.push(49);
    v.push(50);
    v.push(55);
    v.push(46);
    v.push(48);
    v.push(46);
    v.push(48);
    v.push(46);
    v.push(49);
    v.push(58);
    push_dec(port, &mut v);
    v
}

/// Coordinator state of the outside node.
///
/// Pairing on the inside node goes by arrival order alone, so correctness
/// of the tunnel rests on data dials reaching the inside listener in signal
/// order.  A front end that starts dials concurrently leaves that order to
/// the network; finishing each dial before reading the next signal
/// (single-flight issuance) makes the order certain.  Which of the two a
/// deployment accepts is its own choice; this state tracks the counts
/// either way.
pub struct OutsideState {
    /// A control read or write failed: the tunnel is dead and the process
    /// must stop.
    pub link_broken: bool,
    /// Signal counters read off the control channel so far.
    pub signals_received: u64,
    /// Data-connection dials started toward the inside node.
    pub dials_started: u64,
    /// Heartbeat bytes written so far.
    pub heartbeats_sent: u64,
}

impl OutsideState {
    /// Invariant of every reachable state: one dial per signal, no more and
    /// no fewer.
    pub open spec fn wf(&self) -> bool {
        self.dials_started == self.signals_received
    }

    /// The state right after the control dial succeeded.
    pub fn new() -> (st: OutsideState)
        ensures
            st.wf(),
            !st.link_broken,
            st.signals_received == 0,
            st.dials_started == 0,
            st.heartbeats_sent == 0,
    {
        OutsideState { link_broken: false, signals_received: 0, dials_started: 0, heartbeats_sent: 0 }
    }

    /// The control reader decoded one signal counter.  Exactly one fresh
    /// data dial is started for it; the counter value itself is advisory
    /// and only logged, so it does not enter the state.
    pub fn signal_received(&mut self, value: i32)
        requires
            old(self).wf(),
            !old(self).link_broken,
            old(self).signals_received < u64::MAX,
        ensures
            final(self).wf(),
            final(self).signals_received == old(self).signals_received + 1,
            final(self).dials_started == old(self).dials_started + 1,
            final(self).heartbeats_sent == old(self).heartbeats_sent,
            final(self).link_broken == old(self).link_broken,
    {
        self.signals_received = self.signals_received + 1;
        self.dials_started = self.dials_started + 1;
    }

    /// The heartbeat timer fired and one byte was written successfully.
    pub fn heartbeat_sent(&mut self)
        requires
            old(self).wf(),
            !old(self).link_broken,
            old(self).heartbeats_sent < u64::MAX,
        ensures
            final(self).wf(),
            final(self).heartbeats_sent == old(self).heartbeats_sent + 1,
            final(self).signals_received == old(self).signals_received,
            final(self).dials_started == old(self).dials_started,
            final(self).link_broken == old(self).link_broken,
    {
        self.heartbeats_sent = self.heartbeats_sent + 1;
    }

    /// A control read or write failed: fatal, the process must stop.
    /// Pairings already bridged are not affected.
    pub fn control_failed(&mut self)
        requires
            old(self).wf(),
        ensures
            final(self).wf(),
            final(self).link_broken,
            final(self).signals_received == old(self).signals_received,
            final(self).dials_started == old(self).dials_started,
            final(self).heartbeats_sent == old(self).heartbeats_sent,
    {
        self.link_broken = true;
    }
}

/// One dial per signal, in every reachable state: the outside node starts
/// exactly as many data dials as it has read signals.
pub proof fn lemma_one_dial_per_signal(st: OutsideState)
    requires
        st.wf(),
    ensures
        st.dials_started == st.signals_received,
{
}

} // verus!
