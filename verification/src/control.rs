//! Control-channel wire format and liveness rules.
//!
//! The control connection carries two message kinds: a one-byte heartbeat
//! sent outside-to-inside every `HEARTBEAT_INTERVAL_SECS` seconds, and a
//! four-byte big-endian signal counter sent inside-to-outside once per
//! accepted local client, starting at 1 and increasing by one per signal.

use vstd::prelude::*;

verus! {

/// Seconds between heartbeat bytes on the control channel.
pub const HEARTBEAT_INTERVAL_SECS: u64 = 10;

/// Value of every heartbeat byte.  The reader ignores the content; only the
/// successful receipt matters.
pub fn heartbeat_byte() -> (b: u8)
    ensures
        b == 1u8,
{
    1u8
}

/// Whether a heartbeat silence of `elapsed_ms` milliseconds proves the
/// control link dead: the silence must exceed the send interval plus a grace
/// margin for scheduling and network jitter.  A reader without a read
/// timeout never observes `elapsed_ms` at all and detects the failure only
/// when the read itself errors; this predicate is the rule such a timeout
/// would apply.
pub fn heartbeat_stale(elapsed_ms: u64, interval_ms: u64, grace_ms: u64) -> (stale: bool)
    requires
        interval_ms + grace_ms <= u64::MAX,
    ensures
        stale == (elapsed_ms > interval_ms + grace_ms),
{
    elapsed_ms > interval_ms + grace_ms
}

/// The four bytes that carry a signal value on the wire, most significant
/// first (network byte order).
pub open spec fn signal_bytes_of(n: int) -> Seq<u8> {
    seq![
        (n / 0x1000000) as u8,
        ((n / 0x10000) % 256) as u8,
        ((n / 256) % 256) as u8,
        (n % 256) as u8,
    ]
}

/// The signal value that four wire bytes denote, most significant first.
pub open spec fn signal_value_of(b: Seq<u8>) -> int {
    b[0] * 0x1000000 + b[1] * 0x10000 + b[2] * 256 + b[3]
}

/// Serialize a signal counter value for the control channel.  The counter
/// starts at 1 and only grows, so negative values never reach the wire.
pub fn encode_signal(v: i32) -> (r: Vec<u8>)
    requires
        v >= 0,
    ensures
        r@ == signal_bytes_of(v as int),
        r@.len() == 4,
{
    let n = v as u32;
    let mut r: Vec<u8> = Vec::new();
    r.push((n / 0x1000000) as u8);
    r.push(((n / 0x10000) % 256) as u8);
    r.push(((n / 256) % 256) as u8);
    r.push((n % 256) as u8);
    proof {
        assert(r@ =~= signal_bytes_of(v as int));
    }
    r
}

/// Read a signal value back from its four wire bytes.  The first byte of any
/// value a well-behaved inside node sends stays below 128, because the
/// counter never exceeds `i32::MAX`.
pub fn decode_signal(b: &Vec<u8>) -> (v: i32)
    requires
        b@.len() == 4,
        b@[0] < 128,
    ensures
        v as int == signal_value_of(b@),
        v >= 0,
{
    let n: u32 = (b[0] as u32) * 0x1000000 + (b[1] as u32) * 0x10000 + (b[2] as u32) * 256
        + (b[3] as u32);
    n as i32
}

/// Round trip: decoding an encoded signal value gives the value back, for
/// every value the counter can hold.
pub proof fn lemma_signal_round_trip(n: int)
    requires
        0 <= n <= i32::MAX,
    ensures
        signal_value_of(signal_bytes_of(n)) == n,
{
    let b = signal_bytes_of(n);
    assert((n / 0x1000000) * 0x1000000 + ((n / 0x10000) % 256) * 0x10000 + ((n / 256) % 256) * 256
        + n % 256 == n) by (nonlinear_arith)
        requires
            0 <= n <= 0x7fffffff,
    ;
    assert(b[0] == (n / 0x1000000) as u8 && b[1] == ((n / 0x10000) % 256) as u8 && b[2] == ((n
        / 256) % 256) as u8 && b[3] == (n % 256) as u8);
}

/// Monotonic counter for signal messages: the first signal carries 1, and
/// each later signal carries one more than the one before it.
pub struct SignalCounter {
    pub next: i32,
}

impl SignalCounter {
    /// A fresh counter, about to emit 1.
    pub fn new() -> (c: SignalCounter)
        ensures
            c.next == 1i32,
    {
        SignalCounter { next: 1i32 }
    }

    /// Take the value for the next signal and advance.
    pub fn emit(&mut self) -> (v: i32)
        requires
            old(self).next < i32::MAX,
        ensures
            v == old(self).next,
            final(self).next == old(self).next + 1,
    {
        let v = self.next;
        self.next = self.next + 1;
        v
    }
}

} // verus!
