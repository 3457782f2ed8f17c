//! The broadcast scan engine: the decision core of the flood-then-collect
//! protocol.
//!
//! The protocol has two phases on one link-layer channel.  The send phase
//! transmits one request frame per distinct target, strictly in order,
//! with a small fixed pause between sends.  The collect phase polls the
//! channel until a wall-clock deadline, feeding each captured frame to a
//! [`Collector`]; a frame is recorded only when it decodes as an ARP
//! reply, its sender is one of the requested targets, and that sender has
//! no entry yet (the first reply wins).  The loop stops early once every
//! target has an entry.
//!
//! The channel, the clock and the pauses live outside this crate.  The
//! caller opens the channel, reads frames and timestamps, and drives the
//! state held here; every decision — what to send, what to record, when
//! to stop — is made by the verified code in this module.

use vstd::prelude::*;

use crate::addr::Ipv4Addr;
use crate::addr::MacAddr;
use crate::codec::ArpScanResult;
use crate::codec::build_arp_request;
use crate::codec::is_request_frame;
use crate::codec::parse_arp_reply;
use crate::codec::reply_frame_ok;
use crate::codec::reply_result;

verus! {

/// Protocol timing, externalized; the defaults match the protocol as
/// deployed: a 2 s collection window, 200 µs between sends, 50 ms per
/// blocking read attempt.
pub struct ScanConfig {
    /// Length of the collection window, in milliseconds.
    pub timeout_ms: u64,
    /// Pause between two request transmissions, in microseconds.
    pub send_delay_us: u64,
    /// Upper bound on one blocking read attempt, in milliseconds.
    pub read_poll_ms: u64,
}

impl Default for ScanConfig {
    fn default() -> (c: Self)
        ensures
            c.timeout_ms == 2000,
            c.send_delay_us == 200,
            c.read_poll_ms == 50,
    {
        ScanConfig { timeout_ms: 2000, send_delay_us: 200, read_poll_ms: 50 }
    }
}

/// The addresses of the entries of a result list, in order.
pub open spec fn ips_of(s: Seq<ArpScanResult>) -> Seq<Ipv4Addr> {
    s.map_values(|r: ArpScanResult| r.ip)
}

/// Some entry of `s` records the address `ip`.
pub open spec fn has_ip(s: Seq<ArpScanResult>, ip: Ipv4Addr) -> bool {
    exists|i: int| 0 <= i < s.len() && s[i].ip == ip
}

/// No two entries of `s` record the same address.
pub open spec fn distinct_ips(s: Seq<ArpScanResult>) -> bool {
    forall|i: int, j: int| 0 <= i < j < s.len() ==> s[i].ip != s[j].ip
}

/// Whether `v` holds the address `ip`.
fn contains_ip(v: &Vec<Ipv4Addr>, ip: Ipv4Addr) -> (r: bool)
    ensures
        r == v@.contains(ip),
{
    let mut k: usize = 0;
    while k < v.len()
        invariant
            0 <= k <= v@.len(),
            forall|j: int| 0 <= j < k ==> v@[j] != ip,
        decreases v@.len() - k,
    {
        if v[k] == ip {
            return true;
        }
        k = k + 1;
    }
    false
}

/// Whether some entry of `v` already records the address `ip`.
pub(crate) fn has_entry_for(v: &Vec<ArpScanResult>, ip: Ipv4Addr) -> (r: bool)
    ensures
        r == has_ip(v@, ip),
{
    let mut k: usize = 0;
    while k < v.len()
        invariant
            0 <= k <= v@.len(),
            forall|j: int| 0 <= j < k ==> v@[j].ip != ip,
        decreases v@.len() - k,
    {
        if v[k].ip == ip {
            return true;
        }
        k = k + 1;
    }
    false
}

/// Keep the first occurrence of each address, in order.
pub(crate) fn dedup_targets(targets: &Vec<Ipv4Addr>) -> (r: Vec<Ipv4Addr>)
    ensures
        r@.no_duplicates(),
        forall|x: Ipv4Addr| r@.contains(x) <==> targets@.contains(x),
{
    let mut r: Vec<Ipv4Addr> = Vec::new();
    let mut k: usize = 0;
    while k < targets.len()
        invariant
            0 <= k <= targets@.len(),
            r@.no_duplicates(),
            forall|x: Ipv4Addr| r@.contains(x) <==> targets@.subrange(0, k as int).contains(x),
        decreases targets@.len() - k,
    {
        let t = targets[k];
        let ghost pre = r@;
        if !contains_ip(&r, t) {
            r.push(t);
        }
        proof {
            broadcast use vstd::seq_lib::lemma_seq_contains_after_push;

            assert(targets@.subrange(0, k as int + 1) =~= targets@.subrange(0, k as int).push(
                targets@[k as int],
            ));
            if pre.contains(t) {
                assert(forall|x: Ipv4Addr| r@.contains(x) <==> pre.contains(x));
            } else {
                assert(r@ == pre.push(t));
            }
        }
        k = k + 1;
    }
    proof {
        assert(targets@.subrange(0, targets@.len() as int) =~= targets@);
    }
    r
}

/// Pigeonhole step behind the early exit: a duplicate-free list drawn
/// from a duplicate-free pool of the same length covers the whole pool.
pub proof fn lemma_distinct_cover(ips: Seq<Ipv4Addr>, pool: Seq<Ipv4Addr>)
    requires
        ips.no_duplicates(),
        pool.no_duplicates(),
        forall|i: int| 0 <= i < ips.len() ==> pool.contains(ips[i]),
        ips.len() == pool.len(),
    ensures
        forall|t: Ipv4Addr| pool.contains(t) ==> ips.contains(t),
{
    broadcast use vstd::seq_lib::seq_to_set_is_finite;

    let a = ips.to_set();
    let b = pool.to_set();
    ips.unique_seq_to_set();
    pool.unique_seq_to_set();
    assert(a.subset_of(b)) by {
        assert forall|x: Ipv4Addr| a.contains(x) implies b.contains(x) by {
            let i = choose|i: int| 0 <= i < ips.len() && ips[i] == x;
            assert(pool.contains(ips[i]));
        }
    }
    vstd::set_lib::lemma_subset_equality(a, b);
    assert forall|t: Ipv4Addr| pool.contains(t) implies ips.contains(t) by {
        assert(b.contains(t));
        assert(a.contains(t));
    }
}

/// The collect phase's accumulator: the distinct requested targets and
/// the replies recorded so far.
pub struct Collector {
    targets: Vec<Ipv4Addr>,
    found: Vec<ArpScanResult>,
}

impl Collector {
    /// The distinct requested targets, in first-seen order.
    pub closed spec fn targets(self) -> Seq<Ipv4Addr> {
        self.targets@
    }

    /// The entries recorded so far, in arrival order.
    pub closed spec fn found(self) -> Seq<ArpScanResult> {
        self.found@
    }

    /// The accumulator's invariant: targets are distinct, at most one
    /// entry per address, and every entry's address is a target.
    pub open spec fn wf(self) -> bool {
        &&& self.targets().no_duplicates()
        &&& distinct_ips(self.found())
        &&& forall|i: int|
            0 <= i < self.found().len() ==> self.targets().contains(self.found()[i].ip)
    }

    /// Every requested target has an entry (in length terms; see
    /// [`lemma_early_exit`](crate::broadcast::lemma_early_exit)).
    pub open spec fn complete(self) -> bool {
        self.found().len() == self.targets().len()
    }

    /// A frame the collector records: a decoded reply from a requested
    /// target that has no entry yet.
    pub open spec fn accepts(self, f: Seq<u8>) -> bool {
        &&& reply_frame_ok(f)
        &&& self.targets().contains(reply_result(f).ip)
        &&& !has_ip(self.found(), reply_result(f).ip)
    }

    /// Start a collection over the given targets; duplicates in the
    /// request collapse to one slot each.
    pub fn new(targets: Vec<Ipv4Addr>) -> (c: Self)
        ensures
            c.wf(),
            c.found() == Seq::<ArpScanResult>::empty(),
            forall|x: Ipv4Addr| c.targets().contains(x) <==> targets@.contains(x),
    {
        Collector { targets: dedup_targets(&targets), found: Vec::new() }
    }

    /// How many distinct targets the collection waits for.
    pub fn target_count(&self) -> (n: usize)
        ensures
            n == self.targets().len(),
    {
        self.targets.len()
    }

    /// Whether every requested target has an entry.
    pub fn is_complete(&self) -> (b: bool)
        ensures
            b == self.complete(),
    {
        self.found.len() == self.targets.len()
    }

    /// Feed one captured frame.  A reply from a requested target is
    /// recorded unless that target already has an entry — the first
    /// reply wins; every other frame leaves the state unchanged and is
    /// never an error.  Returns the early-exit signal: every target of a
    /// nonempty target set has an entry.
    pub fn on_frame(&mut self, frame: &[u8]) -> (done: bool)
        requires
            old(self).wf(),
        ensures
            final(self).wf(),
            final(self).targets() == old(self).targets(),
            old(self).accepts(frame@) ==> final(self).found() == old(self).found().push(
                reply_result(frame@),
            ),
            !old(self).accepts(frame@) ==> final(self).found() == old(self).found(),
            done == (final(self).targets().len() > 0 && final(self).complete()),
    {
        match parse_arp_reply(frame) {
            Some(entry) => {
                if contains_ip(&self.targets, entry.ip) && !has_entry_for(&self.found, entry.ip) {
                    self.found.push(entry);
                }
            },
            None => {},
        }
        self.targets.len() > 0 && self.found.len() == self.targets.len()
    }

    /// Hand the recorded entries out: a subset of the requested targets,
    /// at most one entry per address.
    pub fn results(self) -> (r: Vec<ArpScanResult>)
        requires
            self.wf(),
        ensures
            r@ == self.found(),
            distinct_ips(r@),
            forall|i: int| 0 <= i < r@.len() ==> self.targets().contains(r@[i].ip),
    {
        self.found
    }
}

/// One broadcast scan in progress: the collector plus the wall-clock
/// deadline of its collection window.
pub struct BroadcastScan {
    collector: Collector,
    deadline_ms: u64,
}

impl BroadcastScan {
    /// The collection state.
    pub closed spec fn collector(self) -> Collector {
        self.collector
    }

    /// The wall-clock instant, in the caller's milliseconds, at which
    /// collection stops regardless of what has been recorded.
    pub closed spec fn deadline(self) -> int {
        self.deadline_ms as int
    }

    pub open spec fn wf(self) -> bool {
        self.collector().wf()
    }

    /// The collect loop stops at `now_ms`: the deadline has passed, or
    /// every target of a nonempty target set has an entry.
    pub open spec fn done(self, now_ms: u64) -> bool {
        now_ms >= self.deadline() || (self.collector().targets().len() > 0
            && self.collector().complete())
    }

    /// Open a scan at time `now_ms` with the given collection window.
    pub fn new(targets: Vec<Ipv4Addr>, now_ms: u64, timeout_ms: u64) -> (s: Self)
        requires
            now_ms + timeout_ms <= u64::MAX,
        ensures
            s.wf(),
            s.deadline() == now_ms + timeout_ms,
            s.collector().found() == Seq::<ArpScanResult>::empty(),
            forall|x: Ipv4Addr| s.collector().targets().contains(x) <==> targets@.contains(x),
    {
        BroadcastScan { collector: Collector::new(targets), deadline_ms: now_ms + timeout_ms }
    }

    /// The send phase's frames: one request per distinct target, in
    /// order, each exactly 42 bytes.
    pub fn request_frames(&self, source_mac: MacAddr, source_ip: Ipv4Addr) -> (frames: Vec<
        Vec<u8>,
    >)
        ensures
            frames@.len() == self.collector().targets().len(),
            forall|i: int|
                0 <= i < frames@.len() ==> is_request_frame(
                    frames@[i]@,
                    source_mac,
                    source_ip,
                    self.collector().targets()[i],
                ),
    {
        let mut frames: Vec<Vec<u8>> = Vec::new();
        let mut k: usize = 0;
        while k < self.collector.targets.len()
            invariant
                0 <= k <= self.collector.targets@.len(),
                frames@.len() == k,
                forall|i: int|
                    0 <= i < k ==> is_request_frame(
                        frames@[i]@,
                        source_mac,
                        source_ip,
                        self.collector.targets@[i],
                    ),
            decreases self.collector.targets@.len() - k,
        {
            frames.push(build_arp_request(source_mac, source_ip, self.collector.targets[k]));
            k = k + 1;
        }
        frames
    }

    /// Feed one captured frame; see [`Collector::on_frame`].
    pub fn on_frame(&mut self, frame: &[u8]) -> (done: bool)
        requires
            old(self).wf(),
        ensures
            final(self).wf(),
            final(self).deadline() == old(self).deadline(),
            final(self).collector().targets() == old(self).collector().targets(),
            old(self).collector().accepts(frame@) ==> final(self).collector().found() == old(
                self,
            ).collector().found().push(reply_result(frame@)),
            !old(self).collector().accepts(frame@) ==> final(self).collector().found() == old(
                self,
            ).collector().found(),
            done == (final(self).collector().targets().len() > 0
                && final(self).collector().complete()),
    {
        self.collector.on_frame(frame)
    }

    /// Whether the collect loop keeps polling at time `now_ms`.
    pub fn should_continue(&self, now_ms: u64) -> (keep: bool)
        ensures
            keep == !self.done(now_ms),
    {
        now_ms < self.deadline_ms && !(self.collector.targets.len() > 0
            && self.collector.found.len() == self.collector.targets.len())
    }

    /// Close the scan and hand the recorded entries out.
    pub fn results(self) -> (r: Vec<ArpScanResult>)
        requires
            self.wf(),
        ensures
            r@ == self.collector().found(),
            distinct_ips(r@),
            forall|i: int| 0 <= i < r@.len() ==> self.collector().targets().contains(r@[i].ip),
    {
        self.collector.results()
    }
}

/// Early exit: once every target of a nonempty target set has an entry,
/// the loop stops at the very next poll — before the deadline if replies
/// came early — and the entries cover every requested target exactly.
pub proof fn lemma_early_exit(s: BroadcastScan, now_ms: u64)
    requires
        s.wf(),
        s.collector().targets().len() > 0,
        s.collector().complete(),
    ensures
        s.done(now_ms),
        forall|t: Ipv4Addr|
            s.collector().targets().contains(t) ==> has_ip(s.collector().found(), t),
{
    let found = s.collector().found();
    let ips = ips_of(found);
    let pool = s.collector().targets();
    assert(ips.no_duplicates()) by {
        assert(forall|i: int| 0 <= i < found.len() ==> ips[i] == found[i].ip);
    }
    assert(forall|i: int| 0 <= i < ips.len() ==> pool.contains(ips[i])) by {
        assert(forall|i: int| 0 <= i < found.len() ==> ips[i] == found[i].ip);
    }
    lemma_distinct_cover(ips, pool);
    assert forall|t: Ipv4Addr| pool.contains(t) implies has_ip(found, t) by {
        assert(ips.contains(t));
        let i = choose|i: int| 0 <= i < ips.len() && ips[i] == t;
        assert(found[i].ip == t);
    }
}

/// No reply, no early exit: while nothing has been recorded of a
/// nonempty target set, the loop keeps polling strictly until the
/// deadline, and stops there with an empty result.
pub proof fn lemma_no_reply_runs_to_deadline(s: BroadcastScan, now_ms: u64)
    requires
        s.wf(),
        s.collector().targets().len() > 0,
        s.collector().found().len() == 0,
    ensures
        now_ms < s.deadline() ==> !s.done(now_ms),
        now_ms >= s.deadline() ==> s.done(now_ms),
{
}

} // verus!
