//! The native resolution engine's decision core.
//!
//! Where the platform offers an OS-native address-resolution call, the
//! scan issues one independent call per target — each with the OS's own
//! timeout and retry behaviour — fanned out concurrently under a fixed
//! cap on simultaneously outstanding calls.  A call that errors or
//! resolves nothing simply leaves its target out of the result; it is
//! never a scan-level error.
//!
//! The calls themselves happen outside this crate.  The caller asks
//! [`NativeScan::start_next`] which target to resolve next — the answer
//! respects the cap — performs the call, and reports what came back
//! through [`NativeScan::on_result`]; the state here is verified for
//! every possible outcome of every call.

use vstd::prelude::*;

use crate::addr::Ipv4Addr;
use crate::addr::MacAddr;
use crate::broadcast::distinct_ips;
use crate::broadcast::has_ip;
use crate::codec::ArpScanResult;

verus! {

/// Default cap on simultaneously outstanding resolution calls: each call
/// is cheap, but an unbounded fan-out would exhaust workers on large
/// target lists.
pub const NATIVE_CONCURRENCY: usize = 50;

/// Whether `v` holds the address `ip` (shared helper, same shape as the
/// collector's membership test).
fn position_of(v: &Vec<Ipv4Addr>, ip: Ipv4Addr) -> (r: Option<usize>)
    ensures
        r matches Some(i) ==> 0 <= i < v@.len() && v@[i as int] == ip,
        r is None ==> !v@.contains(ip),
{
    let mut k: usize = 0;
    while k < v.len()
        invariant
            0 <= k <= v@.len(),
            forall|j: int| 0 <= j < k ==> v@[j] != ip,
        decreases v@.len() - k,
    {
        if v[k] == ip {
            return Some(k);
        }
        k = k + 1;
    }
    None
}

/// One native scan in progress: targets not yet issued, calls currently
/// outstanding, and the entries recorded so far.
pub struct NativeScan {
    targets: Vec<Ipv4Addr>,
    pending: Vec<Ipv4Addr>,
    in_flight: Vec<Ipv4Addr>,
    found: Vec<ArpScanResult>,
    limit: usize,
}

impl NativeScan {
    /// The distinct requested targets.
    pub closed spec fn targets(self) -> Seq<Ipv4Addr> {
        self.targets@
    }

    /// Targets whose call has not been issued yet, in order.
    pub closed spec fn pending(self) -> Seq<Ipv4Addr> {
        self.pending@
    }

    /// Targets whose call is outstanding right now.
    pub closed spec fn in_flight(self) -> Seq<Ipv4Addr> {
        self.in_flight@
    }

    /// The entries recorded so far, in completion order.
    pub closed spec fn found(self) -> Seq<ArpScanResult> {
        self.found@
    }

    /// The configured cap on outstanding calls.
    pub closed spec fn limit(self) -> int {
        self.limit as int
    }

    /// The engine's invariant.  In particular: never more outstanding
    /// calls than the cap, and at most one entry per target.
    pub open spec fn wf(self) -> bool {
        &&& self.limit() >= 1
        &&& self.in_flight().len() <= self.limit()
        &&& self.targets().no_duplicates()
        &&& self.pending().no_duplicates()
        &&& self.in_flight().no_duplicates()
        &&& self.pending().disjoint(self.in_flight())
        &&& forall|i: int|
            0 <= i < self.pending().len() ==> self.targets().contains(self.pending()[i])
        &&& forall|i: int|
            0 <= i < self.in_flight().len() ==> self.targets().contains(self.in_flight()[i])
        &&& distinct_ips(self.found())
        &&& forall|i: int|
            0 <= i < self.found().len() ==> self.targets().contains(self.found()[i].ip)
    }

    /// All work issued and answered: nothing pending, nothing outstanding.
    pub open spec fn finished(self) -> bool {
        self.pending().len() == 0 && self.in_flight().len() == 0
    }

    /// Start a scan over the given targets with the given cap on
    /// outstanding calls; duplicates in the request collapse to one call.
    pub fn new(targets: Vec<Ipv4Addr>, limit: usize) -> (s: Self)
        requires
            limit >= 1,
        ensures
            s.wf(),
            s.limit() == limit,
            s.found() == Seq::<ArpScanResult>::empty(),
            s.in_flight() == Seq::<Ipv4Addr>::empty(),
            s.pending() == s.targets(),
            forall|x: Ipv4Addr| s.targets().contains(x) <==> targets@.contains(x),
    {
        let t = crate::broadcast::dedup_targets(&targets);
        let mut p: Vec<Ipv4Addr> = Vec::new();
        let mut k: usize = 0;
        while k < t.len()
            invariant
                0 <= k <= t@.len(),
                p@ == t@.subrange(0, k as int),
            decreases t@.len() - k,
        {
            p.push(t[k]);
            proof {
                assert(p@ =~= t@.subrange(0, k as int + 1));
            }
            k = k + 1;
        }
        proof {
            assert(p@ =~= t@);
        }
        NativeScan { targets: t, pending: p, in_flight: Vec::new(), found: Vec::new(), limit }
    }

    /// Hand out the next call to issue, if any may start: the next
    /// pending target, provided the cap leaves room.  Moves that target
    /// from pending to outstanding.
    pub fn start_next(&mut self) -> (r: Option<Ipv4Addr>)
        requires
            old(self).wf(),
        ensures
            final(self).wf(),
            final(self).targets() == old(self).targets(),
            final(self).limit() == old(self).limit(),
            final(self).found() == old(self).found(),
            r is Some <==> (old(self).pending().len() > 0 && old(self).in_flight().len() < old(
                self,
            ).limit()),
            r matches Some(ip) ==> ip == old(self).pending()[0] && final(self).pending() == old(
                self,
            ).pending().remove(0) && final(self).in_flight() == old(self).in_flight().push(ip),
            r is None ==> final(self).pending() == old(self).pending() && final(self).in_flight()
                == old(self).in_flight(),
    {
        if self.pending.len() == 0 || self.in_flight.len() >= self.limit {
            return None;
        }
        let ip = self.pending.remove(0);
        self.in_flight.push(ip);
        proof {
            let pre_p = old(self).pending();
            let p = self.pending@;
            assert forall|i: int| 0 <= i < p.len() implies self.targets@.contains(p[i]) by {
                assert(p[i] == pre_p[i + 1]);
            }
            assert(p.no_duplicates()) by {
                assert(forall|i: int| 0 <= i < p.len() ==> p[i] == pre_p[i + 1]);
            }
            assert(p.disjoint(self.in_flight@)) by {
                assert(forall|i: int| 0 <= i < p.len() ==> p[i] == pre_p[i + 1]);
            }
            assert(self.in_flight@.no_duplicates()) by {
                assert(!old(self).in_flight().contains(ip)) by {
                    assert(pre_p[0] == ip);
                }
            }
        }
        Some(ip)
    }

    /// Report the outcome of one call.  The target's call is no longer
    /// outstanding; a resolution from a target without an entry is
    /// recorded, and an error, a non-answer or an unknown target changes
    /// nothing — never a scan-level error.
    pub fn on_result(&mut self, ip: Ipv4Addr, mac: Option<MacAddr>)
        requires
            old(self).wf(),
        ensures
            final(self).wf(),
            final(self).targets() == old(self).targets(),
            final(self).limit() == old(self).limit(),
            final(self).pending() == old(self).pending(),
            old(self).in_flight().contains(ip) ==> final(self).in_flight().len() == old(
                self,
            ).in_flight().len() - 1,
            !old(self).in_flight().contains(ip) ==> final(self).in_flight() == old(
                self,
            ).in_flight(),
            forall|x: Ipv4Addr|
                final(self).in_flight().contains(x) <==> (old(self).in_flight().contains(x) && !(
                old(self).in_flight().contains(ip) && x == ip)),
            (old(self).in_flight().contains(ip) && mac is Some && !has_ip(old(self).found(), ip))
                ==> final(self).found() == old(self).found().push(
                ArpScanResult { ip, mac: mac->Some_0 },
            ),
            !(old(self).in_flight().contains(ip) && mac is Some && !has_ip(old(self).found(), ip))
                ==> final(self).found() == old(self).found(),
    {
        let idx = match position_of(&self.in_flight, ip) {
            Some(idx) => idx,
            None => {
                return ;
            },
        };
        let ghost pre = self.in_flight@;
        self.in_flight.remove(idx);
        proof {
            let post = self.in_flight@;
            assert(post == pre.subrange(0, idx as int) + pre.subrange(
                idx as int + 1,
                pre.len() as int,
            ));
            assert forall|x: Ipv4Addr| post.contains(x) implies (pre.contains(x) && x != ip) by {
                let i = choose|i: int| 0 <= i < post.len() && post[i] == x;
                if i < idx {
                    assert(pre[i] == x);
                    assert(pre[i] != pre[idx as int]);
                } else {
                    assert(pre[i + 1] == x);
                    assert(pre[i + 1] != pre[idx as int]);
                }
            }
            assert forall|x: Ipv4Addr| pre.contains(x) && x != ip implies post.contains(x) by {
                let i = choose|i: int| 0 <= i < pre.len() && pre[i] == x;
                if i < idx {
                    assert(post[i] == x);
                } else {
                    assert(post[i - 1] == x);
                }
            }
            assert(post.no_duplicates()) by {
                assert forall|i: int, j: int|
                    0 <= i < post.len() && 0 <= j < post.len() && i != j implies post[i]
                    != post[j] by {
                    let pi: int = if i < idx { i } else { i + 1 };
                    let pj: int = if j < idx { j } else { j + 1 };
                    assert(post[i] == pre[pi] && post[j] == pre[pj]);
                }
            }
            assert forall|i: int| 0 <= i < post.len() implies self.targets@.contains(
                post[i],
            ) by {
                let pi: int = if i < idx { i } else { i + 1 };
                assert(post[i] == pre[pi]);
            }
            assert(self.pending@.disjoint(post)) by {
                assert forall|i: int, j: int|
                    0 <= i < self.pending@.len() && 0 <= j < post.len() implies self.pending@[i]
                    != post[j] by {
                    let pj: int = if j < idx { j } else { j + 1 };
                    assert(post[j] == pre[pj]);
                }
            }
        }
        let m = match mac {
            Some(m) => m,
            None => {
                return ;
            },
        };
        if !crate::broadcast::has_entry_for(&self.found, ip) {
            self.found.push(ArpScanResult { ip, mac: m });
        }
    }

    /// How many calls are outstanding right now.
    pub fn outstanding(&self) -> (n: usize)
        ensures
            n == self.in_flight().len(),
    {
        self.in_flight.len()
    }

    /// Whether every call has been issued and answered.
    pub fn is_finished(&self) -> (b: bool)
        ensures
            b == self.finished(),
    {
        self.pending.len() == 0 && self.in_flight.len() == 0
    }

    /// Hand the recorded entries out: a subset of the requested targets,
    /// at most one entry per address.
    pub fn results(self) -> (r: Vec<ArpScanResult>)
        requires
            self.wf(),
        ensures
            r@ == self.found(),
            distinct_ips(r@),
            forall|i: int| 0 <= i < r@.len() ==> self.targets().contains(r@[i].ip),
    {
        self.found
    }
}

/// The concurrency bound: however the fan-out is driven, a well-formed
/// scan never has more calls outstanding than its configured cap.
pub proof fn lemma_bounded_concurrency(s: NativeScan)
    requires
        s.wf(),
    ensures
        s.in_flight().len() <= s.limit(),
{
}

} // verus!
