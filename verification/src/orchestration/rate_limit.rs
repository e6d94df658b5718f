//! Rate limiting of incoming connections by source IP.
//!
//! Every new connection makes the runtime run a whole Noise handshake
//! (elliptic-curve work) before any higher-level check, so without this
//! anyone on the LAN could exhaust the vault's CPU without guessing
//! anything. Each IP gets a window of [`WINDOW_MS`] with at most
//! [`MAX_ATTEMPTS_PER_WINDOW`] attempts; going over bans it for
//! [`ban_ms`] of its consecutive violations.
//!
//! The clock is a parameter of [`IpRateLimiter::check`], so the logic is
//! deterministic.
use vstd::prelude::*;
use vstd::arithmetic::power2::{pow2, lemma2_to64};
use crate::orchestration::enrollment::saturating_add_u64;

verus! {

/// Attempts allowed per IP within one window.
pub const MAX_ATTEMPTS_PER_WINDOW: u32 = 10;
/// Length of a window: one minute.
pub const WINDOW_MS: u64 = 60000;
/// Ban after the first violation: two minutes. It is longer than a window
/// on purpose, so that waiting out a ban does not simply yield a fresh window.
pub const BASE_BAN_MS: u64 = 120000;
/// Upper bound of a ban: fifteen minutes.
pub const MAX_BAN_MS: u64 = 900000;
/// Entries idle for longer than this (one hour) are pruned, unless banned.
pub const STALE_ENTRY_MS: u64 = 3600000;

/// An IP address: an IPv4 address as its 32 bits, an IPv6 one as its 128.
#[derive(Debug, Clone, Copy, PartialEq, Eq, Structural)]
pub enum IpAddress {
    V4(u32),
    V6(u128),
}

/// Whether a connection attempt may proceed.
#[derive(Debug, Clone, Copy, PartialEq, Eq, Structural)]
pub enum RateLimitDecision {
    Allow,
    Deny { retry_after_ms: u64 },
}

/// What is tracked about one IP.
#[derive(Debug, Clone, Copy)]
pub struct IpWindow {
    pub window_start_ms: u64,
    pub count_in_window: u32,
    pub consecutive_violations: u32,
    pub banned_until_ms: u64,
}

/// Connection rate limiter keyed by source IP.
pub struct IpRateLimiter {
    entries: Vec<(IpAddress, IpWindow)>,
}

/// The window of an IP seen for the first time at `now`.
pub open spec fn fresh_window(now: u64) -> IpWindow {
    IpWindow { window_start_ms: now, count_in_window: 0, consecutive_violations: 0, banned_until_ms: 0 }
}

/// Windows never count more than the allowed attempts.
pub open spec fn window_wf(w: IpWindow) -> bool {
    w.count_in_window <= MAX_ATTEMPTS_PER_WINDOW
}

/// Ban after the `violations`-th consecutive violation:
/// `min(BASE_BAN_MS * 2^min(violations - 1, 10), MAX_BAN_MS)`.
pub open spec fn ban_ms(violations: u32) -> u64 {
    let shift: nat = if violations <= 1 {
        0
    } else if violations - 1 > 10 {
        10
    } else {
        (violations - 1) as nat
    };
    let raw = BASE_BAN_MS * pow2(shift);
    if raw < MAX_BAN_MS {
        raw as u64
    } else {
        MAX_BAN_MS
    }
}

/// `a - b`, floored at zero.
pub open spec fn saturating_sub_u64(a: u64, b: u64) -> u64 {
    if a >= b {
        (a - b) as u64
    } else {
        0
    }
}

/// The decision on an attempt at `now` by an IP whose window is `w`, and
/// its window afterwards.
pub open spec fn check_step(w: IpWindow, now: u64) -> (RateLimitDecision, IpWindow) {
    if now < w.banned_until_ms {
        (RateLimitDecision::Deny { retry_after_ms: (w.banned_until_ms - now) as u64 }, w)
    } else {
        let current = if saturating_sub_u64(now, w.window_start_ms) > WINDOW_MS {
            IpWindow { window_start_ms: now, count_in_window: 0, ..w }
        } else {
            w
        };
        let count = current.count_in_window + 1;
        if count > MAX_ATTEMPTS_PER_WINDOW {
            let violations: u32 = if current.consecutive_violations == u32::MAX {
                u32::MAX
            } else {
                (current.consecutive_violations + 1) as u32
            };
            let ban = ban_ms(violations);
            (
                RateLimitDecision::Deny { retry_after_ms: ban },
                IpWindow {
                    window_start_ms: now,
                    count_in_window: 0,
                    consecutive_violations: violations,
                    banned_until_ms: saturating_add_u64(now, ban),
                },
            )
        } else {
            (RateLimitDecision::Allow, IpWindow { count_in_window: count as u32, ..current })
        }
    }
}

/// The window an attempt by `ip` at `now` is judged against.
pub open spec fn current_window(m: Map<IpAddress, IpWindow>, ip: IpAddress, now: u64) -> IpWindow {
    if m.dom().contains(ip) {
        m[ip]
    } else {
        fresh_window(now)
    }
}

/// Whether pruning at `now` keeps a window: recently active, or still banned.
pub open spec fn keeps_window(w: IpWindow, now: u64) -> bool {
    saturating_sub_u64(now, w.window_start_ms) < STALE_ENTRY_MS || now < w.banned_until_ms
}

/// The map that a list of entries stands for.
pub open spec fn entries_map(s: Seq<(IpAddress, IpWindow)>) -> Map<IpAddress, IpWindow>
    decreases s.len(),
{
    if s.len() == 0 {
        Map::empty()
    } else {
        entries_map(s.drop_last()).insert(s.last().0, s.last().1)
    }
}

pub open spec fn keys_unique(s: Seq<(IpAddress, IpWindow)>) -> bool {
    forall|i: int, j: int| 0 <= i < j < s.len() ==> s[i].0 != s[j].0
}

proof fn lemma_entries_dom(s: Seq<(IpAddress, IpWindow)>, k: IpAddress)
    ensures
        entries_map(s).dom().contains(k) <==> exists|i: int| 0 <= i < s.len() && s[i].0 == k,
    decreases s.len(),
{
    if s.len() > 0 {
        lemma_entries_dom(s.drop_last(), k);
        if entries_map(s.drop_last()).dom().contains(k) {
            let i = choose|i: int| 0 <= i < s.drop_last().len() && s.drop_last()[i].0 == k;
            assert(s[i].0 == k);
        }
        if exists|i: int| 0 <= i < s.len() && s[i].0 == k {
            let i = choose|i: int| 0 <= i < s.len() && s[i].0 == k;
            if i < s.len() - 1 {
                assert(s.drop_last()[i].0 == k);
            }
        }
    }
}

proof fn lemma_entries_value(s: Seq<(IpAddress, IpWindow)>, i: int)
    requires
        keys_unique(s),
        0 <= i < s.len(),
    ensures
        entries_map(s).dom().contains(s[i].0),
        entries_map(s)[s[i].0] == s[i].1,
    decreases s.len(),
{
    if i < s.len() - 1 {
        assert(keys_unique(s.drop_last()));
        lemma_entries_value(s.drop_last(), i);
        assert(s.drop_last()[i] == s[i]);
    }
}

proof fn lemma_entries_finite(s: Seq<(IpAddress, IpWindow)>)
    requires
        keys_unique(s),
    ensures
        entries_map(s).dom().finite(),
        entries_map(s).dom().len() == s.len(),
    decreases s.len(),
{
    if s.len() > 0 {
        let p = s.drop_last();
        assert(keys_unique(p));
        lemma_entries_finite(p);
        lemma_entries_dom(p, s.last().0);
        if entries_map(p).dom().contains(s.last().0) {
            let i = choose|i: int| 0 <= i < p.len() && p[i].0 == s.last().0;
            assert(s[i].0 == s[s.len() - 1].0);
        }
    }
}

proof fn lemma_entries_push(s: Seq<(IpAddress, IpWindow)>, e: (IpAddress, IpWindow))
    ensures
        entries_map(s.push(e)) == entries_map(s).insert(e.0, e.1),
{
    assert(s.push(e).drop_last() =~= s);
}

proof fn lemma_entries_update(s: Seq<(IpAddress, IpWindow)>, i: int, w: IpWindow)
    requires
        keys_unique(s),
        0 <= i < s.len(),
    ensures
        entries_map(s.update(i, (s[i].0, w))) == entries_map(s).insert(s[i].0, w),
    decreases s.len(),
{
    let u = s.update(i, (s[i].0, w));
    if i == s.len() - 1 {
        assert(u.drop_last() =~= s.drop_last());
        lemma_entries_dom(s.drop_last(), s[i].0);
        assert(entries_map(u) =~= entries_map(s).insert(s[i].0, w));
    } else {
        let p = s.drop_last();
        assert(keys_unique(p));
        lemma_entries_update(p, i, w);
        assert(u.drop_last() =~= p.update(i, (p[i].0, w)));
        assert(s.last().0 != s[i].0);
        assert(entries_map(u) =~= entries_map(s).insert(s[i].0, w));
    }
}

impl View for IpRateLimiter {
    type V = Map<IpAddress, IpWindow>;

    closed spec fn view(&self) -> Map<IpAddress, IpWindow> {
        entries_map(self.entries@)
    }
}

impl Default for IpRateLimiter {
    fn default() -> (r: Self)
        ensures
            r.wf(),
            r@ == Map::<IpAddress, IpWindow>::empty(),
    {
        Self::new()
    }
}

impl IpRateLimiter {
    /// Entries have distinct IPs and well-formed windows.
    pub closed spec fn wf(&self) -> bool {
        &&& keys_unique(self.entries@)
        &&& forall|i: int| 0 <= i < self.entries@.len() ==> window_wf(#[trigger] self.entries@[i].1)
    }

    /// A well-formed limiter tracks finitely many IPs, all with
    /// well-formed windows.
    pub proof fn lemma_wf_windows(&self)
        requires
            self.wf(),
        ensures
            self@.dom().finite(),
            forall|k: IpAddress| #[trigger] self@.dom().contains(k) ==> window_wf(self@[k]),
    {
        lemma_entries_finite(self.entries@);
        assert forall|k: IpAddress| #[trigger] self@.dom().contains(k) implies window_wf(self@[k]) by {
            lemma_entries_dom(self.entries@, k);
            let i = choose|i: int| 0 <= i < self.entries@.len() && self.entries@[i].0 == k;
            lemma_entries_value(self.entries@, i);
        }
    }

    /// A limiter that tracks no IP yet.
    pub fn new() -> (r: Self)
        ensures
            r.wf(),
            r@ == Map::<IpAddress, IpWindow>::empty(),
    {
        IpRateLimiter { entries: Vec::new() }
    }

    /// The position of `ip` among the entries, if it is tracked.
    fn find(&self, ip: IpAddress) -> (r: Option<usize>)
        requires
            self.wf(),
        ensures
            match r {
                Some(i) => i < self.entries@.len() && self.entries@[i as int].0 == ip,
                None => !self@.dom().contains(ip),
            },
    {
        let mut i: usize = 0;
        while i < self.entries.len()
            invariant
                0 <= i <= self.entries@.len(),
                forall|j: int| 0 <= j < i ==> self.entries@[j].0 != ip,
            decreases self.entries@.len() - i,
        {
            if self.entries[i].0 == ip {
                return Some(i);
            }
            i = i + 1;
        }
        proof {
            lemma_entries_dom(self.entries@, ip);
        }
        None
    }

    /// [`ban_ms`] of `violations`.
    fn ban_for(violations: u32) -> (r: u64)
        ensures
            r == ban_ms(violations),
    {
        let shift: u64 = if violations <= 1 {
            0
        } else if violations - 1 > 10 {
            10
        } else {
            (violations - 1) as u64
        };
        proof {
            lemma2_to64();
            vstd::arithmetic::power2::lemma_pow2_strictly_increases(shift as nat, 11);
            vstd::bits::lemma_u64_shl_is_mul(1, shift);
        }
        let factor: u64 = 1u64 << shift;
        let raw = BASE_BAN_MS * factor;
        if raw < MAX_BAN_MS {
            raw
        } else {
            MAX_BAN_MS
        }
    }

    /// The decision and new window of an attempt at `now_ms` against `w`.
    fn step(w: IpWindow, now_ms: u64) -> (r: (RateLimitDecision, IpWindow))
        requires
            window_wf(w),
        ensures
            r == check_step(w, now_ms),
            window_wf(r.1),
    {
        if now_ms < w.banned_until_ms {
            return (RateLimitDecision::Deny { retry_after_ms: w.banned_until_ms - now_ms }, w);
        }
        let mut current = w;
        if now_ms.saturating_sub(current.window_start_ms) > WINDOW_MS {
            current.window_start_ms = now_ms;
            current.count_in_window = 0;
        }
        let count = current.count_in_window + 1;
        if count > MAX_ATTEMPTS_PER_WINDOW {
            let violations = current.consecutive_violations.saturating_add(1);
            let ban = Self::ban_for(violations);
            let next = IpWindow {
                window_start_ms: now_ms,
                count_in_window: 0,
                consecutive_violations: violations,
                banned_until_ms: now_ms.saturating_add(ban),
            };
            return (RateLimitDecision::Deny { retry_after_ms: ban }, next);
        }
        current.count_in_window = count;
        (RateLimitDecision::Allow, current)
    }

    /// Records a connection attempt of `ip` at `now_ms` and decides it:
    /// denied while banned; otherwise counted in the IP's current window
    /// (a new one once [`WINDOW_MS`] has passed since it began), and denied
    /// with a ban of [`ban_ms`] when that count goes over
    /// [`MAX_ATTEMPTS_PER_WINDOW`]. Other IPs are not affected.
    pub fn check(&mut self, ip: IpAddress, now_ms: u64) -> (r: RateLimitDecision)
        requires
            old(self).wf(),
        ensures
            final(self).wf(),
            r == check_step(current_window(old(self)@, ip, now_ms), now_ms).0,
            final(self)@ == old(self)@.insert(
                ip,
                check_step(current_window(old(self)@, ip, now_ms), now_ms).1,
            ),
    {
        let found = self.find(ip);
        let w = match found {
            Some(i) => {
                proof {
                    lemma_entries_value(self.entries@, i as int);
                }
                self.entries[i].1
            },
            None => IpWindow {
                window_start_ms: now_ms,
                count_in_window: 0,
                consecutive_violations: 0,
                banned_until_ms: 0,
            },
        };
        let (decision, next) = Self::step(w, now_ms);
        let ghost before = self.entries@;
        match found {
            Some(i) => {
                self.entries.set(i, (ip, next));
                proof {
                    lemma_entries_update(before, i as int, next);
                    assert(self.entries@ == before.update(i as int, (before[i as int].0, next)));
                }
            },
            None => {
                self.entries.push((ip, next));
                proof {
                    lemma_entries_push(before, (ip, next));
                    assert forall|a: int, b: int| 0 <= a < b < self.entries@.len() implies self.entries@[a].0
                        != self.entries@[b].0 by {
                        if b == before.len() {
                            lemma_entries_dom(before, ip);
                            assert(before[a].0 != ip);
                        }
                    }
                }
            },
        }
        decision
    }

    /// Drops the entries of IPs idle for [`STALE_ENTRY_MS`] or more, unless
    /// they are still banned, so the map does not grow without bound.
    pub fn prune_stale(&mut self, now_ms: u64)
        requires
            old(self).wf(),
        ensures
            final(self).wf(),
            forall|k: IpAddress| #[trigger] final(self)@.dom().contains(k) <==> (old(self)@.dom().contains(
                k,
            ) && keeps_window(old(self)@[k], now_ms)),
            forall|k: IpAddress| #[trigger] final(self)@.dom().contains(k) ==> final(self)@[k] == old(
                self,
            )@[k],
    {
        let mut kept: Vec<(IpAddress, IpWindow)> = Vec::new();
        let mut i: usize = 0;
        while i < self.entries.len()
            invariant
                self.wf(),
                self.entries@ == old(self).entries@,
                0 <= i <= self.entries@.len(),
                keys_unique(kept@),
                forall|j: int|
                    0 <= j < kept@.len() ==> exists|t: int|
                        0 <= t < i && #[trigger] kept@[j] == self.entries@[t] && keeps_window(
                            self.entries@[t].1,
                            now_ms,
                        ),
                forall|t: int|
                    0 <= t < i && keeps_window(#[trigger] self.entries@[t].1, now_ms) ==> exists|j: int|
                        0 <= j < kept@.len() && kept@[j] == self.entries@[t],
            decreases self.entries@.len() - i,
        {
            let e = self.entries[i];
            if now_ms.saturating_sub(e.1.window_start_ms) < STALE_ENTRY_MS || now_ms < e.1.banned_until_ms {
                let ghost before = kept@;
                kept.push(e);
                proof {
                    assert forall|a: int, b: int| 0 <= a < b < kept@.len() implies kept@[a].0 != kept@[b].0 by {
                        if b == before.len() {
                            assert(kept@[a] == before[a]);
                            let t = choose|t: int| 0 <= t < i && #[trigger] before[a] == self.entries@[t] && keeps_window(self.entries@[t].1, now_ms);
                            assert(self.entries@[t].0 != self.entries@[i as int].0);
                        }
                    }
                    assert forall|j: int| 0 <= j < kept@.len() implies exists|t: int|
                        0 <= t < i + 1 && #[trigger] kept@[j] == self.entries@[t] && keeps_window(self.entries@[t].1, now_ms) by {
                        if j < before.len() {
                            assert(kept@[j] == before[j]);
                        } else {
                            assert(kept@[j] == self.entries@[i as int]);
                        }
                    }
                    assert forall|t: int| 0 <= t < i + 1 && keeps_window(#[trigger] self.entries@[t].1, now_ms) implies exists|j: int|
                        0 <= j < kept@.len() && kept@[j] == self.entries@[t] by {
                        if t < i {
                            let j = choose|j: int| 0 <= j < before.len() && before[j] == self.entries@[t];
                            assert(kept@[j] == before[j]);
                        } else {
                            assert(kept@[before.len() as int] == self.entries@[t]);
                        }
                    }
                }
            }
            i = i + 1;
        }
        let ghost old_entries = self.entries@;
        proof {
            assert forall|k: IpAddress| #[trigger] entries_map(kept@).dom().contains(k) <==> (entries_map(old_entries).dom().contains(k)
                && keeps_window(entries_map(old_entries)[k], now_ms)) by {
                lemma_entries_dom(kept@, k);
                lemma_entries_dom(old_entries, k);
                if entries_map(kept@).dom().contains(k) {
                    let j = choose|j: int| 0 <= j < kept@.len() && kept@[j].0 == k;
                    let t = choose|t: int| 0 <= t < old_entries.len() && #[trigger] kept@[j] == old_entries[t] && keeps_window(old_entries[t].1, now_ms);
                    lemma_entries_value(old_entries, t);
                }
                if entries_map(old_entries).dom().contains(k) && keeps_window(entries_map(old_entries)[k], now_ms) {
                    let t = choose|t: int| 0 <= t < old_entries.len() && old_entries[t].0 == k;
                    lemma_entries_value(old_entries, t);
                    assert(keeps_window(old_entries[t].1, now_ms));
                    let j = choose|j: int| 0 <= j < kept@.len() && kept@[j] == old_entries[t];
                    assert(kept@[j].0 == k);
                }
            }
            assert forall|k: IpAddress| #[trigger] entries_map(kept@).dom().contains(k) implies entries_map(kept@)[k] == entries_map(old_entries)[k] by {
                lemma_entries_dom(kept@, k);
                let j = choose|j: int| 0 <= j < kept@.len() && kept@[j].0 == k;
                let t = choose|t: int| 0 <= t < old_entries.len() && #[trigger] kept@[j] == old_entries[t] && keeps_window(old_entries[t].1, now_ms);
                lemma_entries_value(old_entries, t);
                lemma_entries_value(kept@, j);
            }
            assert forall|j: int| 0 <= j < kept@.len() implies window_wf(#[trigger] kept@[j].1) by {
                let t = choose|t: int| 0 <= t < old_entries.len() && #[trigger] kept@[j] == old_entries[t] && keeps_window(old_entries[t].1, now_ms);
                assert(window_wf(old_entries[t].1));
            }
        }
        self.entries = kept;
    }

    /// How many IPs are tracked.
    pub fn tracked_ip_count(&self) -> (r: usize)
        requires
            self.wf(),
        ensures
            r == self@.len(),
    {
        proof {
            lemma_entries_finite(self.entries@);
        }
        self.entries.len()
    }
}

/// While an IP is banned every attempt is denied with the time left of
/// the ban, and its window does not change.
pub proof fn lemma_ban_holds(w: IpWindow, now: u64)
    requires
        now < w.banned_until_ms,
    ensures
        check_step(w, now) == (RateLimitDecision::Deny { retry_after_ms: (w.banned_until_ms - now) as u64 }, w),
{
}

/// An attempt outside any ban is allowed while its window has attempts
/// left; in particular the first attempt after a ban, which always starts
/// an empty window.
pub proof fn lemma_allowed_below_limit(w: IpWindow, now: u64)
    requires
        window_wf(w),
        w.count_in_window < MAX_ATTEMPTS_PER_WINDOW,
        w.banned_until_ms <= now,
    ensures
        check_step(w, now).0 == RateLimitDecision::Allow,
        window_wf(check_step(w, now).1),
{
}

/// Within one window at most [`MAX_ATTEMPTS_PER_WINDOW`] attempts are
/// allowed: an allowed attempt in the same window counts one more, and
/// once the count is full the next attempt in that window is denied with a
/// ban for one more consecutive violation.
pub proof fn lemma_window_limit(w: IpWindow, now: u64)
    requires
        window_wf(w),
        w.banned_until_ms <= now,
        saturating_sub_u64(now, w.window_start_ms) <= WINDOW_MS,
        w.consecutive_violations < u32::MAX,
    ensures
        check_step(w, now).0 == RateLimitDecision::Allow ==> check_step(w, now).1.count_in_window
            == w.count_in_window + 1,
        w.count_in_window == MAX_ATTEMPTS_PER_WINDOW ==> check_step(w, now).0
            == (RateLimitDecision::Deny { retry_after_ms: ban_ms((w.consecutive_violations + 1) as u32) }),
{
}

/// Windows are fixed, one minute long from their first attempt: an allowed
/// attempt keeps its window's start, unless more than 60 s have passed since
/// that start, in which case it begins a fresh window counting just itself.
pub proof fn lemma_fixed_window(w: IpWindow, now: u64)
    ensures
        check_step(w, now).0 == RateLimitDecision::Allow ==> {
            let fresh = now >= w.window_start_ms && now - w.window_start_ms > 60000;
            &&& check_step(w, now).1.window_start_ms == if fresh { now } else { w.window_start_ms }
            &&& check_step(w, now).1.count_in_window == if fresh { 1 } else { w.count_in_window + 1 }
        },
{
}

/// An attempt outside any ban that comes more than 60 s after its window
/// began is allowed and starts a fresh window, whatever the earlier count:
/// so an IP that keeps to 10 attempts a minute is never refused.
pub proof fn lemma_late_attempt_starts_fresh_window(w: IpWindow, now: u64)
    requires
        w.banned_until_ms <= now,
        now >= w.window_start_ms,
        now - w.window_start_ms > 60000,
    ensures
        check_step(w, now) == (
            RateLimitDecision::Allow,
            IpWindow { window_start_ms: now, count_in_window: 1, ..w },
        ),
{
}

/// Bans escalate for repeat offenders: the first lasts [`BASE_BAN_MS`],
/// each further consecutive violation at least as long as the one before
/// and strictly longer until the cap of [`MAX_BAN_MS`].
pub proof fn lemma_ban_escalates(v: u32)
    requires
        1 <= v < u32::MAX,
    ensures
        ban_ms(1) == BASE_BAN_MS,
        ban_ms(v) <= ban_ms((v + 1) as u32) <= MAX_BAN_MS,
        ban_ms(v) < MAX_BAN_MS ==> ban_ms(v) < ban_ms((v + 1) as u32),
{
    lemma2_to64();
}

} // verus!
