use vstd::prelude::*;
use crate::clock::now_epoch;
use crate::settings::NotifierSettings;

verus! {

/// Length of the window, in seconds, over which notifications are counted.
pub const RATE_WINDOW_SECS: u64 = 3600;

/// In-memory notifier state that lives as long as the process: the end of
/// the current mute window and the times at which notifications were sent.
pub struct NotifierRuntime {
    pub mute_until: Option<u64>,
    pub alert_timestamps: Vec<u64>,
}

/// The start of the counting window that ends at `now` (zero near the epoch).
pub open spec fn window_start(now: u64) -> u64 {
    if now >= RATE_WINDOW_SECS { (now - RATE_WINDOW_SECS) as u64 } else { 0 }
}

/// The timestamps that fall strictly after the start of the window ending at `now`.
pub open spec fn in_window(ts: Seq<u64>, now: u64) -> Seq<u64> {
    ts.filter(|t: u64| t > window_start(now))
}

/// `count` copies of the time `now`.
pub open spec fn copies_of(now: u64, count: nat) -> Seq<u64> {
    Seq::new(count, |i: int| now)
}

/// The timestamps kept after `count` notifications are each recorded at
/// `now`: unchanged when there are none; otherwise those within the window
/// ending at `now`, followed by `count` copies of `now` (none at the epoch
/// itself, where the window is empty).
pub open spec fn recorded_window(ts: Seq<u64>, now: u64, count: nat) -> Seq<u64> {
    if count == 0 {
        ts
    } else if now > 0 {
        in_window(ts, now) + copies_of(now, count)
    } else {
        in_window(ts, now)
    }
}

/// A filter keeps a sequence whose elements all pass it.
pub proof fn lemma_filter_keeps_passing<A>(s: Seq<A>, p: spec_fn(A) -> bool)
    requires
        forall|i: int| 0 <= i < s.len() ==> p(#[trigger] s[i]),
    ensures
        s.filter(p) == s,
    decreases s.len(),
{
    reveal_with_fuel(Seq::filter, 1);
    if s.len() > 0 {
        lemma_filter_keeps_passing(s.drop_last(), p);
        assert(p(s[s.len() - 1]));
        assert(s.drop_last().push(s.last()) =~= s);
    } else {
        assert(s.filter(p) =~= s);
    }
}

/// Every timestamp within the window passes the window's test.
pub proof fn lemma_in_window_passes(ts: Seq<u64>, now: u64)
    ensures
        forall|i: int| 0 <= i < in_window(ts, now).len() ==> #[trigger] in_window(ts, now)[i] > window_start(now),
{
    assert forall|i: int| 0 <= i < in_window(ts, now).len() implies #[trigger] in_window(ts, now)[i]
        > window_start(now) by {
        ts.lemma_filter_pred(|t: u64| t > window_start(now), i);
    }
}

proof fn lemma_record_first(ts: Seq<u64>, now: u64)
    ensures
        in_window(ts.push(now), now) == recorded_window(ts, now, 1),
{
    let p = |t: u64| t > window_start(now);
    ts.lemma_filter_push(now, p);
    if now > 0 {
        assert(in_window(ts, now).push(now) =~= in_window(ts, now) + copies_of(now, 1));
    }
}

/// The window ending at `now`, followed by copies of `now`, lies wholly
/// within that window.
pub proof fn lemma_window_and_copies_pass(ts: Seq<u64>, now: u64, count: nat)
    requires
        now > 0,
    ensures
        forall|i: int| 0 <= i < (in_window(ts, now) + copies_of(now, count)).len()
            ==> #[trigger] (in_window(ts, now) + copies_of(now, count))[i] > window_start(now),
{
    let w = in_window(ts, now);
    let r = w + copies_of(now, count);
    lemma_in_window_passes(ts, now);
    assert forall|i: int| 0 <= i < r.len() implies #[trigger] r[i] > window_start(now) by {
        if i >= w.len() {
            assert(r[i] == now);
        } else {
            assert(r[i] == w[i]);
        }
    }
}

proof fn lemma_push_all_above(r: Seq<u64>, x: u64, bound: u64)
    requires
        forall|i: int| 0 <= i < r.len() ==> #[trigger] r[i] > bound,
        x > bound,
    ensures
        r.push(x).filter(|t: u64| t > bound) == r.push(x),
{
    let q = r.push(x);
    assert forall|i: int| 0 <= i < q.len() implies #[trigger] q[i] > bound by {
        if i < r.len() {
            assert(q[i] == r[i]);
        }
    }
    lemma_filter_keeps_passing(q, |t: u64| t > bound);
}

proof fn lemma_record_next_positive(ts: Seq<u64>, now: u64, count: nat)
    requires
        count > 0,
        now > 0,
    ensures
        in_window((in_window(ts, now) + copies_of(now, count)).push(now), now)
            == in_window(ts, now) + copies_of(now, count + 1),
{
    let r = in_window(ts, now) + copies_of(now, count);
    let bound = window_start(now);
    lemma_window_and_copies_pass(ts, now, count);
    lemma_push_all_above(r, now, bound);
    assert(r.push(now) =~= in_window(ts, now) + copies_of(now, count + 1));
}

proof fn lemma_record_next_epoch(ts: Seq<u64>)
    ensures
        in_window(in_window(ts, 0).push(0), 0) == in_window(ts, 0),
{
    let p = |t: u64| t > window_start(0);
    let w = in_window(ts, 0);
    lemma_in_window_passes(ts, 0);
    lemma_filter_keeps_passing(w, p);
    w.lemma_filter_push(0, p);
}

proof fn lemma_record_next(ts: Seq<u64>, now: u64, count: nat)
    requires
        count > 0,
    ensures
        in_window(recorded_window(ts, now, count).push(now), now) == recorded_window(ts, now, count + 1),
{
    if now > 0 {
        lemma_record_next_positive(ts, now, count);
    } else {
        lemma_record_next_epoch(ts);
    }
}

/// Recording one more notification at `now` extends `recorded_window` by one.
pub proof fn lemma_record_one_more(ts: Seq<u64>, now: u64, count: nat)
    ensures
        in_window(recorded_window(ts, now, count).push(now), now) == recorded_window(ts, now, count + 1),
{
    if count == 0 {
        lemma_record_first(ts, now);
    } else {
        lemma_record_next(ts, now, count);
    }
}

/// Whether notifications are muted at `now`.
pub open spec fn muted_at(mute_until: Option<u64>, now: u64) -> bool {
    match mute_until {
        Some(until) => now < until,
        None => false,
    }
}

/// The end of a mute window of `duration_secs` seconds that starts at `now`.
pub open spec fn mute_end(now: u64, duration_secs: u64) -> u64 {
    (now + duration_secs) as u64
}

/// What muting for `duration_secs` seconds from `now` gives, from a mute
/// end of `before`: whether it applied, and the new mute end. A window whose
/// end does not fit in a `u64` is not applied.
pub open spec fn mute_outcome(before: Option<u64>, now: u64, duration_secs: u64) -> (bool, Option<u64>) {
    if now + duration_secs <= u64::MAX {
        (true, Some(mute_end(now, duration_secs)))
    } else {
        (false, before)
    }
}

/// The hour of the day (UTC) of an epoch time.
pub open spec fn hour_of_day(now: u64) -> int {
    (now / 3600) as int % 24
}

/// Whether `hour` lies in the quiet window from `start` to `end`; a window
/// whose start lies after its end wraps past midnight.
pub open spec fn in_quiet_window(start: int, end: int, hour: int) -> bool {
    if start <= end {
        start <= hour && hour < end
    } else {
        hour >= start || hour < end
    }
}

/// Whether quiet hours are in force at `now` under `settings`.
pub open spec fn quiet_at(settings: NotifierSettings, now: u64) -> bool {
    match (settings.quiet_hours_start, settings.quiet_hours_end) {
        (Some(start), Some(end)) => in_quiet_window(start as int, end as int, hour_of_day(now)),
        _ => false,
    }
}

impl NotifierRuntime {
    /// Not muted, nothing sent yet.
    pub fn new() -> (rt: Self)
        ensures
            rt.mute_until is None,
            rt.alert_timestamps@.len() == 0,
    {
        NotifierRuntime { mute_until: None, alert_timestamps: Vec::new() }
    }

    /// Whether notifications are muted at `now`.
    pub fn is_muted_at(&self, now: u64) -> (muted: bool)
        ensures
            muted == muted_at(self.mute_until, now),
    {
        match self.mute_until {
            Some(until) => now < until,
            None => false,
        }
    }

    /// Mutes notifications from `now` for `duration_secs` seconds.
    pub fn mute_at(&mut self, now: u64, duration_secs: u64)
        requires
            now + duration_secs <= u64::MAX,
        ensures
            final(self).mute_until == Some((now + duration_secs) as u64),
            final(self).alert_timestamps@ == old(self).alert_timestamps@,
    {
        self.mute_until = Some(now + duration_secs);
    }

    /// Mutes notifications from `now` for `duration_secs` seconds when the
    /// end of that window fits in a `u64`; otherwise nothing changes.
    /// Returns whether the mute applied.
    pub fn try_mute_at(&mut self, now: u64, duration_secs: u64) -> (applied: bool)
        ensures
            (applied, final(self).mute_until) == mute_outcome(old(self).mute_until, now, duration_secs),
            final(self).alert_timestamps@ == old(self).alert_timestamps@,
    {
        if now <= u64::MAX - duration_secs {
            self.mute_at(now, duration_secs);
            true
        } else {
            false
        }
    }

    /// The number of notifications sent within the window ending at `now`.
    pub fn recent_alert_count(&self, now: u64) -> (count: usize)
        ensures
            count == in_window(self.alert_timestamps@, now).len(),
    {
        let cutoff: u64 = now.saturating_sub(RATE_WINDOW_SECS);
        let ghost ts = self.alert_timestamps@;
        let mut count: usize = 0;
        let mut i: usize = 0;
        while i < self.alert_timestamps.len()
            invariant
                i <= ts.len(),
                ts == self.alert_timestamps@,
                cutoff == window_start(now),
                count == ts.take(i as int).filter(|t: u64| t > window_start(now)).len(),
                count <= i,
            decreases ts.len() - i,
        {
            proof {
                assert(ts.take(i + 1).drop_last() =~= ts.take(i as int));
                reveal_with_fuel(Seq::filter, 1);
            }
            if self.alert_timestamps[i] > cutoff {
                count = count + 1;
            }
            i = i + 1;
        }
        assert(ts.take(ts.len() as int) =~= ts);
        count
    }

    /// Records a notification sent at `sent_at`, then forgets every
    /// timestamp outside the window ending at `now`.
    pub fn record_alert_at(&mut self, sent_at: u64, now: u64)
        ensures
            final(self).alert_timestamps@ == in_window(old(self).alert_timestamps@.push(sent_at), now),
            final(self).mute_until == old(self).mute_until,
    {
        let cutoff: u64 = now.saturating_sub(RATE_WINDOW_SECS);
        let ghost all = self.alert_timestamps@.push(sent_at);
        self.alert_timestamps.push(sent_at);
        let mut kept: Vec<u64> = Vec::new();
        let mut i: usize = 0;
        while i < self.alert_timestamps.len()
            invariant
                i <= all.len(),
                all == self.alert_timestamps@,
                cutoff == window_start(now),
                kept@ == all.take(i as int).filter(|t: u64| t > window_start(now)),
            decreases all.len() - i,
        {
            proof {
                assert(all.take(i + 1).drop_last() =~= all.take(i as int));
                reveal_with_fuel(Seq::filter, 1);
            }
            let t: u64 = self.alert_timestamps[i];
            if t > cutoff {
                kept.push(t);
            }
            i = i + 1;
        }
        assert(all.take(all.len() as int) =~= all);
        self.alert_timestamps = kept;
    }

    /// Records `count` notifications, each sent at `now`, keeping only the
    /// window that ends at `now`.
    pub fn record_alerts_at(&mut self, count: usize, now: u64)
        ensures
            final(self).alert_timestamps@ == recorded_window(old(self).alert_timestamps@, now, count as nat),
            final(self).mute_until == old(self).mute_until,
    {
        let ghost start = self.alert_timestamps@;
        let mut i: usize = 0;
        while i < count
            invariant
                i <= count,
                self.alert_timestamps@ == recorded_window(start, now, i as nat),
                self.mute_until == old(self).mute_until,
            decreases count - i,
        {
            proof {
                lemma_record_one_more(start, now, i as nat);
            }
            self.record_alert_at(now, now);
            i = i + 1;
        }
    }
}

/// Whether notifications are muted now, by the system clock.
pub fn is_muted(rt: &NotifierRuntime) -> (muted: bool)
    ensures
        exists|now: u64| muted == muted_at(rt.mute_until, now),
{
    let now: u64 = now_epoch();
    rt.is_muted_at(now)
}

/// Mutes notifications for `duration_secs` seconds from now. When the end of
/// that window would not fit in a `u64`, nothing changes and `false` is returned.
pub fn mute_for(rt: &mut NotifierRuntime, duration_secs: u64) -> (applied: bool)
    ensures
        final(rt).alert_timestamps@ == old(rt).alert_timestamps@,
        exists|now: u64| (applied, final(rt).mute_until) == #[trigger] mute_outcome(old(rt).mute_until, now, duration_secs),
        duration_secs == 0 ==> applied,
        !applied ==> final(rt).mute_until == old(rt).mute_until,
{
    let now: u64 = now_epoch();
    rt.try_mute_at(now, duration_secs)
}

/// Ends any mute window.
pub fn unmute(rt: &mut NotifierRuntime)
    ensures
        final(rt).mute_until is None,
        final(rt).alert_timestamps@ == old(rt).alert_timestamps@,
{
    rt.mute_until = None;
}

/// Records that a notification was just sent, keeping only the last hour of
/// timestamps; the clock is read once for the timestamp and once for the window.
pub fn record_alert(rt: &mut NotifierRuntime)
    ensures
        exists|sent_at: u64, now: u64|
            final(rt).alert_timestamps@ == #[trigger] in_window(old(rt).alert_timestamps@.push(sent_at), now),
        final(rt).mute_until == old(rt).mute_until,
{
    let sent_at: u64 = now_epoch();
    let now: u64 = now_epoch();
    rt.record_alert_at(sent_at, now);
}

/// Records that `count` notifications were just sent, reading the clock
/// once for all of them.
pub fn record_alerts(rt: &mut NotifierRuntime, count: usize)
    ensures
        exists|now: u64| final(rt).alert_timestamps@ == #[trigger] recorded_window(old(rt).alert_timestamps@, now, count as nat),
        count == 0 ==> final(rt).alert_timestamps@ == old(rt).alert_timestamps@,
        final(rt).mute_until == old(rt).mute_until,
{
    let now: u64 = now_epoch();
    rt.record_alerts_at(count, now);
}

/// Whether quiet hours are in force at `now` under `settings`.
pub fn is_quiet_hours_at(settings: &NotifierSettings, now: u64) -> (quiet: bool)
    ensures
        quiet == quiet_at(*settings, now),
{
    match (settings.quiet_hours_start, settings.quiet_hours_end) {
        (Some(start), Some(end)) => {
            let hour: u8 = (now / 3600 % 24) as u8;
            if start <= end {
                hour >= start && hour < end
            } else {
                hour >= start || hour < end
            }
        },
        _ => false,
    }
}

/// Whether quiet hours are in force now, by the system clock.
pub fn is_quiet_hours(settings: &NotifierSettings) -> (quiet: bool)
    ensures
        exists|now: u64| quiet == quiet_at(*settings, now),
{
    let now: u64 = now_epoch();
    is_quiet_hours_at(settings, now)
}

} // verus!
