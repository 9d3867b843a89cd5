use vstd::prelude::*;
use crate::clock::now_epoch;
use crate::laws::law_delivery_respects_hourly_limit;
use crate::runtime::{in_window, is_quiet_hours_at, muted_at, quiet_at, recorded_window, NotifierRuntime};
use crate::settings::NotifierSettings;
use crate::text::{decimal_string, decimal_text, joined, push_decimal};

verus! {

/// One alert reported by a sweep. `score_text` is the score already rounded
/// to a whole number and written out; `hash` identifies the underlying event.
#[derive(Debug, Clone)]
pub struct SweepAlert {
    pub title: String,
    pub tier: String,
    pub source: String,
    pub score_text: String,
    pub hash: Option<String>,
}

/// A desktop notification to show.
#[derive(Debug, Clone)]
pub struct Notification {
    pub title: String,
    pub body: String,
}

/// The text of a notification.
pub struct NotificationView {
    pub title: Seq<char>,
    pub body: Seq<char>,
}

impl View for Notification {
    type V = NotificationView;

    open spec fn view(&self) -> NotificationView {
        NotificationView { title: self.title@, body: self.body@ }
    }
}

/// The texts of a sequence of notifications.
pub open spec fn notices(ns: Seq<Notification>) -> Seq<NotificationView> {
    ns.map_values(|n: Notification| n@)
}

/// The alerts of a given tier, in order.
pub open spec fn of_tier(alerts: Seq<SweepAlert>, tier: Seq<char>) -> Seq<SweepAlert> {
    alerts.filter(|a: SweepAlert| a.tier@ == tier)
}

/// The alerts of the FLASH tier, in order.
pub open spec fn flash_alerts(alerts: Seq<SweepAlert>) -> Seq<SweepAlert> {
    of_tier(alerts, "FLASH"@)
}

/// The notification title for an alert tier.
pub open spec fn tier_title(tier: Seq<char>) -> Seq<char> {
    if tier == "FLASH"@ {
        "🔴 GHOSTBLOODS FLASH"@
    } else if tier == "PRIORITY"@ {
        "🟡 GHOSTBLOODS"@
    } else {
        "🔵 GHOSTBLOODS"@
    }
}

/// The notification that announces a single alert.
pub open spec fn alert_notice(a: SweepAlert) -> NotificationView {
    NotificationView {
        title: tier_title(a.tier@),
        body: a.title@ + "\nSource: "@ + a.source@ + " • Score: "@ + a.score_text@,
    }
}

/// The titles of the alerts, in order.
pub open spec fn alert_titles(alerts: Seq<SweepAlert>) -> Seq<Seq<char>> {
    alerts.map_values(|a: SweepAlert| a.title@)
}

/// How many alerts a digest names by title.
pub open spec fn digest_named(alerts: Seq<SweepAlert>) -> int {
    if alerts.len() < 3 { alerts.len() as int } else { 3 }
}

/// The single summary notification that stands for a batch of alerts.
pub open spec fn digest_notice(alerts: Seq<SweepAlert>) -> NotificationView {
    let flash: nat = of_tier(alerts, "FLASH"@).len();
    let priority: nat = of_tier(alerts, "PRIORITY"@).len();
    NotificationView {
        title: if flash > 0 { "🔴 GHOSTBLOODS FLASH DIGEST"@ } else { "🟡 GHOSTBLOODS DIGEST"@ },
        body: decimal_text(alerts.len()) + " alerts detected: "@ + decimal_text(flash) + " FLASH, "@
            + decimal_text(priority) + " PRIORITY\n"@
            + joined(alert_titles(alerts.take(digest_named(alerts))), " • "@),
    }
}

/// The alerts a batch may announce: during quiet hours only the FLASH ones.
pub open spec fn candidates(alerts: Seq<SweepAlert>, quiet: bool) -> Seq<SweepAlert> {
    if quiet {
        flash_alerts(alerts)
    } else {
        alerts
    }
}

/// The notifications to show for `alerts`: none while muted or once the hourly
/// limit is reached. Otherwise, of the candidate alerts (during quiet hours
/// only the FLASH ones): a single digest for more than three in digest mode,
/// else one per alert, up to what is left of the hourly limit.
pub open spec fn planned_notices(
    alerts: Seq<SweepAlert>,
    settings: NotifierSettings,
    muted: bool,
    recent: nat,
    quiet: bool,
) -> Seq<NotificationView> {
    let limit: nat = settings.max_notifications_per_hour as nat;
    let chosen = candidates(alerts, quiet);
    if muted || recent >= limit {
        Seq::empty()
    } else if settings.digest_mode && chosen.len() > 3 {
        seq![digest_notice(chosen)]
    } else {
        let left: int = (limit - recent) as int;
        let n: int = if left < chosen.len() { left } else { chosen.len() as int };
        chosen.take(n).map_values(|a: SweepAlert| alert_notice(a))
    }
}

/// The notification that announces `alert`.
pub fn alert_notification(alert: &SweepAlert) -> (n: Notification)
    ensures
        n@ == alert_notice(*alert),
{
    let flash = String::from_str("FLASH");
    let priority = String::from_str("PRIORITY");
    let title = if alert.tier == flash {
        String::from_str("🔴 GHOSTBLOODS FLASH")
    } else if alert.tier == priority {
        String::from_str("🟡 GHOSTBLOODS")
    } else {
        String::from_str("🔵 GHOSTBLOODS")
    };
    let mut body = alert.title.clone();
    body.append("\nSource: ");
    body.append(alert.source.as_str());
    body.append(" • Score: ");
    body.append(alert.score_text.as_str());
    Notification { title, body }
}

/// How many of `alerts` have the tier `tier`.
pub fn count_of_tier(alerts: &Vec<SweepAlert>, tier: &String) -> (count: usize)
    ensures
        count == of_tier(alerts@, tier@).len(),
{
    let ghost s = alerts@;
    let mut count: usize = 0;
    let mut i: usize = 0;
    while i < alerts.len()
        invariant
            i <= s.len(),
            s == alerts@,
            count == of_tier(s.take(i as int), tier@).len(),
            count <= i,
        decreases s.len() - i,
    {
        proof {
            assert(s.take(i + 1).drop_last() =~= s.take(i as int));
            reveal_with_fuel(Seq::filter, 1);
        }
        if alerts[i].tier == *tier {
            count = count + 1;
        }
        i = i + 1;
    }
    assert(s.take(s.len() as int) =~= s);
    count
}

/// A copy of an alert.
pub fn copy_alert(alert: &SweepAlert) -> (c: SweepAlert)
    ensures
        c == *alert,
{
    let hash = match &alert.hash {
        Some(h) => Some(h.clone()),
        None => None,
    };
    SweepAlert {
        title: alert.title.clone(),
        tier: alert.tier.clone(),
        source: alert.source.clone(),
        score_text: alert.score_text.clone(),
        hash,
    }
}

/// The alerts of the tier `tier`, in order.
pub fn alerts_of_tier(alerts: &Vec<SweepAlert>, tier: &String) -> (chosen: Vec<SweepAlert>)
    ensures
        chosen@ == of_tier(alerts@, tier@),
{
    let ghost s = alerts@;
    let mut chosen: Vec<SweepAlert> = Vec::new();
    let mut i: usize = 0;
    while i < alerts.len()
        invariant
            i <= s.len(),
            s == alerts@,
            chosen@ == of_tier(s.take(i as int), tier@),
        decreases s.len() - i,
    {
        proof {
            assert(s.take(i + 1).drop_last() =~= s.take(i as int));
            reveal_with_fuel(Seq::filter, 1);
        }
        if alerts[i].tier == *tier {
            let a = copy_alert(&alerts[i]);
            chosen.push(a);
        }
        i = i + 1;
    }
    assert(s.take(s.len() as int) =~= s);
    chosen
}

/// One notification for each of the first `n` alerts, in order.
pub fn leading_notifications(alerts: &Vec<SweepAlert>, n: usize) -> (ns: Vec<Notification>)
    requires
        n <= alerts@.len(),
    ensures
        notices(ns@) == alerts@.take(n as int).map_values(|a: SweepAlert| alert_notice(a)),
{
    let ghost s = alerts@;
    let mut ns: Vec<Notification> = Vec::new();
    let mut i: usize = 0;
    while i < n
        invariant
            i <= n,
            n <= s.len(),
            s == alerts@,
            notices(ns@) =~= s.take(i as int).map_values(|a: SweepAlert| alert_notice(a)),
        decreases n - i,
    {
        let note = alert_notification(&alerts[i]);
        proof {
            assert(s.take(i + 1) =~= s.take(i as int).push(s[i as int]));
            assert(s.take(i as int).push(s[i as int]).map_values(|a: SweepAlert| alert_notice(a))
                =~= s.take(i as int).map_values(|a: SweepAlert| alert_notice(a)).push(alert_notice(s[i as int])));
            assert(notices(ns@.push(note)) =~= notices(ns@).push(note@));
        }
        ns.push(note);
        i = i + 1;
    }
    ns
}

/// The digest notification for `alerts`.
pub fn digest_notification(alerts: &Vec<SweepAlert>) -> (n: Notification)
    ensures
        n@ == digest_notice(alerts@),
{
    let ghost s = alerts@;
    let flash_tier = String::from_str("FLASH");
    let priority_tier = String::from_str("PRIORITY");
    let flash: usize = count_of_tier(alerts, &flash_tier);
    let priority: usize = count_of_tier(alerts, &priority_tier);
    let title = if flash > 0 {
        String::from_str("🔴 GHOSTBLOODS FLASH DIGEST")
    } else {
        String::from_str("🟡 GHOSTBLOODS DIGEST")
    };
    let mut body = decimal_string(alerts.len() as u64);
    body.append(" alerts detected: ");
    push_decimal(&mut body, flash as u64);
    body.append(" FLASH, ");
    push_decimal(&mut body, priority as u64);
    body.append(" PRIORITY\n");
    let ghost head = body@;
    let named: usize = if alerts.len() < 3 { alerts.len() } else { 3 };
    let mut k: usize = 0;
    while k < named
        invariant
            k <= named,
            named == digest_named(s),
            named <= s.len(),
            s == alerts@,
            body@ == head + joined(alert_titles(s.take(k as int)), " • "@),
        decreases named - k,
    {
        proof {
            let prev = alert_titles(s.take(k as int));
            let next = alert_titles(s.take(k + 1));
            assert(next =~= prev.push(s[k as int].title@));
            assert(next.drop_last() =~= prev);
        }
        if k > 0 {
            body.append(" • ");
        }
        body.append(alerts[k].title.as_str());
        proof {
            let prev = alert_titles(s.take(k as int));
            let next = alert_titles(s.take(k + 1));
            if k == 0 {
                assert(prev.len() == 0);
                assert(joined(prev, " • "@) =~= Seq::<char>::empty());
                assert(joined(next, " • "@) == next[0]);
            }
        }
        k = k + 1;
    }
    Notification { title, body }
}

/// The notifications to show for `alerts`, given whether notifications are
/// muted, how many were sent within the last hour, and whether quiet hours
/// are in force.
pub fn plan_notifications(
    alerts: &Vec<SweepAlert>,
    settings: &NotifierSettings,
    muted: bool,
    recent_count: usize,
    quiet: bool,
) -> (ns: Vec<Notification>)
    ensures
        notices(ns@) == planned_notices(alerts@, *settings, muted, recent_count as nat, quiet),
{
    let limit: usize = settings.max_notifications_per_hour as usize;
    if muted || recent_count >= limit {
        let ns: Vec<Notification> = Vec::new();
        assert(notices(ns@) =~= Seq::<NotificationView>::empty());
        ns
    } else {
        let flash_tier = String::from_str("FLASH");
        let flash: Vec<SweepAlert>;
        let chosen: &Vec<SweepAlert> = if quiet {
            flash = alerts_of_tier(alerts, &flash_tier);
            &flash
        } else {
            alerts
        };
        assert(chosen@ == candidates(alerts@, quiet));
        if settings.digest_mode && chosen.len() > 3 {
            let digest = digest_notification(chosen);
            let mut ns: Vec<Notification> = Vec::new();
            ns.push(digest);
            assert(notices(ns@) =~= seq![digest@]);
            ns
        } else {
            let left: usize = limit - recent_count;
            let n: usize = if left < chosen.len() { left } else { chosen.len() };
            leading_notifications(chosen, n)
        }
    }
}

/// What sending the notifications for `alerts` at `now` does to a runtime
/// that was `before` and is `after`: the notifications `sent` are those
/// planned at `now`, each is recorded as sent at `now`, and the mute window
/// stays as it was.
pub open spec fn delivered_at(
    before: NotifierRuntime,
    after: NotifierRuntime,
    alerts: Seq<SweepAlert>,
    settings: NotifierSettings,
    now: u64,
    sent: Seq<NotificationView>,
) -> bool {
    &&& sent == planned_notices(
        alerts,
        settings,
        muted_at(before.mute_until, now),
        in_window(before.alert_timestamps@, now).len(),
        quiet_at(settings, now),
    )
    &&& after.alert_timestamps@ == recorded_window(before.alert_timestamps@, now, sent.len())
    &&& after.mute_until == before.mute_until
}

/// Plans the notifications for `alerts` at `now` and records each of them as
/// sent at `now`. Whenever anything is sent (after the epoch), the
/// notifications within the hour then stay within the hourly limit.
pub fn send_notifications_at(
    rt: &mut NotifierRuntime,
    alerts: &Vec<SweepAlert>,
    settings: &NotifierSettings,
    now: u64,
) -> (ns: Vec<Notification>)
    ensures
        delivered_at(*old(rt), *final(rt), alerts@, *settings, now, notices(ns@)),
        ns@.len() == notices(ns@).len(),
        now > 0 && ns@.len() > 0 ==> in_window(final(rt).alert_timestamps@, now).len()
            <= settings.max_notifications_per_hour,
{
    let muted: bool = rt.is_muted_at(now);
    let recent: usize = rt.recent_alert_count(now);
    let quiet: bool = is_quiet_hours_at(settings, now);
    let ns = plan_notifications(alerts, settings, muted, recent, quiet);
    rt.record_alerts_at(ns.len(), now);
    proof {
        if now > 0 {
            law_delivery_respects_hourly_limit(old(rt).alert_timestamps@, now, alerts@, *settings, muted, quiet);
        }
    }
    ns
}

/// The notifications to show for `alerts` now, recorded as sent: the clock
/// is read once, and that reading decides whether notifications are muted,
/// how many were sent within the last hour, whether quiet hours are in
/// force, and the time at which the notifications are recorded.
pub fn send_notifications(
    rt: &mut NotifierRuntime,
    alerts: &Vec<SweepAlert>,
    settings: &NotifierSettings,
) -> (ns: Vec<Notification>)
    ensures
        exists|now: u64| #[trigger] delivered_at(*old(rt), *final(rt), alerts@, *settings, now, notices(ns@)),
{
    let now: u64 = now_epoch();
    send_notifications_at(rt, alerts, settings, now)
}

} // verus!
