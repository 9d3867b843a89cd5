use vstd::prelude::*;
use crate::alerts::{alert_notice, candidates, digest_notice, flash_alerts, planned_notices, tier_title, SweepAlert};
use crate::runtime::{
    quiet_at,
    copies_of, in_quiet_window, in_window, lemma_filter_keeps_passing, lemma_window_and_copies_pass, mute_end,
    mute_outcome, muted_at, recorded_window, window_start,
};
use crate::settings::NotifierSettings;
use crate::sweep::{alert_hash_texts, hashes_after_sweep, MAX_KEPT_HASHES};
use crate::text::{decimal_text, digit_char, joined};
use crate::tray::{command_for, tray_layout, EntryView, TrayCommand};

verus! {

proof fn lemma_filter_idempotent(s: Seq<u64>, p: spec_fn(u64) -> bool)
    ensures
        s.filter(p).filter(p) == s.filter(p),
    decreases s.len(),
{
    reveal_with_fuel(Seq::filter, 1);
    if s.len() > 0 {
        lemma_filter_idempotent(s.drop_last(), p);
        if p(s.last()) {
            assert(s.filter(p).drop_last() =~= s.drop_last().filter(p));
        } else {
            assert(s.filter(p) == s.drop_last().filter(p));
        }
    } else {
        assert(s.filter(p) =~= s);
    }
}

/// Once unmuted, notifications are not muted at any time.
pub proof fn law_unmuted_never_muted(now: u64)
    ensures
        !muted_at(None, now),
{
}

/// A mute window of `secs` seconds that starts at `now` mutes exactly the
/// times before `now + secs`; in particular a window of positive length is
/// in force at once.
pub proof fn law_mute_window(now: u64, secs: u64, t: u64)
    requires
        now + secs <= u64::MAX,
    ensures
        muted_at(Some(mute_end(now, secs)), t) <==> t < now + secs,
        secs > 0 ==> muted_at(Some(mute_end(now, secs)), now),
{
}

/// A notification recorded at `now` counts against the hourly limit at
/// `now`, and every timestamp kept lies within the window ending at `now`.
/// (At the epoch itself the window is empty, so `now` is positive.)
pub proof fn law_recorded_alert_counts(ts: Seq<u64>, now: u64)
    requires
        now > 0,
    ensures
        in_window(in_window(ts.push(now), now), now).len() == in_window(ts, now).len() + 1,
        forall|i: int| 0 <= i < in_window(ts.push(now), now).len()
            ==> #[trigger] in_window(ts.push(now), now)[i] > window_start(now),
{
    let p = |t: u64| t > window_start(now);
    reveal_with_fuel(Seq::filter, 1);
    assert(ts.push(now).drop_last() =~= ts);
    assert(in_window(ts.push(now), now) == ts.filter(p).push(now));
    lemma_filter_idempotent(ts.push(now), p);
    assert forall|i: int| 0 <= i < in_window(ts.push(now), now).len()
        implies #[trigger] in_window(ts.push(now), now)[i] > window_start(now) by {
        ts.push(now).lemma_filter_pred(p, i);
    }
}

/// Recording `count` notifications at `now` adds exactly `count` to the
/// notifications counted within the window ending at `now` (at the epoch
/// itself the window is empty, so `now` is positive).
pub proof fn law_recording_counts(ts: Seq<u64>, now: u64, count: nat)
    requires
        now > 0,
    ensures
        in_window(recorded_window(ts, now, count), now).len() == in_window(ts, now).len() + count,
{
    let w = in_window(ts, now);
    if count == 0 {
        lemma_filter_idempotent(ts, |t: u64| t > window_start(now));
    } else {
        lemma_window_and_copies_pass(ts, now, count);
        lemma_filter_keeps_passing(w + copies_of(now, count), |t: u64| t > window_start(now));
    }
}

/// Sending a planned batch at `now` and recording each of its notifications
/// leaves at most the hourly limit within the window, whenever anything was
/// sent, quiet hours or not.
pub proof fn law_delivery_respects_hourly_limit(
    ts: Seq<u64>,
    now: u64,
    alerts: Seq<SweepAlert>,
    settings: NotifierSettings,
    muted: bool,
    quiet: bool,
)
    requires
        now > 0,
    ensures
        ({
            let planned = planned_notices(alerts, settings, muted, in_window(ts, now).len(), quiet);
            planned.len() == 0 || in_window(recorded_window(ts, now, planned.len()), now).len()
                <= settings.max_notifications_per_hour
        }),
{
    let planned = planned_notices(alerts, settings, muted, in_window(ts, now).len(), quiet);
    law_recording_counts(ts, now, planned.len());
    law_hourly_limit(alerts, settings, muted, in_window(ts, now).len(), quiet);
}

/// Nothing is sent while notifications are muted.
pub proof fn law_muted_sends_nothing(
    alerts: Seq<SweepAlert>,
    settings: NotifierSettings,
    recent: nat,
    quiet: bool,
)
    ensures
        planned_notices(alerts, settings, true, recent, quiet).len() == 0,
{
}

/// The notifications of one batch together with those already sent within
/// the hour never exceed the hourly limit, quiet hours or not.
pub proof fn law_hourly_limit(
    alerts: Seq<SweepAlert>,
    settings: NotifierSettings,
    muted: bool,
    recent: nat,
    quiet: bool,
)
    ensures
        ({
            let planned = planned_notices(alerts, settings, muted, recent, quiet);
            planned.len() == 0 || recent + planned.len() <= settings.max_notifications_per_hour
        }),
{
}

/// During quiet hours only FLASH alerts are announced: by one FLASH digest
/// in digest mode when there are more than three, else one notification per
/// FLASH alert, in order, up to what is left of the hourly limit.
pub proof fn law_quiet_hours_flash_only(alerts: Seq<SweepAlert>, settings: NotifierSettings, recent: nat)
    requires
        recent < settings.max_notifications_per_hour,
    ensures
        ({
            let planned = planned_notices(alerts, settings, false, recent, true);
            let flash = flash_alerts(alerts);
            if settings.digest_mode && flash.len() > 3 {
                &&& planned == seq![digest_notice(flash)]
                &&& planned[0].title == "🔴 GHOSTBLOODS FLASH DIGEST"@
            } else {
                &&& planned.len() <= flash.len()
                &&& forall|i: int| 0 <= i < planned.len() ==> {
                    &&& #[trigger] planned[i] == alert_notice(flash[i])
                    &&& planned[i].title == "🔴 GHOSTBLOODS FLASH"@
                }
            }
        }),
{
    let flash = flash_alerts(alerts);
    let p = |a: SweepAlert| a.tier@ == "FLASH"@;
    assert forall|i: int| 0 <= i < flash.len() implies p(#[trigger] flash[i]) by {
        alerts.lemma_filter_pred(p, i);
    }
    assert forall|i: int| 0 <= i < flash.len() implies tier_title(#[trigger] flash[i].tier@)
        == "🔴 GHOSTBLOODS FLASH"@ by {
        assert(p(flash[i]));
    }
    lemma_filter_keeps_passing(flash, p);
}

/// In digest mode and below the hourly limit, more than three candidate
/// alerts (all of them, or the FLASH ones during quiet hours) are announced
/// by a single digest notification.
pub proof fn law_digest_is_single(alerts: Seq<SweepAlert>, settings: NotifierSettings, recent: nat, quiet: bool)
    requires
        recent < settings.max_notifications_per_hour,
        settings.digest_mode,
        candidates(alerts, quiet).len() > 3,
    ensures
        planned_notices(alerts, settings, false, recent, quiet) == seq![digest_notice(candidates(alerts, quiet))],
{
}

/// After a sweep at most `MAX_KEPT_HASHES` hashes are kept, they are the
/// newest of the earlier hashes followed by the sweep's, and nothing is
/// dropped while there is room.
pub proof fn law_hash_retention(kept: Seq<Seq<char>>, alerts: Seq<SweepAlert>)
    ensures
        hashes_after_sweep(kept, alerts).len() <= MAX_KEPT_HASHES,
        hashes_after_sweep(kept, alerts).is_suffix_of(kept + alert_hash_texts(alerts)),
        (kept + alert_hash_texts(alerts)).len() <= MAX_KEPT_HASHES ==> hashes_after_sweep(kept, alerts)
            == kept + alert_hash_texts(alerts),
{
    let all = kept + alert_hash_texts(alerts);
    let h = hashes_after_sweep(kept, alerts);
    assert(all.subrange(all.len() - h.len(), all.len() as int) =~= h);
}

/// Quiet hours whose start equals their end are never in force.
pub proof fn law_empty_quiet_window(hours: int, hour: int)
    ensures
        !in_quiet_window(hours, hours, hour),
{
}

/// Quiet hours that wrap past midnight are in force exactly outside the
/// hours from their end to their start.
pub proof fn law_wrapping_quiet_window(start: int, end: int, hour: int)
    requires
        start > end,
    ensures
        in_quiet_window(start, end, hour) <==> !(end <= hour && hour < start),
{
}

/// Every enabled line of the tray menu, in the submenu too, answers to a
/// command, and the disabled separator to none.
pub proof fn law_tray_items_have_commands()
    ensures
        forall|i: int| 0 <= i < tray_layout().len() ==> match #[trigger] tray_layout()[i] {
            EntryView::Item(item) => item.enabled <==> command_for(item.id) is Some,
            EntryView::Submenu { label, items } => forall|j: int| 0 <= j < items.len()
                ==> (#[trigger] items[j].enabled <==> command_for(items[j].id) is Some),
        },
{
    reveal_strlit("open_dashboard");
    reveal_strlit("force_check");
    reveal_strlit("mute_1h");
    reveal_strlit("mute_8h");
    reveal_strlit("mute_24h");
    reveal_strlit("unmute");
    reveal_strlit("settings");
    reveal_strlit("quit");
    reveal_strlit("sep");
    assert("sep"@ != "open_dashboard"@) by { assert("sep"@.len() != "open_dashboard"@.len()); }
    assert("sep"@ != "force_check"@) by { assert("sep"@.len() != "force_check"@.len()); }
    assert("sep"@ != "mute_1h"@) by { assert("sep"@.len() != "mute_1h"@.len()); }
    assert("sep"@ != "mute_8h"@) by { assert("sep"@.len() != "mute_8h"@.len()); }
    assert("sep"@ != "mute_24h"@) by { assert("sep"@.len() != "mute_24h"@.len()); }
    assert("sep"@ != "unmute"@) by { assert("sep"@.len() != "unmute"@.len()); }
    assert("sep"@ != "settings"@) by { assert("sep"@.len() != "settings"@.len()); }
    assert("sep"@ != "quit"@) by { assert("sep"@.len() != "quit"@.len()); }
}

/// The tray's mute items ask for mutes of one, eight and 24 hours and its
/// unmute item for an unmute; a mute of any of those lengths from the clock
/// reading `now` applies whenever its end fits in a `u64`, and then mutes
/// exactly the times before `now` plus that length.
pub proof fn law_tray_mute_items(before: Option<u64>, now: u64, t: u64)
    ensures
        command_for("mute_1h"@) == Some(TrayCommand::Mute { secs: 3600 }),
        command_for("mute_8h"@) == Some(TrayCommand::Mute { secs: 28800 }),
        command_for("mute_24h"@) == Some(TrayCommand::Mute { secs: 86400 }),
        command_for("unmute"@) == Some(TrayCommand::Unmute),
        forall|secs: u64|
            (secs == 3600 || secs == 28800 || secs == 86400) && now + secs <= u64::MAX ==> {
                &&& #[trigger] mute_outcome(before, now, secs) == (true, Some((now + secs) as u64))
                &&& (muted_at(mute_outcome(before, now, secs).1, t) <==> t < now + secs)
            },
{
    reveal_strlit("open_dashboard");
    reveal_strlit("force_check");
    reveal_strlit("mute_1h");
    reveal_strlit("mute_8h");
    reveal_strlit("mute_24h");
    reveal_strlit("unmute");
    assert("mute_1h"@ != "open_dashboard"@) by { assert("mute_1h"@.len() != "open_dashboard"@.len()); }
    assert("mute_1h"@ != "force_check"@) by { assert("mute_1h"@.len() != "force_check"@.len()); }
    assert("mute_8h"@ != "open_dashboard"@) by { assert("mute_8h"@.len() != "open_dashboard"@.len()); }
    assert("mute_8h"@ != "force_check"@) by { assert("mute_8h"@.len() != "force_check"@.len()); }
    assert("mute_8h"@ != "mute_1h"@) by { assert("mute_8h"@[5] != "mute_1h"@[5]); }
    assert("mute_24h"@ != "open_dashboard"@) by { assert("mute_24h"@.len() != "open_dashboard"@.len()); }
    assert("mute_24h"@ != "force_check"@) by { assert("mute_24h"@.len() != "force_check"@.len()); }
    assert("mute_24h"@ != "mute_1h"@) by { assert("mute_24h"@.len() != "mute_1h"@.len()); }
    assert("mute_24h"@ != "mute_8h"@) by { assert("mute_24h"@.len() != "mute_8h"@.len()); }
    assert("unmute"@ != "open_dashboard"@) by { assert("unmute"@.len() != "open_dashboard"@.len()); }
    assert("unmute"@ != "force_check"@) by { assert("unmute"@.len() != "force_check"@.len()); }
    assert("unmute"@ != "mute_1h"@) by { assert("unmute"@.len() != "mute_1h"@.len()); }
    assert("unmute"@ != "mute_8h"@) by { assert("unmute"@.len() != "mute_8h"@.len()); }
    assert("unmute"@ != "mute_24h"@) by { assert("unmute"@.len() != "mute_24h"@.len()); }
}

/// Outside the digest case and below the hourly limit, a batch announces the
/// first `min(limit - recent, n)` of its `n` candidate alerts (all alerts, or
/// the FLASH ones during quiet hours), one notification each and in order:
/// the title names the alert's tier and the body is the alert's title, its
/// source and its score.
pub proof fn law_batch_announces_leading_candidates(
    alerts: Seq<SweepAlert>,
    settings: NotifierSettings,
    recent: nat,
    quiet: bool,
)
    requires
        recent < settings.max_notifications_per_hour,
        !(settings.digest_mode && (if quiet {
            alerts.filter(|a: SweepAlert| a.tier@ == "FLASH"@)
        } else {
            alerts
        }).len() > 3),
    ensures
        ({
            let chosen = if quiet { alerts.filter(|a: SweepAlert| a.tier@ == "FLASH"@) } else { alerts };
            let left = settings.max_notifications_per_hour - recent;
            let planned = planned_notices(alerts, settings, false, recent, quiet);
            &&& planned.len() == (if left < chosen.len() { left } else { chosen.len() as int })
            &&& forall|i: int| 0 <= i < planned.len() ==> {
                &&& (#[trigger] planned[i]).body == chosen[i].title@ + "\nSource: "@ + chosen[i].source@
                    + " • Score: "@ + chosen[i].score_text@
                &&& planned[i].title == (if chosen[i].tier@ == "FLASH"@ {
                    "🔴 GHOSTBLOODS FLASH"@
                } else if chosen[i].tier@ == "PRIORITY"@ {
                    "🟡 GHOSTBLOODS"@
                } else {
                    "🔵 GHOSTBLOODS"@
                })
            }
        }),
{
}

/// A digest is titled as a FLASH digest exactly when at least one of the
/// alerts it summarises has the FLASH tier, and as a plain digest otherwise.
pub proof fn law_digest_title_marks_flash(alerts: Seq<SweepAlert>)
    ensures
        digest_notice(alerts).title == (if exists|i: int| 0 <= i < alerts.len() && (#[trigger] alerts[i]).tier@
            == "FLASH"@ {
            "🔴 GHOSTBLOODS FLASH DIGEST"@
        } else {
            "🟡 GHOSTBLOODS DIGEST"@
        }),
{
    let p = |a: SweepAlert| a.tier@ == "FLASH"@;
    let flash = alerts.filter(p);
    if exists|i: int| 0 <= i < alerts.len() && (#[trigger] alerts[i]).tier@ == "FLASH"@ {
        let i = choose|i: int| 0 <= i < alerts.len() && (#[trigger] alerts[i]).tier@ == "FLASH"@;
        alerts.lemma_filter_contains(p, i);
        assert(flash.len() > 0);
    } else {
        if flash.len() > 0 {
            alerts.lemma_filter_pred(p, 0);
            assert(flash.contains(flash[0]));
            alerts.lemma_filter_contains_rev(p, flash[0]);
            let j = choose|j: int| 0 <= j < alerts.len() && alerts[j] == flash[0];
            assert(alerts[j].tier@ == "FLASH"@);
        }
    }
}

/// The notification for one alert, whatever its tier, has the alert's title
/// as its first line, followed by its source and score; its title names the
/// tier.
pub proof fn law_alert_notice_text(a: SweepAlert)
    ensures
        alert_notice(a).body == a.title@ + "\nSource: "@ + a.source@ + " • Score: "@ + a.score_text@,
        alert_notice(a).body.subrange(0, a.title@.len() as int) == a.title@,
        alert_notice(a).title == (if a.tier@ == "FLASH"@ {
            "🔴 GHOSTBLOODS FLASH"@
        } else if a.tier@ == "PRIORITY"@ {
            "🟡 GHOSTBLOODS"@
        } else {
            "🔵 GHOSTBLOODS"@
        }),
{
    let rest = "\nSource: "@ + a.source@ + " • Score: "@ + a.score_text@;
    assert(alert_notice(a).body =~= a.title@ + rest);
    assert((a.title@ + rest).subrange(0, a.title@.len() as int) =~= a.title@);
}

/// Quiet hours are in force exactly at the hours of their window: with both
/// bounds set, from the start hour up to (not including) the end hour of the
/// UTC day, wrapping past midnight when the start lies after the end; never
/// when a bound is missing.
pub proof fn law_quiet_hours_by_hour(settings: NotifierSettings, now: u64)
    ensures
        ({
            let hour = (now / 3600) as int % 24;
            match (settings.quiet_hours_start, settings.quiet_hours_end) {
                (Some(start), Some(end)) => quiet_at(settings, now) == (if start <= end {
                    start <= hour && hour < end
                } else {
                    !(end <= hour && hour < start)
                }),
                _ => !quiet_at(settings, now),
            }
        }),
{
}

/// Each mute item of the tray is labelled with the duration its click mutes
/// for, and the unmute item unmutes.
pub proof fn law_tray_mute_labels()
    ensures
        forall|i: int| 0 <= i < tray_layout().len() ==> match #[trigger] tray_layout()[i] {
            EntryView::Item(_) => true,
            EntryView::Submenu { label, items } => forall|j: int| 0 <= j < items.len() ==> {
                &&& (#[trigger] items[j]).label == "1 Hour"@ ==> command_for(items[j].id) == Some(
                    TrayCommand::Mute { secs: 3600 },
                )
                &&& items[j].label == "8 Hours"@ ==> command_for(items[j].id) == Some(
                    TrayCommand::Mute { secs: 28800 },
                )
                &&& items[j].label == "24 Hours"@ ==> command_for(items[j].id) == Some(
                    TrayCommand::Mute { secs: 86400 },
                )
                &&& items[j].label == "🔔  Unmute"@ ==> command_for(items[j].id) == Some(TrayCommand::Unmute)
            },
        },
{
    law_tray_mute_items(None, 0, 0);
    reveal_strlit("1 Hour");
    reveal_strlit("8 Hours");
    reveal_strlit("24 Hours");
    reveal_strlit("🔔  Unmute");
    assert("1 Hour"@ != "8 Hours"@) by { assert("1 Hour"@.len() != "8 Hours"@.len()); }
    assert("1 Hour"@ != "24 Hours"@) by { assert("1 Hour"@.len() != "24 Hours"@.len()); }
    assert("1 Hour"@ != "🔔  Unmute"@) by { assert("1 Hour"@.len() != "🔔  Unmute"@.len()); }
    assert("8 Hours"@ != "24 Hours"@) by { assert("8 Hours"@.len() != "24 Hours"@.len()); }
    assert("8 Hours"@ != "🔔  Unmute"@) by { assert("8 Hours"@.len() != "🔔  Unmute"@.len()); }
    assert("24 Hours"@ != "🔔  Unmute"@) by { assert("24 Hours"@.len() != "🔔  Unmute"@.len()); }
}

/// The number that a string of decimal digits denotes.
pub open spec fn decimal_value(digits: Seq<char>) -> int
    decreases digits.len(),
{
    if digits.len() == 0 {
        0
    } else {
        decimal_value(digits.drop_last()) * 10 + (digits.last() as int - '0' as int)
    }
}

/// The decimal rendering of a number consists of digits only, has no
/// leading zero unless it is the number zero itself, and denotes the number.
pub proof fn law_decimal_text_denotes(n: nat)
    ensures
        decimal_value(decimal_text(n)) == n,
        decimal_text(n).len() >= 1,
        forall|i: int| 0 <= i < decimal_text(n).len() ==> '0' <= #[trigger] decimal_text(n)[i] <= '9',
        decimal_text(n).len() > 1 ==> decimal_text(n)[0] != '0',
    decreases n,
{
    let d = n % 10;
    assert(digit_char(d) as int - '0' as int == d);
    assert(decimal_text(n).last() == digit_char(d));
    assert((n / 10) * 10 + n % 10 == n);
    assert(decimal_text(n).len() >= 1);
    assert(decimal_value(decimal_text(n)) == decimal_value(decimal_text(n).drop_last()) * 10
        + (decimal_text(n).last() as int - '0' as int));
    if n < 10 {
        assert(decimal_text(n).drop_last() =~= Seq::<char>::empty());
    }
    if n >= 10 {
        law_decimal_text_denotes(n / 10);
        let prev = decimal_text(n / 10);
        assert(decimal_text(n).drop_last() =~= prev);
        assert(decimal_value(prev) == n / 10);
        assert forall|i: int| 0 <= i < decimal_text(n).len() implies '0' <= #[trigger] decimal_text(n)[i] <= '9' by {
            if i < prev.len() {
                assert(decimal_text(n)[i] == prev[i]);
            }
        }
        if prev.len() == 1 {
            assert(decimal_value(prev) == n / 10);
            assert(decimal_value(prev.drop_last()) == 0);
            assert(prev[0] != '0');
        }
        assert(decimal_text(n)[0] == prev[0]);
    }
}

/// A digest's text counts the alerts, the FLASH ones and the PRIORITY ones,
/// and then names the titles of the first three alerts (fewer if there are
/// fewer), in order.
pub proof fn law_digest_body_counts(alerts: Seq<SweepAlert>)
    ensures
        ({
            let named = if alerts.len() < 3 { alerts.len() as int } else { 3 };
            digest_notice(alerts).body == decimal_text(alerts.len()) + " alerts detected: "@ + decimal_text(
                alerts.filter(|a: SweepAlert| a.tier@ == "FLASH"@).len(),
            ) + " FLASH, "@ + decimal_text(alerts.filter(|a: SweepAlert| a.tier@ == "PRIORITY"@).len())
                + " PRIORITY\n"@ + joined(
                alerts.take(named).map_values(|a: SweepAlert| a.title@),
                " • "@,
            )
        }),
{
}

} // verus!
