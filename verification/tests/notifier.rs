use ghostbloods::alerts::{
    alert_notification, count_of_tier, digest_notification, plan_notifications, send_notifications, send_notifications_at, Notification,
    SweepAlert,
};
use ghostbloods::clock::{chrono_now, now_epoch};
use ghostbloods::runtime::{
    is_muted, is_quiet_hours, is_quiet_hours_at, mute_for, record_alert, record_alerts, unmute, NotifierRuntime,
};
use ghostbloods::settings::{NotifierSettings, NotifierState};
use ghostbloods::text::decimal_string;

fn alert(title: &str, tier: &str, hash: Option<&str>) -> SweepAlert {
    SweepAlert {
        title: title.to_string(),
        tier: tier.to_string(),
        source: "GDELT".to_string(),
        score_text: "12".to_string(),
        hash: hash.map(|h| h.to_string()),
    }
}

fn titles(ns: &[Notification]) -> Vec<String> {
    ns.iter().map(|n| n.title.clone()).collect()
}

fn settings_with(max: u8, digest: bool) -> NotifierSettings {
    let mut s = NotifierSettings::default();
    s.max_notifications_per_hour = max;
    s.digest_mode = digest;
    s
}

#[test]
fn decimal_rendering() {
    assert_eq!(decimal_string(0), "0");
    assert_eq!(decimal_string(7), "7");
    assert_eq!(decimal_string(10), "10");
    assert_eq!(decimal_string(1725029869), "1725029869");
    assert_eq!(decimal_string(u64::MAX), "18446744073709551615");
}

#[test]
fn default_settings_match_documentation() {
    let s = NotifierSettings::default();
    assert_eq!(s.interval_minutes, 45);
    assert_eq!(s.threshold, 8);
    assert_eq!(s.max_notifications_per_hour, 3);
    assert!(s.digest_mode);
    assert_eq!(s.quiet_hours_start, None);
    assert_eq!(s.quiet_hours_end, None);
    assert_eq!(s.watchlist_keywords, vec!["nuclear", "missile", "invasion", "sanctions"]);
    assert_eq!(s.watchlist_regions, vec!["Ukraine", "Taiwan", "Middle East", "South China Sea"]);
}

#[test]
fn default_state_is_empty() {
    let st = NotifierState::default();
    assert_eq!(st.last_sweep, None);
    assert!(st.alert_hashes.is_empty());
    assert_eq!(st.settings.interval_minutes, 45);
}

#[test]
fn mute_window_covers_times_before_its_end() {
    let mut rt = NotifierRuntime::new();
    assert!(!rt.is_muted_at(1000));
    rt.mute_at(1000, 3600);
    assert_eq!(rt.mute_until, Some(4600));
    assert!(rt.is_muted_at(1000));
    assert!(rt.is_muted_at(4599));
    assert!(!rt.is_muted_at(4600));
}

#[test]
fn unmute_ends_any_mute() {
    let mut rt = NotifierRuntime::new();
    assert!(mute_for(&mut rt, 3600));
    assert!(is_muted(&rt));
    unmute(&mut rt);
    assert_eq!(rt.mute_until, None);
    assert!(!is_muted(&rt));
    assert!(!rt.is_muted_at(0));
}

#[test]
fn mute_for_refuses_an_end_past_the_clock_range() {
    let mut rt = NotifierRuntime::new();
    rt.mute_until = Some(5);
    assert!(!mute_for(&mut rt, u64::MAX));
    assert_eq!(rt.mute_until, Some(5));
}

#[test]
fn record_alert_keeps_last_hour() {
    let mut rt = NotifierRuntime::new();
    rt.alert_timestamps = vec![100, 5000, 6000];
    rt.record_alert_at(9000, 9000);
    // window starts at 5400: 100 and 5000 are dropped
    assert_eq!(rt.alert_timestamps, vec![6000, 9000]);
    assert_eq!(rt.recent_alert_count(9000), 2);
    assert_eq!(rt.recent_alert_count(9600), 1);
    assert_eq!(rt.recent_alert_count(20000), 0);
}

#[test]
fn record_alert_near_epoch_window() {
    let mut rt = NotifierRuntime::new();
    rt.record_alert_at(0, 0);
    assert!(rt.alert_timestamps.is_empty());
    rt.record_alert_at(10, 10);
    assert_eq!(rt.alert_timestamps, vec![10]);
    assert_eq!(rt.recent_alert_count(10), 1);
}

#[test]
fn recorded_alert_counts_now() {
    let mut rt = NotifierRuntime::new();
    let before = rt.recent_alert_count(now_epoch());
    record_alert(&mut rt);
    assert_eq!(rt.alert_timestamps.len(), 1);
    assert_eq!(rt.recent_alert_count(now_epoch()), before + 1);
}

#[test]
fn quiet_hours_wrap_midnight() {
    let mut s = NotifierSettings::default();
    s.quiet_hours_start = Some(22);
    s.quiet_hours_end = Some(7);
    assert!(is_quiet_hours_at(&s, 23 * 3600));
    assert!(is_quiet_hours_at(&s, 3 * 3600 + 59));
    assert!(!is_quiet_hours_at(&s, 7 * 3600));
    assert!(!is_quiet_hours_at(&s, 12 * 3600));
    assert!(is_quiet_hours_at(&s, 86400 + 22 * 3600));
}

#[test]
fn quiet_hours_same_day_window() {
    let mut s = NotifierSettings::default();
    s.quiet_hours_start = Some(9);
    s.quiet_hours_end = Some(17);
    assert!(!is_quiet_hours_at(&s, 8 * 3600 + 3599));
    assert!(is_quiet_hours_at(&s, 9 * 3600));
    assert!(is_quiet_hours_at(&s, 16 * 3600));
    assert!(!is_quiet_hours_at(&s, 17 * 3600));
}

#[test]
fn quiet_hours_need_both_bounds() {
    let mut s = NotifierSettings::default();
    assert!(!is_quiet_hours(&s));
    s.quiet_hours_start = Some(0);
    assert!(!is_quiet_hours_at(&s, 3600));
    s.quiet_hours_end = Some(0);
    assert!(!is_quiet_hours_at(&s, 3600));
    assert!(!is_quiet_hours(&s));
}

#[test]
fn single_notification_texts_by_tier() {
    let n = alert_notification(&alert("Missile strike", "FLASH", None));
    assert_eq!(n.title, "🔴 GHOSTBLOODS FLASH");
    assert_eq!(n.body, "Missile strike\nSource: GDELT • Score: 12");
    let n = alert_notification(&alert("Sanctions", "PRIORITY", None));
    assert_eq!(n.title, "🟡 GHOSTBLOODS");
    let n = alert_notification(&alert("Other", "ROUTINE", None));
    assert_eq!(n.title, "🔵 GHOSTBLOODS");
}

#[test]
fn digest_summarises_counts_and_first_titles() {
    let alerts = vec![
        alert("A", "PRIORITY", None),
        alert("B", "FLASH", None),
        alert("C", "PRIORITY", None),
        alert("D", "FLASH", None),
        alert("E", "ROUTINE", None),
    ];
    assert_eq!(count_of_tier(&alerts, &"FLASH".to_string()), 2);
    let n = digest_notification(&alerts);
    assert_eq!(n.title, "🔴 GHOSTBLOODS FLASH DIGEST");
    assert_eq!(n.body, "5 alerts detected: 2 FLASH, 2 PRIORITY\nA • B • C");
}

#[test]
fn digest_without_flash() {
    let alerts = vec![alert("A", "PRIORITY", None), alert("B", "ROUTINE", None)];
    let n = digest_notification(&alerts);
    assert_eq!(n.title, "🟡 GHOSTBLOODS DIGEST");
    assert_eq!(n.body, "2 alerts detected: 0 FLASH, 1 PRIORITY\nA • B");
}

#[test]
fn muted_plan_is_empty() {
    let alerts = vec![alert("A", "FLASH", None)];
    let s = settings_with(3, true);
    assert!(plan_notifications(&alerts, &s, true, 0, false).is_empty());
    assert!(plan_notifications(&alerts, &s, true, 0, true).is_empty());
}

#[test]
fn rate_limited_plan_is_empty() {
    let alerts = vec![alert("A", "FLASH", None)];
    let s = settings_with(3, true);
    assert!(plan_notifications(&alerts, &s, false, 3, false).is_empty());
    assert!(plan_notifications(&alerts, &s, false, 4, true).is_empty());
}

#[test]
fn quiet_hours_only_flash() {
    let alerts = vec![
        alert("A", "PRIORITY", None),
        alert("B", "FLASH", None),
        alert("C", "FLASH", None),
        alert("D", "PRIORITY", None),
    ];
    let s = settings_with(3, true);
    let plan = plan_notifications(&alerts, &s, false, 0, true);
    assert_eq!(titles(&plan), vec!["🔴 GHOSTBLOODS FLASH", "🔴 GHOSTBLOODS FLASH"]);
    assert_eq!(plan[0].body, "B\nSource: GDELT • Score: 12");
    assert_eq!(plan[1].body, "C\nSource: GDELT • Score: 12");
    let none = plan_notifications(&vec![alert("A", "PRIORITY", None)], &s, false, 0, true);
    assert!(none.is_empty());
}

#[test]
fn quiet_hours_respect_hourly_limit() {
    let alerts = vec![alert("A", "FLASH", None), alert("B", "FLASH", None), alert("C", "FLASH", None)];
    let plan = plan_notifications(&alerts, &settings_with(3, false), false, 2, true);
    assert_eq!(plan.len(), 1);
    assert_eq!(plan[0].body, "A\nSource: GDELT • Score: 12");
}

#[test]
fn quiet_hours_digest_of_flash_alerts() {
    let alerts = vec![
        alert("P", "PRIORITY", None),
        alert("A", "FLASH", None),
        alert("B", "FLASH", None),
        alert("C", "FLASH", None),
        alert("D", "FLASH", None),
        alert("E", "FLASH", None),
    ];
    let plan = plan_notifications(&alerts, &settings_with(3, true), false, 2, true);
    assert_eq!(titles(&plan), vec!["🔴 GHOSTBLOODS FLASH DIGEST"]);
    assert_eq!(plan[0].body, "5 alerts detected: 5 FLASH, 0 PRIORITY\nA • B • C");
}

#[test]
fn digest_for_more_than_three() {
    let alerts = vec![
        alert("A", "PRIORITY", None),
        alert("B", "PRIORITY", None),
        alert("C", "PRIORITY", None),
        alert("D", "PRIORITY", None),
    ];
    let s = settings_with(3, true);
    let plan = plan_notifications(&alerts, &s, false, 2, false);
    assert_eq!(titles(&plan), vec!["🟡 GHOSTBLOODS DIGEST"]);
    assert_eq!(plan[0].body, "4 alerts detected: 0 FLASH, 4 PRIORITY\nA • B • C");
}

#[test]
fn individual_up_to_remaining() {
    let alerts = vec![
        alert("A", "FLASH", None),
        alert("B", "PRIORITY", None),
        alert("C", "ROUTINE", None),
        alert("D", "ROUTINE", None),
    ];
    let s = settings_with(3, false);
    let plan = plan_notifications(&alerts, &s, false, 1, false);
    assert_eq!(titles(&plan), vec!["🔴 GHOSTBLOODS FLASH", "🟡 GHOSTBLOODS"]);
    let three = plan_notifications(&alerts[..3].to_vec(), &settings_with(3, true), false, 0, false);
    assert_eq!(three.len(), 3);
    assert_eq!(three[2].title, "🔵 GHOSTBLOODS");
}

#[test]
fn send_notifications_with_fresh_runtime() {
    let mut rt = NotifierRuntime::new();
    let alerts = vec![alert("A", "FLASH", None), alert("B", "PRIORITY", None)];
    let s = settings_with(3, true);
    let sent = send_notifications(&mut rt, &alerts, &s);
    assert_eq!(titles(&sent), vec!["🔴 GHOSTBLOODS FLASH", "🟡 GHOSTBLOODS"]);
    assert_eq!(rt.alert_timestamps.len(), 2);
    let more = send_notifications(&mut rt, &alerts, &s);
    assert_eq!(more.len(), 1);
    assert_eq!(rt.alert_timestamps.len(), 3);
    assert!(send_notifications(&mut rt, &alerts, &s).is_empty());
}

#[test]
fn send_notifications_while_muted() {
    let mut rt = NotifierRuntime::new();
    assert!(mute_for(&mut rt, 3600));
    let alerts = vec![alert("A", "FLASH", None)];
    assert!(send_notifications(&mut rt, &alerts, &settings_with(3, true)).is_empty());
    assert!(rt.alert_timestamps.is_empty());
}

#[test]
fn clock_reads_current_epoch() {
    let now = now_epoch();
    assert!(now > 1_600_000_000);
    let stamp = chrono_now();
    let parsed: u64 = stamp.parse().unwrap();
    assert!(parsed >= now);
}

#[test]
fn delivery_stays_within_hourly_limit() {
    let mut rt = NotifierRuntime::new();
    let now = 100_000;
    rt.record_alert_at(now - 10, now - 10);
    let alerts = vec![
        alert("A", "PRIORITY", None),
        alert("B", "PRIORITY", None),
        alert("C", "PRIORITY", None),
    ];
    let s = settings_with(3, false);
    let recent = rt.recent_alert_count(now);
    let plan = plan_notifications(&alerts, &s, false, recent, false);
    assert_eq!(plan.len(), 2);
    for _ in &plan {
        rt.record_alert_at(now, now);
    }
    assert_eq!(rt.recent_alert_count(now), 3);
    let again = plan_notifications(&alerts, &s, false, rt.recent_alert_count(now), false);
    assert!(again.is_empty());
}

#[test]
fn recording_several_keeps_window_and_adds_copies() {
    let mut rt = NotifierRuntime::new();
    rt.alert_timestamps = vec![100, 6000];
    rt.record_alerts_at(0, 9000);
    assert_eq!(rt.alert_timestamps, vec![100, 6000]);
    rt.record_alerts_at(3, 9000);
    assert_eq!(rt.alert_timestamps, vec![6000, 9000, 9000, 9000]);
    let mut at_epoch = NotifierRuntime::new();
    at_epoch.alert_timestamps = vec![0, 5];
    at_epoch.record_alerts_at(2, 0);
    assert_eq!(at_epoch.alert_timestamps, vec![5]);
}

#[test]
fn recording_several_by_the_clock() {
    let mut rt = NotifierRuntime::new();
    record_alerts(&mut rt, 2);
    assert_eq!(rt.alert_timestamps.len(), 2);
    assert_eq!(rt.recent_alert_count(now_epoch()), 2);
    record_alerts(&mut rt, 0);
    assert_eq!(rt.alert_timestamps.len(), 2);
}

#[test]
fn send_at_one_reading_plans_and_records() {
    let mut rt = NotifierRuntime::new();
    rt.alert_timestamps = vec![100, 9_500];
    let alerts = vec![
        alert("A", "PRIORITY", None),
        alert("B", "PRIORITY", None),
        alert("C", "PRIORITY", None),
    ];
    let sent = send_notifications_at(&mut rt, &alerts, &settings_with(3, false), 10_000);
    assert_eq!(sent.len(), 2);
    assert_eq!(rt.alert_timestamps, vec![9_500, 10_000, 10_000]);
    assert_eq!(rt.recent_alert_count(10_000), 3);
}

#[test]
fn try_mute_applies_only_when_the_end_fits() {
    let mut rt = NotifierRuntime::new();
    assert!(rt.try_mute_at(50, 86_400));
    assert_eq!(rt.mute_until, Some(86_450));
    assert!(!rt.try_mute_at(u64::MAX - 10, 3600));
    assert_eq!(rt.mute_until, Some(86_450));
    assert!(rt.try_mute_at(u64::MAX, 0));
    assert_eq!(rt.mute_until, Some(u64::MAX));
}
