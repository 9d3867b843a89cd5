use vstd::prelude::*;
use crate::alerts::{delivered_at, notices, send_notifications, Notification, SweepAlert};
use crate::clock::chrono_now;
use crate::engine::{is_engine_running, EngineTracker};
use crate::runtime::NotifierRuntime;
use crate::settings::{NotifierSettings, NotifierState};
use crate::text::{decimal_text, opt_text, push_decimal, texts};

verus! {

/// How many alert hashes the persisted state keeps.
pub const MAX_KEPT_HASHES: usize = 500;

/// Delay before the first background sweep, in seconds.
pub const INITIAL_SWEEP_DELAY_SECS: u64 = 30;

/// How a lite sweep ended.
#[derive(Debug, PartialEq, Eq)]
pub enum SweepOutcome {
    /// Notifications are muted; no sweep was run.
    Muted,
    /// The sweep script was not found at the given location.
    ScriptMissing(String),
    /// The sweep process reported failure, with its error output.
    ProcessFailed(String),
    /// Some other step failed, with the error's message.
    Failed(String),
    /// The sweep ran but its output was not a sweep result; its length in bytes.
    Unparsed { raw_len: usize },
    /// The sweep ran and reported `alert_count` alerts out of `total_items` items.
    Completed { alert_count: usize, total_items: u32 },
}

/// The result of a parsed sweep: what to show, and the state to persist if
/// it changed.
pub struct SweepCompletion {
    pub notifications: Vec<Notification>,
    pub updated_state: Option<NotifierState>,
    pub outcome: SweepOutcome,
}

/// One turn of the background loop: whether to sweep, and how long to sleep after.
#[derive(Debug, Clone, Copy, PartialEq, Eq, Structural)]
pub struct BackgroundTick {
    pub run_sweep: bool,
    pub sleep_secs: Option<u64>,
}

/// The hashes of the alerts that carry one, in order.
pub open spec fn alert_hash_texts(alerts: Seq<SweepAlert>) -> Seq<Seq<char>>
    decreases alerts.len(),
{
    if alerts.len() == 0 {
        Seq::empty()
    } else {
        let prev = alert_hash_texts(alerts.drop_last());
        match alerts.last().hash {
            Some(h) => prev.push(h@),
            None => prev,
        }
    }
}

/// The last `n` elements of `s`, or all of them when there are no more than `n`.
pub open spec fn newest(s: Seq<Seq<char>>, n: nat) -> Seq<Seq<char>> {
    if s.len() > n {
        s.subrange(s.len() - n, s.len() as int)
    } else {
        s
    }
}

/// The hashes kept after a sweep that reported `alerts`.
pub open spec fn hashes_after_sweep(kept: Seq<Seq<char>>, alerts: Seq<SweepAlert>) -> Seq<Seq<char>> {
    newest(kept + alert_hash_texts(alerts), MAX_KEPT_HASHES as nat)
}

/// The message or error text that reports a sweep outcome.
pub open spec fn report_of(outcome: SweepOutcome) -> Result<Seq<char>, Seq<char>> {
    match outcome {
        SweepOutcome::Muted => Ok("Muted — skipping"@),
        SweepOutcome::ScriptMissing(location) => Err("Sweep script not found: "@ + location@),
        SweepOutcome::ProcessFailed(stderr) => Err("Lite sweep failed: "@ + stderr@),
        SweepOutcome::Failed(message) => Err(message@),
        SweepOutcome::Unparsed { raw_len } => Ok(
            "Sweep completed (raw output: "@ + decimal_text(raw_len as nat) + " bytes)"@,
        ),
        SweepOutcome::Completed { alert_count, total_items } => Ok(
            decimal_text(alert_count as nat) + " alerts from "@ + decimal_text(total_items as nat)
                + " items"@,
        ),
    }
}

/// The text view of a report.
pub open spec fn report_text(r: Result<String, String>) -> Result<Seq<char>, Seq<char>> {
    match r {
        Ok(s) => Ok(s@),
        Err(e) => Err(e@),
    }
}

/// The message that a sweep outcome is reported with: `Ok` for a sweep that
/// ran or was skipped, `Err` for a failure.
pub fn sweep_report(outcome: &SweepOutcome) -> (report: Result<String, String>)
    ensures
        report_text(report) == report_of(*outcome),
{
    match outcome {
        SweepOutcome::Muted => Ok(String::from_str("Muted — skipping")),
        SweepOutcome::ScriptMissing(location) => {
            let mut s = String::from_str("Sweep script not found: ");
            s.append(location.as_str());
            Err(s)
        },
        SweepOutcome::ProcessFailed(stderr) => {
            let mut s = String::from_str("Lite sweep failed: ");
            s.append(stderr.as_str());
            Err(s)
        },
        SweepOutcome::Failed(message) => Err(message.clone()),
        SweepOutcome::Unparsed { raw_len } => {
            let mut s = String::from_str("Sweep completed (raw output: ");
            push_decimal(&mut s, *raw_len as u64);
            s.append(" bytes)");
            Ok(s)
        },
        SweepOutcome::Completed { alert_count, total_items } => {
            let mut s = String::new();
            push_decimal(&mut s, *alert_count as u64);
            s.append(" alerts from ");
            push_decimal(&mut s, *total_items as u64);
            s.append(" items");
            proof {
                assert(s@ =~= decimal_text(*alert_count as nat) + " alerts from "@ + decimal_text(
                    *total_items as nat,
                ) + " items"@);
            }
            Ok(s)
        },
    }
}

/// Appends the hashes of `alerts`, in order, to `hashes`.
fn push_alert_hashes(hashes: &mut Vec<String>, alerts: &Vec<SweepAlert>)
    ensures
        texts(final(hashes)@) == texts(old(hashes)@) + alert_hash_texts(alerts@),
{
    let ghost start = texts(hashes@);
    let ghost s = alerts@;
    let mut i: usize = 0;
    while i < alerts.len()
        invariant
            i <= s.len(),
            s == alerts@,
            texts(hashes@) == start + alert_hash_texts(s.take(i as int)),
        decreases s.len() - i,
    {
        proof {
            assert(s.take(i + 1).drop_last() =~= s.take(i as int));
            assert(s.take(i + 1).last() == s[i as int]);
        }
        match &alerts[i].hash {
            Some(h) => {
                let copy = h.clone();
                proof {
                    assert(texts(hashes@.push(copy)) =~= texts(hashes@).push(copy@));
                    assert(start + alert_hash_texts(s.take(i as int)).push(h@) =~= (start
                        + alert_hash_texts(s.take(i as int))).push(h@));
                }
                hashes.push(copy);
            },
            None => {},
        }
        i = i + 1;
    }
    assert(s.take(s.len() as int) =~= s);
}

/// The persisted state after a sweep at `swept_at` that reported `alerts`:
/// the sweep time is recorded and the alerts' hashes are appended, keeping
/// only the newest `MAX_KEPT_HASHES`.
pub fn record_sweep(state: NotifierState, alerts: &Vec<SweepAlert>, swept_at: String) -> (updated: NotifierState)
    ensures
        opt_text(updated.last_sweep) == Some(swept_at@),
        texts(updated.alert_hashes@) == hashes_after_sweep(texts(state.alert_hashes@), alerts@),
        updated.settings == state.settings,
{
    let NotifierState { last_sweep: _, alert_hashes, settings } = state;
    let mut hashes = alert_hashes;
    push_alert_hashes(&mut hashes, alerts);
    let len: usize = hashes.len();
    if len > MAX_KEPT_HASHES {
        let ghost all = hashes@;
        let newest_part = hashes.split_off(len - MAX_KEPT_HASHES);
        proof {
            assert(texts(newest_part@) =~= texts(all).subrange(
                texts(all).len() - MAX_KEPT_HASHES,
                texts(all).len() as int,
            ));
        }
        hashes = newest_part;
    }
    NotifierState { last_sweep: Some(swept_at), alert_hashes: hashes, settings }
}

/// What finishing a sweep whose output parsed as `alerts` out of
/// `total_items` items gives, for a runtime that was `before` and is `after`:
/// the counts are reported; with no alerts nothing is shown, recorded or
/// saved; otherwise the notifications are those planned at one clock reading
/// and recorded as sent then, and the state records some sweep time and the
/// alerts' hashes.
pub open spec fn completes_sweep(
    before: NotifierRuntime,
    after: NotifierRuntime,
    state: NotifierState,
    alerts: Seq<SweepAlert>,
    total_items: u32,
    done: SweepCompletion,
) -> bool {
    &&& done.outcome == (SweepOutcome::Completed { alert_count: alerts.len() as usize, total_items })
    &&& alerts.len() == 0 ==> done.notifications@.len() == 0 && done.updated_state is None
        && after.alert_timestamps@ == before.alert_timestamps@ && after.mute_until == before.mute_until
    &&& alerts.len() > 0 ==> exists|now: u64|
        #[trigger] delivered_at(before, after, alerts, state.settings, now, notices(done.notifications@))
    &&& alerts.len() > 0 ==> (done.updated_state matches Some(u) && u.settings == state.settings
        && texts(u.alert_hashes@) == hashes_after_sweep(texts(state.alert_hashes@), alerts)
        && exists|t: u64| opt_text(u.last_sweep) == Some(#[trigger] decimal_text(t as nat)))
}

/// Finishes a sweep whose output parsed as `alerts` out of `total_items`
/// items: when there are alerts, the notifications to show are planned by the
/// clock (see `send_notifications`) and the state is updated with the current
/// time; the outcome reports the counts.
pub fn process_sweep_result(
    rt: &mut NotifierRuntime,
    state: NotifierState,
    alerts: &Vec<SweepAlert>,
    total_items: u32,
) -> (done: SweepCompletion)
    ensures
        completes_sweep(*old(rt), *final(rt), state, alerts@, total_items, done),
{
    let outcome = SweepOutcome::Completed { alert_count: alerts.len(), total_items };
    if alerts.len() == 0 {
        SweepCompletion { notifications: Vec::new(), updated_state: None, outcome }
    } else {
        let ghost before = *rt;
        let ghost settings = state.settings;
        let notifications = send_notifications(rt, alerts, &state.settings);
        let ghost t: u64 = choose|t: u64| delivered_at(before, *rt, alerts@, settings, t, notices(notifications@));
        let stamp = chrono_now();
        let updated = record_sweep(state, alerts, stamp);
        let done = SweepCompletion { notifications, updated_state: Some(updated), outcome };
        assert(delivered_at(*old(rt), *final(rt), alerts@, settings, t, notices(done.notifications@)));
        done
    }
}

/// One turn of the background loop: sweep unless the dashboard engine is
/// running, then sleep for the configured interval; no sleep length is given
/// when the interval in seconds does not fit in a `u64`.
pub fn plan_background_tick(settings: &NotifierSettings, engine: &EngineTracker) -> (tick: BackgroundTick)
    ensures
        tick.run_sweep == engine.pid is None,
        tick.sleep_secs == (if settings.interval_minutes * 60 <= u64::MAX {
            Some((settings.interval_minutes * 60) as u64)
        } else {
            None
        }),
{
    let running: bool = is_engine_running(engine);
    BackgroundTick { run_sweep: !running, sleep_secs: settings.interval_minutes.checked_mul(60) }
}

/// What the caller does next during a lite sweep.
#[derive(Debug, PartialEq, Eq)]
pub enum SweepAction {
    /// Look for the sweep script.
    LocateScript,
    /// Hand the persisted state to the script and run it.
    RunScript,
    /// Read the script's output as a sweep result.
    ReadOutput,
    /// The sweep is over.
    Finish(SweepOutcome),
}

/// How running the sweep script went.
#[derive(Debug, PartialEq, Eq)]
pub enum ScriptRun {
    /// The script could not be run; the error's message.
    NotRun(String),
    /// The script ran and exited, successfully or not, with its error output.
    Exited { success: bool, stderr: String },
}

/// The first step of a lite sweep: nothing is run while notifications are muted.
pub fn sweep_begin(muted: bool) -> (action: SweepAction)
    ensures
        action == (if muted { SweepAction::Finish(SweepOutcome::Muted) } else { SweepAction::LocateScript }),
{
    if muted {
        SweepAction::Finish(SweepOutcome::Muted)
    } else {
        SweepAction::LocateScript
    }
}

/// After looking for the sweep script at `location`.
pub fn sweep_after_locate(found: bool, location: String) -> (action: SweepAction)
    ensures
        action == (if found { SweepAction::RunScript } else { SweepAction::Finish(SweepOutcome::ScriptMissing(location)) }),
{
    if found {
        SweepAction::RunScript
    } else {
        SweepAction::Finish(SweepOutcome::ScriptMissing(location))
    }
}

/// After running the sweep script: its output is read only when it ran and
/// exited successfully.
pub fn sweep_after_run(run: ScriptRun) -> (action: SweepAction)
    ensures
        action == (match run {
            ScriptRun::NotRun(message) => SweepAction::Finish(SweepOutcome::Failed(message)),
            ScriptRun::Exited { success, stderr } => if success {
                SweepAction::ReadOutput
            } else {
                SweepAction::Finish(SweepOutcome::ProcessFailed(stderr))
            },
        }),
{
    match run {
        ScriptRun::NotRun(message) => SweepAction::Finish(SweepOutcome::Failed(message)),
        ScriptRun::Exited { success, stderr } => {
            if success {
                SweepAction::ReadOutput
            } else {
                SweepAction::Finish(SweepOutcome::ProcessFailed(stderr))
            }
        },
    }
}

/// The last step of a lite sweep, given the script's output of `raw_len`
/// bytes and, when it parsed, its alerts and item count.
pub fn sweep_after_read(
    rt: &mut NotifierRuntime,
    state: NotifierState,
    parsed: Option<(Vec<SweepAlert>, u32)>,
    raw_len: usize,
) -> (done: SweepCompletion)
    ensures
        (match parsed {
            None => done.notifications@.len() == 0 && done.updated_state is None && done.outcome
                == (SweepOutcome::Unparsed { raw_len }),
            Some((alerts, total_items)) => completes_sweep(*old(rt), *final(rt), state, alerts@, total_items, done),
        }),
{
    match parsed {
        None => SweepCompletion {
            notifications: Vec::new(),
            updated_state: None,
            outcome: SweepOutcome::Unparsed { raw_len },
        },
        Some((alerts, total_items)) => process_sweep_result(rt, state, &alerts, total_items),
    }
}

} // verus!
