use vstd::prelude::*;
use crate::text::texts;

verus! {

/// User-facing configuration of the background notifier.
#[derive(Debug, Clone)]
pub struct NotifierSettings {
    pub interval_minutes: u64,
    pub threshold: u8,
    pub max_notifications_per_hour: u8,
    pub digest_mode: bool,
    pub quiet_hours_start: Option<u8>,
    pub quiet_hours_end: Option<u8>,
    pub watchlist_keywords: Vec<String>,
    pub watchlist_regions: Vec<String>,
}

/// What the notifier persists between sweeps.
#[derive(Debug, Clone)]
pub struct NotifierState {
    pub last_sweep: Option<String>,
    pub alert_hashes: Vec<String>,
    pub settings: NotifierSettings,
}

/// The keywords watched out of the box.
pub open spec fn default_keywords() -> Seq<Seq<char>> {
    seq!["nuclear"@, "missile"@, "invasion"@, "sanctions"@]
}

/// The regions watched out of the box.
pub open spec fn default_regions() -> Seq<Seq<char>> {
    seq!["Ukraine"@, "Taiwan"@, "Middle East"@, "South China Sea"@]
}

/// Whether `s` holds the out-of-the-box settings.
pub open spec fn is_default_settings(s: NotifierSettings) -> bool {
    &&& s.interval_minutes == 45
    &&& s.threshold == 8
    &&& s.max_notifications_per_hour == 3
    &&& s.digest_mode
    &&& s.quiet_hours_start is None
    &&& s.quiet_hours_end is None
    &&& texts(s.watchlist_keywords@) == default_keywords()
    &&& texts(s.watchlist_regions@) == default_regions()
}

fn strings_of(items: &[&str]) -> (v: Vec<String>)
    ensures
        texts(v@) == items@.map_values(|s: &str| s@),
{
    let mut v: Vec<String> = Vec::new();
    let mut i: usize = 0;
    while i < items.len()
        invariant
            i <= items@.len(),
            texts(v@) =~= items@.take(i as int).map_values(|s: &str| s@),
        decreases items@.len() - i,
    {
        let item = String::from_str(items[i]);
        proof {
            assert(items@.take(i + 1) =~= items@.take(i as int).push(items@[i as int]));
            assert(texts(v@.push(item)) =~= texts(v@).push(item@));
            assert(items@.take(i as int).push(items@[i as int]).map_values(|s: &str| s@)
                =~= items@.take(i as int).map_values(|s: &str| s@).push(items@[i as int]@));
        }
        v.push(item);
        i = i + 1;
    }
    assert(items@.take(items@.len() as int) =~= items@);
    v
}

impl Default for NotifierSettings {
    /// A sweep every 45 minutes, alert threshold 8, at most 3 notifications
    /// an hour, digests on, no quiet hours, and the default watchlist.
    fn default() -> (s: Self)
        ensures
            is_default_settings(s),
    {
        let keywords = ["nuclear", "missile", "invasion", "sanctions"];
        let regions = ["Ukraine", "Taiwan", "Middle East", "South China Sea"];
        let watchlist_keywords = strings_of(&keywords);
        let watchlist_regions = strings_of(&regions);
        assert(keywords@.map_values(|s: &str| s@) =~= default_keywords());
        assert(regions@.map_values(|s: &str| s@) =~= default_regions());
        NotifierSettings {
            interval_minutes: 45,
            threshold: 8,
            max_notifications_per_hour: 3,
            digest_mode: true,
            quiet_hours_start: None,
            quiet_hours_end: None,
            watchlist_keywords,
            watchlist_regions,
        }
    }
}

impl Default for NotifierState {
    /// No sweep yet, no alert seen, default settings.
    fn default() -> (s: Self)
        ensures
            s.last_sweep is None,
            s.alert_hashes@.len() == 0,
            is_default_settings(s.settings),
    {
        NotifierState { last_sweep: None, alert_hashes: Vec::new(), settings: NotifierSettings::default() }
    }
}

} // verus!
