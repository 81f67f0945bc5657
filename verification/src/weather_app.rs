//! The decisions behind the Weather app: which section to show, and the
//! summary texts it renders from a platform weather snapshot.

use vstd::prelude::*;
use crate::command_plan::strs;
use crate::text::{concat3, decimal, decimal_string, owned};
use crate::weather::{
    UtcTimestamp, WeatherAlertFeedV1, WeatherAlertV1, WeatherAvailabilityV1, WeatherFeatureSliceV1,
    WeatherViewV1,
};

verus! {

/// What the platform currently knows about the weather of a region.
#[derive(Debug, PartialEq, Eq)]
pub struct WeatherPlatformSnapshotV1 {
    pub availability: Option<WeatherAvailabilityV1>,
    pub view: Option<WeatherViewV1>,
    pub feature_slices: Vec<WeatherFeatureSliceV1>,
    pub alerts: Option<WeatherAlertFeedV1>,
}

/// A section of the Weather app.
#[derive(Debug, Clone, Copy, PartialEq, Eq)]
pub enum WeatherSection {
    Overview,
    Features,
    Alerts,
}

/// The label of a section.
pub open spec fn section_label(s: WeatherSection) -> Seq<char> {
    match s {
        WeatherSection::Overview => "Overview"@,
        WeatherSection::Features => "Features"@,
        WeatherSection::Alerts => "Alerts"@,
    }
}

/// The section a launch parameter names: `overview`, `features` or
/// `alerts`.
pub open spec fn launch_section(param: Seq<char>) -> Option<WeatherSection> {
    if param == "features"@ {
        Some(WeatherSection::Features)
    } else if param == "alerts"@ {
        Some(WeatherSection::Alerts)
    } else if param == "overview"@ {
        Some(WeatherSection::Overview)
    } else {
        None
    }
}

impl WeatherSection {
    /// The section's label.
    pub fn label(self) -> (s: &'static str)
        ensures
            s@ == section_label(self),
    {
        match self {
            WeatherSection::Overview => "Overview",
            WeatherSection::Features => "Features",
            WeatherSection::Alerts => "Alerts",
        }
    }

    /// The section a launch parameter names: `overview`, `features` or
    /// `alerts`.
    pub fn from_launch_param(param: &str) -> (r: Option<WeatherSection>)
        ensures
            r == launch_section(param@),
    {
        let p = owned(param);
        if p == owned("features") {
            Some(WeatherSection::Features)
        } else if p == owned("alerts") {
            Some(WeatherSection::Alerts)
        } else if p == owned("overview") {
            Some(WeatherSection::Overview)
        } else {
            None
        }
    }
}

/// The state the Weather app keeps per window.
#[derive(Debug, Clone, Copy, PartialEq, Eq)]
pub struct WeatherAppState {
    pub active_section: WeatherSection,
}

impl WeatherAppState {
    /// The state of a new window: the overview.
    pub fn initial() -> (s: WeatherAppState)
        ensures
            s.active_section == WeatherSection::Overview,
    {
        WeatherAppState { active_section: WeatherSection::Overview }
    }

    /// The state a window opens in: the restored state when there is one,
    /// else the overview; a `section` launch parameter naming a section
    /// then selects it.
    pub fn opening(restored: Option<WeatherAppState>, section_param: Option<&str>) -> (s: WeatherAppState)
        ensures
            ({
                let base = match restored {
                    Some(r) => r.active_section,
                    None => WeatherSection::Overview,
                };
                s.active_section == match section_param {
                    Some(p) => match launch_section(p@) {
                        Some(x) => x,
                        None => base,
                    },
                    None => base,
                }
            }),
    {
        let mut state = match restored {
            Some(r) => r,
            None => WeatherAppState::initial(),
        };
        match section_param {
            Some(p) => match WeatherSection::from_launch_param(p) {
                Some(section) => { state.active_section = section; },
                None => {},
            },
            None => {},
        }
        state
    }
}

/// The region a snapshot describes: its availability's, else its view's.
pub open spec fn region_of(s: &WeatherPlatformSnapshotV1) -> Seq<char> {
    match s.availability {
        Some(a) => a.region_id@,
        None => match s.view {
            Some(v) => v.region_id@,
            None => "unavailable"@,
        },
    }
}

/// The region of a snapshot, `unavailable` when it has neither
/// availability nor view.
pub fn snapshot_region(snapshot: &WeatherPlatformSnapshotV1) -> (r: String)
    ensures
        r@ == region_of(snapshot),
{
    match &snapshot.availability {
        Some(a) => a.region_id.clone(),
        None => match &snapshot.view {
            Some(v) => v.region_id.clone(),
            None => owned("unavailable"),
        },
    }
}

/// The number of layers a snapshot has data for.
pub open spec fn layer_count(s: &WeatherPlatformSnapshotV1) -> nat {
    match s.availability {
        Some(a) => a.available_layers@.len(),
        None => 0,
    }
}

/// The number of alerts of a snapshot.
pub open spec fn alert_count(s: &WeatherPlatformSnapshotV1) -> nat {
    match s.alerts {
        Some(f) => f.alerts@.len(),
        None => 0,
    }
}

/// `<region> has <n> active layers and <m> alert(s).`
pub open spec fn summary_text(s: &WeatherPlatformSnapshotV1) -> Seq<char> {
    region_of(s) + " has "@ + decimal(layer_count(s)) + " active layers and "@
        + decimal(alert_count(s)) + " alert(s)."@
}

/// A one-line summary of a snapshot.
pub fn snapshot_summary(snapshot: &WeatherPlatformSnapshotV1) -> (r: String)
    ensures
        r@ == summary_text(snapshot),
{
    let region = snapshot_region(snapshot);
    let layers: usize = match &snapshot.availability {
        Some(a) => a.available_layers.len(),
        None => 0,
    };
    let alerts: usize = match &snapshot.alerts {
        Some(f) => f.alerts.len(),
        None => 0,
    };
    let mut s = region;
    s.append(" has ");
    s.append(decimal_string(layers).as_str());
    s.append(" active layers and ");
    s.append(decimal_string(alerts).as_str());
    s.append(" alert(s).");
    s
}

/// `<headline> (<severity>)`.
pub open spec fn headline_of(a: WeatherAlertV1) -> Seq<char> {
    a.headline@ + " ("@ + a.severity@ + ")"@
}

/// The headline of each alert of a snapshot, in order.
pub open spec fn headlines(s: &WeatherPlatformSnapshotV1) -> Seq<Seq<char>> {
    match s.alerts {
        Some(f) => f.alerts@.map_values(|a: WeatherAlertV1| headline_of(a)),
        None => Seq::empty(),
    }
}

/// The headlines of a snapshot's alerts.
pub fn alert_headlines(snapshot: &WeatherPlatformSnapshotV1) -> (r: Vec<String>)
    ensures
        strs(r@) == headlines(snapshot),
{
    let mut out: Vec<String> = Vec::new();
    match &snapshot.alerts {
        Some(feed) => {
            let mut i: usize = 0;
            while i < feed.alerts.len()
                invariant
                    i <= feed.alerts.len(),
                    strs(out@) == feed.alerts@.subrange(0, i as int).map_values(|a: WeatherAlertV1| headline_of(a)),
                decreases feed.alerts.len() - i,
            {
                let a = &feed.alerts[i];
                let mut h = concat3(a.headline.as_str(), " (", a.severity.as_str());
                h.append(")");
                let ghost before = strs(out@);
                out.push(h);
                assert(strs(out@) =~= before.push(headline_of(*a)));
                assert(feed.alerts@.subrange(0, i + 1).map_values(|a: WeatherAlertV1| headline_of(a))
                    =~= feed.alerts@.subrange(0, i as int).map_values(|a: WeatherAlertV1| headline_of(a)).push(headline_of(*a)));
                i = i + 1;
            }
            assert(feed.alerts@.subrange(0, i as int) =~= feed.alerts@);
        },
        None => {
            assert(strs(out@) =~= Seq::<Seq<char>>::empty());
        },
    }
    out
}

/// The instant a snapshot is valid for: its view's, else that of the first
/// available layer.
pub open spec fn valid_instant(s: &WeatherPlatformSnapshotV1) -> Option<UtcTimestamp> {
    match s.view {
        Some(v) => Some(v.valid_time),
        None => match s.availability {
            Some(a) => if a.available_layers@.len() > 0 {
                Some(a.available_layers@[0].latest_valid_time)
            } else {
                None
            },
            None => None,
        },
    }
}

/// A snapshot with a view is valid for that view's valid time, whenever
/// the view was generated; one without a view is valid for the latest
/// valid time of its first available layer, and one with neither has no
/// such instant.
pub proof fn law_valid_instant_sources(s: &WeatherPlatformSnapshotV1)
    ensures
        s.view is Some ==> valid_instant(s) == Some(s.view->Some_0.valid_time),
        s.view is None && s.availability is Some && s.availability->Some_0.available_layers@.len() > 0
            ==> valid_instant(s) == Some(s.availability->Some_0.available_layers@[0].latest_valid_time),
        s.view is None && (s.availability is None || s.availability->Some_0.available_layers@.len() == 0)
            ==> valid_instant(s) is None,
{
}

/// The instant a snapshot is valid for, if it has one.
pub fn latest_valid_instant(snapshot: &WeatherPlatformSnapshotV1) -> (r: Option<UtcTimestamp>)
    ensures
        r == valid_instant(snapshot),
        snapshot.view is Some ==> r == Some(snapshot.view->Some_0.valid_time),
        snapshot.view is None && snapshot.availability is Some
            && snapshot.availability->Some_0.available_layers@.len() > 0
            ==> r == Some(snapshot.availability->Some_0.available_layers@[0].latest_valid_time),
        snapshot.view is None && (snapshot.availability is None
            || snapshot.availability->Some_0.available_layers@.len() == 0) ==> r is None,
{
    match &snapshot.view {
        Some(v) => Some(v.valid_time),
        None => match &snapshot.availability {
            Some(a) => if a.available_layers.len() > 0 {
                Some(a.available_layers[0].latest_valid_time)
            } else {
                None
            },
            None => None,
        },
    }
}

/// The RFC 3339 text of an instant, `None` where the calendar cannot hold
/// it.
pub uninterp spec fn rfc3339_text(unix_seconds: i64, nanos: u32) -> Option<Seq<char>>;

/// Whether an instant lies in the years 1 to 9999 with a nanosecond part
/// below one second.
pub open spec fn in_calendar(t: UtcTimestamp) -> bool {
    &&& -62135596800 <= t.unix_seconds < 253402300800
    &&& t.nanos < 1000000000
}

/// `chrono::DateTime::<Utc>::from_timestamp` followed by `to_rfc3339`: the
/// instant's RFC 3339 text with a `+00:00` offset. The result depends on the
/// instant alone; `from_timestamp` refuses only out-of-range seconds and
/// invalid nanoseconds, so every instant of years 1 to 9999 has a text. The
/// text itself is left to the name.
#[verifier::external_body]
fn rfc3339(t: UtcTimestamp) -> (r: Option<String>)
    ensures
        match r {
            Some(s) => rfc3339_text(t.unix_seconds, t.nanos) == Some(s@),
            None => rfc3339_text(t.unix_seconds, t.nanos) is None,
        },
        in_calendar(t) ==> r is Some,
{
    match chrono::DateTime::from_timestamp(t.unix_seconds, t.nanos) {
        Some(d) => Some(d.to_rfc3339()),
        None => None,
    }
}

/// The label of a formatted instant: the text, or `n/a` without one.
pub fn valid_time_label(formatted: Option<String>) -> (r: String)
    ensures
        r@ == match formatted {
            Some(s) => s@,
            None => "n/a"@,
        },
{
    match formatted {
        Some(s) => s,
        None => owned("n/a"),
    }
}

/// The RFC 3339 text of the instant a snapshot is valid for, `n/a` when it
/// has none (or, for an instant outside the calendar, cannot be written).
pub fn latest_valid_time(snapshot: &WeatherPlatformSnapshotV1) -> (r: String)
    ensures
        r@ == match valid_instant(snapshot) {
            Some(t) => match rfc3339_text(t.unix_seconds, t.nanos) {
                Some(s) => s,
                None => "n/a"@,
            },
            None => "n/a"@,
        },
        snapshot.view is Some ==> r@ == match rfc3339_text(
            snapshot.view->Some_0.valid_time.unix_seconds,
            snapshot.view->Some_0.valid_time.nanos,
        ) {
            Some(s) => s,
            None => "n/a"@,
        },
{
    match latest_valid_instant(snapshot) {
        Some(t) => valid_time_label(rfc3339(t)),
        None => valid_time_label(None),
    }
}

} // verus!
