//! Weather data contracts: sources, artifacts, layers, features, quality
//! flags, availability, views, feature slices and alert feeds.
//!
//! Instants are UTC timestamps; real-valued measurements are carried as the
//! bit patterns of their IEEE-754 doubles, which the library never computes
//! with.

use vstd::prelude::*;

verus! {

/// An instant in UTC: seconds since the Unix epoch and nanoseconds within
/// the second.
#[derive(Debug, Clone, Copy, PartialEq, Eq)]
pub struct UtcTimestamp {
    pub unix_seconds: i64,
    pub nanos: u32,
}

/// The IEEE-754 bit pattern of a double.
#[derive(Debug, Clone, Copy, PartialEq, Eq)]
pub struct F64Bits(pub u64);

/// The upstream source of weather data.
#[derive(Debug, Clone, Copy, PartialEq, Eq)]
pub enum WeatherSourceKindV1 {
    Hrrr,
    Gfs,
    Goes,
    Nexrad,
    Surface,
    NwsAlert,
}

/// The kind of artifact a source delivers.
#[derive(Debug, Clone, Copy, PartialEq, Eq)]
pub enum WeatherArtifactKindV1 {
    ForecastGrid,
    SatelliteScene,
    RadarVolume,
    SurfaceObservation,
    AlertFeed,
}

/// A map layer derived from weather data.
#[derive(Debug, Clone, Copy, PartialEq, Eq)]
pub enum WeatherLayerKindV1 {
    Temperature,
    Precipitation,
    Wind,
    RadarReflectivity,
    CloudCover,
    AlertOverlay,
}

/// A derived weather feature.
#[derive(Debug, Clone, Copy, PartialEq, Eq)]
pub enum WeatherFeatureKindV1 {
    Temperature2m,
    WindSpeed10m,
    PrecipitationRate,
    Visibility,
    ConvectiveRisk,
    AlertSeverityScore,
}

/// A quality-control flag.
#[derive(Debug, Clone, Copy, PartialEq, Eq)]
pub enum WeatherQcFlagV1 {
    Passed,
    Estimated,
    Missing,
    OutOfRange,
    UpstreamFlagged,
}

/// A bounding box in degrees.
#[derive(Debug, Clone, Copy, PartialEq, Eq)]
pub struct GeoBoundsV1 {
    pub north: F64Bits,
    pub south: F64Bits,
    pub east: F64Bits,
    pub west: F64Bits,
}

/// Where a weather product came from and how it was transformed.
#[derive(Debug, PartialEq, Eq)]
pub struct WeatherProvenanceV1 {
    pub source_kind: WeatherSourceKindV1,
    pub source_dataset: String,
    pub source_object_ref: String,
    pub retrieved_at: UtcTimestamp,
    pub raw_artifact_hash: String,
    pub transform_version: String,
    pub config_hash: String,
}

impl WeatherProvenanceV1 {
    /// A copy of this record.
    pub fn duplicate(&self) -> (r: WeatherProvenanceV1)
        ensures
            r == *self,
    {
        WeatherProvenanceV1 {
            source_kind: self.source_kind,
            source_dataset: self.source_dataset.clone(),
            source_object_ref: self.source_object_ref.clone(),
            retrieved_at: self.retrieved_at,
            raw_artifact_hash: self.raw_artifact_hash.clone(),
            transform_version: self.transform_version.clone(),
            config_hash: self.config_hash.clone(),
        }
    }
}

/// Copies a list of provenance records.
pub fn copy_provenance(v: &Vec<WeatherProvenanceV1>) -> (r: Vec<WeatherProvenanceV1>)
    ensures
        r@ == v@,
{
    let mut r: Vec<WeatherProvenanceV1> = Vec::new();
    let mut i: usize = 0;
    while i < v.len()
        invariant
            i <= v.len(),
            r@ == v@.subrange(0, i as int),
        decreases v.len() - i,
    {
        r.push(v[i].duplicate());
        i = i + 1;
    }
    r
}

/// The latest data of one layer.
#[derive(Debug, PartialEq, Eq)]
pub struct WeatherLayerAvailabilityV1 {
    pub layer: WeatherLayerKindV1,
    pub latest_event_time: UtcTimestamp,
    pub latest_valid_time: UtcTimestamp,
    pub horizon_hours: u16,
    pub product_ref: String,
}

/// What weather data a region has.
#[derive(Debug, PartialEq, Eq)]
pub struct WeatherAvailabilityV1 {
    pub catalog_id: String,
    pub region_id: String,
    pub bounds: GeoBoundsV1,
    pub generated_at: UtcTimestamp,
    pub source_kinds: Vec<WeatherSourceKindV1>,
    pub available_layers: Vec<WeatherLayerAvailabilityV1>,
}

/// The content of an availability record.
pub struct WeatherAvailabilityView {
    pub catalog_id: Seq<char>,
    pub region_id: Seq<char>,
    pub bounds: GeoBoundsV1,
    pub generated_at: UtcTimestamp,
    pub source_kinds: Seq<WeatherSourceKindV1>,
    pub available_layers: Seq<WeatherLayerAvailabilityV1>,
}

impl View for WeatherAvailabilityV1 {
    type V = WeatherAvailabilityView;

    open spec fn view(&self) -> WeatherAvailabilityView {
        WeatherAvailabilityView {
            catalog_id: self.catalog_id@,
            region_id: self.region_id@,
            bounds: self.bounds,
            generated_at: self.generated_at,
            source_kinds: self.source_kinds@,
            available_layers: self.available_layers@,
        }
    }
}

impl WeatherAvailabilityV1 {
    /// A copy of this record.
    pub fn duplicate(&self) -> (r: WeatherAvailabilityV1)
        ensures
            r@ == self@,
    {
        let mut kinds: Vec<WeatherSourceKindV1> = Vec::new();
        let mut i: usize = 0;
        while i < self.source_kinds.len()
            invariant
                i <= self.source_kinds.len(),
                kinds@ == self.source_kinds@.subrange(0, i as int),
            decreases self.source_kinds.len() - i,
        {
            kinds.push(self.source_kinds[i]);
            i = i + 1;
        }
        assert(self.source_kinds@.subrange(0, i as int) =~= self.source_kinds@);
        let mut layers: Vec<WeatherLayerAvailabilityV1> = Vec::new();
        let mut j: usize = 0;
        while j < self.available_layers.len()
            invariant
                j <= self.available_layers.len(),
                layers@ == self.available_layers@.subrange(0, j as int),
            decreases self.available_layers.len() - j,
        {
            let l = &self.available_layers[j];
            layers.push(WeatherLayerAvailabilityV1 {
                layer: l.layer,
                latest_event_time: l.latest_event_time,
                latest_valid_time: l.latest_valid_time,
                horizon_hours: l.horizon_hours,
                product_ref: l.product_ref.clone(),
            });
            j = j + 1;
        }
        assert(self.available_layers@.subrange(0, j as int) =~= self.available_layers@);
        WeatherAvailabilityV1 {
            catalog_id: self.catalog_id.clone(),
            region_id: self.region_id.clone(),
            bounds: self.bounds,
            generated_at: self.generated_at,
            source_kinds: kinds,
            available_layers: layers,
        }
    }
}

/// One layer of a rendered weather view.
#[derive(Debug, PartialEq, Eq)]
pub struct WeatherViewLayerV1 {
    pub layer: WeatherLayerKindV1,
    pub title: String,
    pub asset_ref: String,
    pub native_identifier: String,
    pub event_time: UtcTimestamp,
    pub valid_time: UtcTimestamp,
    pub qc_flags: Vec<WeatherQcFlagV1>,
    pub provenance: Vec<WeatherProvenanceV1>,
}

/// A rendered weather view of a region.
#[derive(Debug, PartialEq, Eq)]
pub struct WeatherViewV1 {
    pub view_id: String,
    pub region_id: String,
    pub bounds: GeoBoundsV1,
    pub generated_at: UtcTimestamp,
    pub valid_time: UtcTimestamp,
    pub horizon_hours: u16,
    pub layers: Vec<WeatherViewLayerV1>,
    pub alert_feed_id: Option<String>,
}

/// One derived feature value.
#[derive(Debug, PartialEq, Eq)]
pub struct WeatherFeatureValueV1 {
    pub feature: WeatherFeatureKindV1,
    pub value: F64Bits,
    pub units: String,
    pub probability: Option<F64Bits>,
    pub qc_flags: Vec<WeatherQcFlagV1>,
}

/// The features of a region at one valid time.
#[derive(Debug, PartialEq, Eq)]
pub struct WeatherFeatureSliceV1 {
    pub slice_id: String,
    pub region_id: String,
    pub event_time: UtcTimestamp,
    pub valid_time: UtcTimestamp,
    pub lead_hours: u16,
    pub source_product_refs: Vec<String>,
    pub features: Vec<WeatherFeatureValueV1>,
    pub provenance: Vec<WeatherProvenanceV1>,
}

/// A weather alert.
#[derive(Debug, PartialEq, Eq)]
pub struct WeatherAlertV1 {
    pub alert_id: String,
    pub region_id: String,
    pub headline: String,
    pub severity: String,
    pub effective_at: UtcTimestamp,
    pub expires_at: UtcTimestamp,
    pub source: String,
    pub bounds: GeoBoundsV1,
    pub provenance: Vec<WeatherProvenanceV1>,
}

/// The content of an alert.
pub struct WeatherAlertView {
    pub alert_id: Seq<char>,
    pub region_id: Seq<char>,
    pub headline: Seq<char>,
    pub severity: Seq<char>,
    pub effective_at: UtcTimestamp,
    pub expires_at: UtcTimestamp,
    pub source: Seq<char>,
    pub bounds: GeoBoundsV1,
    pub provenance: Seq<WeatherProvenanceV1>,
}

impl View for WeatherAlertV1 {
    type V = WeatherAlertView;

    open spec fn view(&self) -> WeatherAlertView {
        WeatherAlertView {
            alert_id: self.alert_id@,
            region_id: self.region_id@,
            headline: self.headline@,
            severity: self.severity@,
            effective_at: self.effective_at,
            expires_at: self.expires_at,
            source: self.source@,
            bounds: self.bounds,
            provenance: self.provenance@,
        }
    }
}

/// The alerts of a region.
#[derive(Debug, PartialEq, Eq)]
pub struct WeatherAlertFeedV1 {
    pub feed_id: String,
    pub region_id: String,
    pub generated_at: UtcTimestamp,
    pub alerts: Vec<WeatherAlertV1>,
}

/// The content of an alert feed.
pub struct WeatherAlertFeedView {
    pub feed_id: Seq<char>,
    pub region_id: Seq<char>,
    pub generated_at: UtcTimestamp,
    pub alerts: Seq<WeatherAlertView>,
}

impl View for WeatherAlertFeedV1 {
    type V = WeatherAlertFeedView;

    open spec fn view(&self) -> WeatherAlertFeedView {
        WeatherAlertFeedView {
            feed_id: self.feed_id@,
            region_id: self.region_id@,
            generated_at: self.generated_at,
            alerts: self.alerts@.map_values(|a: WeatherAlertV1| a@),
        }
    }
}

impl WeatherAlertFeedV1 {
    /// A copy of this feed.
    pub fn duplicate(&self) -> (r: WeatherAlertFeedV1)
        ensures
            r@ == self@,
    {
        let mut alerts: Vec<WeatherAlertV1> = Vec::new();
        let mut i: usize = 0;
        while i < self.alerts.len()
            invariant
                i <= self.alerts.len(),
                alerts@.map_values(|a: WeatherAlertV1| a@)
                    == self.alerts@.subrange(0, i as int).map_values(|a: WeatherAlertV1| a@),
            decreases self.alerts.len() - i,
        {
            let a = &self.alerts[i];
            let copy = WeatherAlertV1 {
                alert_id: a.alert_id.clone(),
                region_id: a.region_id.clone(),
                headline: a.headline.clone(),
                severity: a.severity.clone(),
                effective_at: a.effective_at,
                expires_at: a.expires_at,
                source: a.source.clone(),
                bounds: a.bounds,
                provenance: copy_provenance(&a.provenance),
            };
            let ghost before = alerts@.map_values(|x: WeatherAlertV1| x@);
            alerts.push(copy);
            assert(alerts@.map_values(|x: WeatherAlertV1| x@) =~= before.push(a@));
            assert(self.alerts@.subrange(0, i + 1).map_values(|x: WeatherAlertV1| x@)
                =~= self.alerts@.subrange(0, i as int).map_values(|x: WeatherAlertV1| x@).push(a@));
            i = i + 1;
        }
        assert(self.alerts@.subrange(0, i as int) =~= self.alerts@);
        WeatherAlertFeedV1 {
            feed_id: self.feed_id.clone(),
            region_id: self.region_id.clone(),
            generated_at: self.generated_at,
            alerts,
        }
    }
}

} // verus!
