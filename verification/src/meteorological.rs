//! The meteorological service: ingests weather batches into a catalog that
//! keeps the latest availability, view, feature slices and alerts of each
//! region, and announces what it published.

use vstd::prelude::*;
use crate::contracts::ServiceBoundaryV1;
use crate::command_plan::strs;
use crate::error_model::{InstitutionalError, InstitutionalErrorCategory, OperationContext};
use crate::ordered::StrMap;
use crate::text::owned;
use crate::weather::{
    UtcTimestamp, WeatherAlertFeedV1, WeatherAlertFeedView, WeatherArtifactKindV1,
    WeatherAvailabilityV1, WeatherAvailabilityView, WeatherFeatureSliceV1, WeatherProvenanceV1,
    WeatherQcFlagV1, WeatherSourceKindV1, WeatherViewV1,
};

verus! {

/// An upstream asset as retrieved.
#[derive(Debug, PartialEq, Eq)]
pub struct RawSourceAsset {
    pub asset_id: String,
    pub source_kind: WeatherSourceKindV1,
    pub source_ref: String,
    pub bytes_sha256: String,
    pub retrieved_at: UtcTimestamp,
    pub upstream_qc_notes: Vec<String>,
    pub provenance: WeatherProvenanceV1,
}

/// A weather product normalised from raw assets.
#[derive(Debug, PartialEq, Eq)]
pub struct NormalizedWeatherProduct {
    pub product_id: String,
    pub region_id: String,
    pub artifact_kind: WeatherArtifactKindV1,
    pub native_identifier: String,
    pub event_time: UtcTimestamp,
    pub valid_time: UtcTimestamp,
    pub lead_hours: u16,
    pub raw_asset_ids: Vec<String>,
    pub qc_flags: Vec<WeatherQcFlagV1>,
    pub provenance: Vec<WeatherProvenanceV1>,
}

/// One ingestion run for a region.
#[derive(Debug, PartialEq, Eq)]
pub struct WeatherFixtureBatchV1 {
    pub batch_id: String,
    pub region_id: String,
    pub raw_assets: Vec<RawSourceAsset>,
    pub normalized_products: Vec<NormalizedWeatherProduct>,
    pub availability: WeatherAvailabilityV1,
    pub view: WeatherViewV1,
    pub feature_slices: Vec<WeatherFeatureSliceV1>,
    pub alerts: WeatherAlertFeedV1,
}

/// What an ingestion run added.
#[derive(Debug, PartialEq, Eq)]
pub struct WeatherIngestionReport {
    pub batch_id: String,
    pub raw_asset_count: usize,
    pub normalized_product_count: usize,
    pub feature_slice_count: usize,
    pub alert_count: usize,
    pub latest_availability: WeatherAvailabilityV1,
}

/// The announcement that a product was published.
#[derive(Debug, PartialEq, Eq)]
pub struct WeatherProductPublishedV1 {
    pub product_ref: String,
    pub region_id: String,
    pub artifact_kind: WeatherArtifactKindV1,
    pub native_identifier: String,
    pub event_time: UtcTimestamp,
    pub valid_time: UtcTimestamp,
}

/// The announcement that a region's alert feed changed.
#[derive(Debug, PartialEq, Eq)]
pub struct WeatherAlertUpdatedV1 {
    pub feed: WeatherAlertFeedV1,
}

/// The announcement of a published product.
pub open spec fn published_of(p: NormalizedWeatherProduct) -> WeatherProductPublishedV1 {
    WeatherProductPublishedV1 {
        product_ref: p.product_id,
        region_id: p.region_id,
        artifact_kind: p.artifact_kind,
        native_identifier: p.native_identifier,
        event_time: p.event_time,
        valid_time: p.valid_time,
    }
}

struct MeteorologicalCatalog {
    raw_assets: Vec<RawSourceAsset>,
    normalized_products: Vec<NormalizedWeatherProduct>,
    availability_by_region: StrMap<WeatherAvailabilityV1>,
    view_by_region: StrMap<WeatherViewV1>,
    feature_slices_by_region: StrMap<Vec<WeatherFeatureSliceV1>>,
    alerts_by_region: StrMap<WeatherAlertFeedV1>,
    published_products: Vec<WeatherProductPublishedV1>,
    updated_alerts: Vec<WeatherAlertUpdatedV1>,
}

/// The meteorological service.
pub struct MeteorologicalService {
    catalog: MeteorologicalCatalog,
}

fn ingest_error(message: &str) -> (e: InstitutionalError)
    ensures
        e.kind() == InstitutionalErrorCategory::InvariantViolation,
        e.ctx().subsystem@ == "services/meteorological-service"@,
        e.ctx().operation@ == "ingest_fixture_batch"@,
        e.ctx().service_id is None && e.ctx().workflow_id is None && e.ctx().correlation_id is None,
        e.msg()@ == message@,
        e.src() is None,
{
    InstitutionalError::invariant_violation(
        OperationContext::new("services/meteorological-service", "ingest_fixture_batch"),
        message,
    )
}

impl MeteorologicalService {
    /// The raw assets ingested so far, in order.
    pub closed spec fn raw_assets(&self) -> Seq<RawSourceAsset> {
        self.catalog.raw_assets@
    }

    /// The normalised products ingested so far, in order.
    pub closed spec fn products(&self) -> Seq<NormalizedWeatherProduct> {
        self.catalog.normalized_products@
    }

    /// The latest availability of each region.
    pub closed spec fn availability(&self) -> Map<Seq<char>, WeatherAvailabilityView> {
        self.catalog.availability_by_region.view().map_values(|a: WeatherAvailabilityV1| a@)
    }

    /// The latest view of each region.
    pub closed spec fn views(&self) -> Map<Seq<char>, WeatherViewV1> {
        self.catalog.view_by_region.view()
    }

    /// The latest feature slices of each region.
    pub closed spec fn slices(&self) -> Map<Seq<char>, Seq<WeatherFeatureSliceV1>> {
        self.catalog.feature_slices_by_region.view().map_values(|v: Vec<WeatherFeatureSliceV1>| v@)
    }

    /// The latest alert feed of each region.
    pub closed spec fn alert_feeds(&self) -> Map<Seq<char>, WeatherAlertFeedView> {
        self.catalog.alerts_by_region.view().map_values(|f: WeatherAlertFeedV1| f@)
    }

    /// The product announcements, in order.
    pub closed spec fn published(&self) -> Seq<WeatherProductPublishedV1> {
        self.catalog.published_products@
    }

    /// The alert feed announcements, in order.
    pub closed spec fn alert_updates(&self) -> Seq<WeatherAlertFeedView> {
        self.catalog.updated_alerts@.map_values(|u: WeatherAlertUpdatedV1| u.feed@)
    }

    /// An empty catalog.
    pub fn new() -> (s: MeteorologicalService)
        ensures
            s.raw_assets().len() == 0,
            s.products().len() == 0,
            s.availability() == Map::<Seq<char>, WeatherAvailabilityView>::empty(),
            s.views() == Map::<Seq<char>, WeatherViewV1>::empty(),
            s.slices() == Map::<Seq<char>, Seq<WeatherFeatureSliceV1>>::empty(),
            s.alert_feeds() == Map::<Seq<char>, WeatherAlertFeedView>::empty(),
            s.published().len() == 0,
            s.alert_updates().len() == 0,
    {
        let s = MeteorologicalService {
            catalog: MeteorologicalCatalog {
                raw_assets: Vec::new(),
                normalized_products: Vec::new(),
                availability_by_region: StrMap::new(),
                view_by_region: StrMap::new(),
                feature_slices_by_region: StrMap::new(),
                alerts_by_region: StrMap::new(),
                published_products: Vec::new(),
                updated_alerts: Vec::new(),
            },
        };
        assert(s.availability() =~= Map::<Seq<char>, WeatherAvailabilityView>::empty());
        assert(s.slices() =~= Map::<Seq<char>, Seq<WeatherFeatureSliceV1>>::empty());
        assert(s.alert_feeds() =~= Map::<Seq<char>, WeatherAlertFeedView>::empty());
        assert(s.alert_updates() =~= Seq::<WeatherAlertFeedView>::empty());
        s
    }

    /// Ingests a batch: it needs at least one raw asset and one normalised
    /// product. Its assets and products are appended, its availability,
    /// view, feature slices and alerts become the region's latest, each
    /// product is announced, and so is the alert feed.
    pub fn ingest_fixture_batch(&mut self, batch: WeatherFixtureBatchV1)
        -> (r: Result<WeatherIngestionReport, InstitutionalError>)
        ensures
            match r {
                Ok(report) => {
                    &&& batch.raw_assets@.len() > 0 && batch.normalized_products@.len() > 0
                    &&& report.batch_id == batch.batch_id
                    &&& report.raw_asset_count == batch.raw_assets@.len()
                    &&& report.normalized_product_count == batch.normalized_products@.len()
                    &&& report.feature_slice_count == batch.feature_slices@.len()
                    &&& report.alert_count == batch.alerts.alerts@.len()
                    &&& report.latest_availability@ == batch.availability@
                    &&& ingested(*old(self), *final(self), batch)
                    &&& forall|i: int| 0 <= i < batch.normalized_products@.len() ==> {
                        let a = #[trigger] final(self).published()[old(self).published().len() + i];
                        let p = batch.normalized_products@[i];
                        &&& a.product_ref == p.product_id
                        &&& a.region_id == p.region_id
                        &&& a.artifact_kind == p.artifact_kind
                        &&& a.native_identifier == p.native_identifier
                        &&& a.event_time == p.event_time
                        &&& a.valid_time == p.valid_time
                    }
                },
                Err(e) => {
                    &&& final(self).raw_assets() == old(self).raw_assets()
                    &&& final(self).products() == old(self).products()
                    &&& final(self).availability() == old(self).availability()
                    &&& final(self).views() == old(self).views()
                    &&& final(self).slices() == old(self).slices()
                    &&& final(self).alert_feeds() == old(self).alert_feeds()
                    &&& final(self).published() == old(self).published()
                    &&& final(self).alert_updates() == old(self).alert_updates()
                    &&& e.kind() == InstitutionalErrorCategory::InvariantViolation
                    &&& e.ctx().subsystem@ == "services/meteorological-service"@
                    &&& e.ctx().operation@ == "ingest_fixture_batch"@
                    &&& e.ctx().service_id is None && e.ctx().workflow_id is None && e.ctx().correlation_id is None
                    &&& e.src() is None
                    &&& if batch.raw_assets@.len() == 0 {
                        e.msg()@ == "weather ingest requires at least one raw source asset"@
                    } else {
                        batch.normalized_products@.len() == 0
                            && e.msg()@ == "weather ingest requires at least one normalized weather product"@
                    }
                },
            },
    {
        if batch.raw_assets.len() == 0 {
            return Err(ingest_error("weather ingest requires at least one raw source asset"));
        }
        if batch.normalized_products.len() == 0 {
            return Err(ingest_error("weather ingest requires at least one normalized weather product"));
        }
        let WeatherFixtureBatchV1 {
            batch_id, region_id, mut raw_assets, mut normalized_products, availability, view,
            feature_slices, alerts,
        } = batch;
        let raw_asset_count = raw_assets.len();
        let normalized_product_count = normalized_products.len();
        let feature_slice_count = feature_slices.len();
        let alert_count = alerts.alerts.len();

        let ghost products = normalized_products@;
        let mut announcements: Vec<WeatherProductPublishedV1> = Vec::new();
        let mut k: usize = 0;
        while k < normalized_products.len()
            invariant
                k <= normalized_products.len(),
                normalized_products@ == products,
                announcements@ == products.subrange(0, k as int).map_values(|p: NormalizedWeatherProduct| published_of(p)),
            decreases normalized_products.len() - k,
        {
            let p = &normalized_products[k];
            announcements.push(WeatherProductPublishedV1 {
                product_ref: p.product_id.clone(),
                region_id: p.region_id.clone(),
                artifact_kind: p.artifact_kind,
                native_identifier: p.native_identifier.clone(),
                event_time: p.event_time,
                valid_time: p.valid_time,
            });
            assert(products.subrange(0, k + 1).map_values(|p: NormalizedWeatherProduct| published_of(p))
                =~= products.subrange(0, k as int).map_values(|p: NormalizedWeatherProduct| published_of(p))
                    .push(published_of(products[k as int])));
            k = k + 1;
        }
        assert(products.subrange(0, k as int) =~= products);
        self.catalog.published_products.append(&mut announcements);

        self.catalog.raw_assets.append(&mut raw_assets);
        self.catalog.normalized_products.append(&mut normalized_products);
        let latest = availability.duplicate();
        self.catalog.availability_by_region.insert(region_id.clone(), availability);
        self.catalog.view_by_region.insert(region_id.clone(), view);
        self.catalog.feature_slices_by_region.insert(region_id.clone(), feature_slices);
        let announced = alerts.duplicate();
        self.catalog.alerts_by_region.insert(region_id.clone(), alerts);
        let ghost before_updates = self.catalog.updated_alerts@;
        self.catalog.updated_alerts.push(WeatherAlertUpdatedV1 { feed: announced });
        proof {
            assert(self.catalog.updated_alerts@.drop_last() =~= before_updates);
            assert(self.alert_updates() =~= old(self).alert_updates().push(batch.alerts@));
            assert(self.availability() =~= old(self).availability().insert(batch.region_id@, batch.availability@));
            assert(self.slices() =~= old(self).slices().insert(batch.region_id@, batch.feature_slices@));
            assert(self.alert_feeds() =~= old(self).alert_feeds().insert(batch.region_id@, batch.alerts@));
        }
        Ok(WeatherIngestionReport {
            batch_id,
            raw_asset_count,
            normalized_product_count,
            feature_slice_count,
            alert_count,
            latest_availability: latest,
        })
    }

    /// The latest availability of a region.
    pub fn weather_availability(&self, region_id: &str) -> (r: Option<&WeatherAvailabilityV1>)
        ensures
            match r {
                Some(a) => self.availability().contains_key(region_id@) && self.availability()[region_id@] == a@,
                None => !self.availability().contains_key(region_id@),
            },
    {
        self.catalog.availability_by_region.get(region_id)
    }

    /// The latest view of a region.
    pub fn weather_view(&self, region_id: &str) -> (r: Option<&WeatherViewV1>)
        ensures
            match r {
                Some(v) => self.views().contains_key(region_id@) && self.views()[region_id@] == *v,
                None => !self.views().contains_key(region_id@),
            },
    {
        self.catalog.view_by_region.get(region_id)
    }

    /// The latest feature slices of a region; none for an unknown region.
    pub fn weather_feature_slices(&self, region_id: &str) -> (r: &[WeatherFeatureSliceV1])
        ensures
            r@ == if self.slices().contains_key(region_id@) {
                self.slices()[region_id@]
            } else {
                Seq::<WeatherFeatureSliceV1>::empty()
            },
    {
        match self.catalog.feature_slices_by_region.get(region_id) {
            Some(v) => v.as_slice(),
            None => &[],
        }
    }

    /// The latest alert feed of a region.
    pub fn weather_alert_feed(&self, region_id: &str) -> (r: Option<&WeatherAlertFeedV1>)
        ensures
            match r {
                Some(f) => self.alert_feeds().contains_key(region_id@) && self.alert_feeds()[region_id@] == f@,
                None => !self.alert_feeds().contains_key(region_id@),
            },
    {
        self.catalog.alerts_by_region.get(region_id)
    }

    /// Every product announcement, in order.
    pub fn published_products(&self) -> (r: &[WeatherProductPublishedV1])
        ensures
            r@ == self.published(),
    {
        self.catalog.published_products.as_slice()
    }

    /// Every alert feed announcement, in order.
    pub fn updated_alerts(&self) -> (r: &[WeatherAlertUpdatedV1])
        ensures
            r@.map_values(|u: WeatherAlertUpdatedV1| u.feed@) == self.alert_updates(),
    {
        self.catalog.updated_alerts.as_slice()
    }
}

/// The meteorological service's boundary.
pub fn service_boundary() -> (b: ServiceBoundaryV1)
    ensures
        b.service_name@ == "meteorological-service"@,
        b.domain@ == "meteorological_intelligence"@,
        strs(b.approved_workflows@) == seq!["weather_ingestion"@],
        strs(b.owned_aggregates@) == seq!["weather_dataset"@, "weather_feature_product"@, "weather_alert"@],
{
    let mut workflows: Vec<String> = Vec::new();
    workflows.push(owned("weather_ingestion"));
    let mut aggregates: Vec<String> = Vec::new();
    aggregates.push(owned("weather_dataset"));
    aggregates.push(owned("weather_feature_product"));
    aggregates.push(owned("weather_alert"));
    let b = ServiceBoundaryV1 {
        service_name: owned("meteorological-service"),
        domain: owned("meteorological_intelligence"),
        approved_workflows: workflows,
        owned_aggregates: aggregates,
    };
    assert(strs(b.approved_workflows@) =~= seq!["weather_ingestion"@]);
    assert(strs(b.owned_aggregates@) =~= seq!["weather_dataset"@, "weather_feature_product"@, "weather_alert"@]);
    b
}

/// `after` is `before` with `batch` taken in: its raw assets and products
/// appended, the batch's availability, view, feature slices and alert feed
/// stored under its region, one announcement per product and one alert
/// update added.
pub open spec fn ingested(before: MeteorologicalService, after: MeteorologicalService, batch: WeatherFixtureBatchV1) -> bool {
    let region = batch.region_id@;
    &&& after.raw_assets() == before.raw_assets() + batch.raw_assets@
    &&& after.products() == before.products() + batch.normalized_products@
    &&& after.availability() == before.availability().insert(region, batch.availability@)
    &&& after.views() == before.views().insert(region, batch.view)
    &&& after.slices() == before.slices().insert(region, batch.feature_slices@)
    &&& after.alert_feeds() == before.alert_feeds().insert(region, batch.alerts@)
    &&& after.published() == before.published()
        + batch.normalized_products@.map_values(|p: NormalizedWeatherProduct| published_of(p))
    &&& after.alert_updates() == before.alert_updates().push(batch.alerts@)
}

/// After a batch is taken in, the announcements made before it are kept,
/// and the announcement of its `i`-th product, which follows them at
/// offset `i`, carries that product's id, region, artifact kind, native
/// identifier, event time and valid time.
pub proof fn law_ingest_announces_products(
    before: MeteorologicalService,
    after: MeteorologicalService,
    batch: WeatherFixtureBatchV1,
    i: int,
    j: int,
)
    requires
        ingested(before, after, batch),
    ensures
        0 <= j < before.published().len() ==> after.published()[j] == before.published()[j],
        0 <= i < batch.normalized_products@.len() ==> {
            let a = after.published()[before.published().len() + i];
            let p = batch.normalized_products@[i];
            &&& a.product_ref == p.product_id
            &&& a.region_id == p.region_id
            &&& a.artifact_kind == p.artifact_kind
            &&& a.native_identifier == p.native_identifier
            &&& a.event_time == p.event_time
            &&& a.valid_time == p.valid_time
        },
{
}

/// After a batch is taken in, the region's availability, view, feature
/// slices and alert feed read back as the batch's, every other region reads
/// as before, and the last alert update is the batch's feed.
pub proof fn law_ingest_then_read(before: MeteorologicalService, after: MeteorologicalService, batch: WeatherFixtureBatchV1, other: Seq<char>)
    requires
        ingested(before, after, batch),
    ensures
        after.availability().contains_key(batch.region_id@),
        after.availability()[batch.region_id@] == batch.availability@,
        after.views().contains_key(batch.region_id@),
        after.views()[batch.region_id@] == batch.view,
        after.slices().contains_key(batch.region_id@),
        after.slices()[batch.region_id@] == batch.feature_slices@,
        after.alert_feeds().contains_key(batch.region_id@),
        after.alert_feeds()[batch.region_id@] == batch.alerts@,
        after.alert_updates().last() == batch.alerts@,
        after.published().len() == before.published().len() + batch.normalized_products@.len(),
        other != batch.region_id@ ==> {
            &&& after.availability().contains_key(other) == before.availability().contains_key(other)
            &&& after.availability()[other] == before.availability()[other]
            &&& after.views().contains_key(other) == before.views().contains_key(other)
            &&& after.views()[other] == before.views()[other]
            &&& after.slices().contains_key(other) == before.slices().contains_key(other)
            &&& after.slices()[other] == before.slices()[other]
            &&& after.alert_feeds().contains_key(other) == before.alert_feeds().contains_key(other)
            &&& after.alert_feeds()[other] == before.alert_feeds()[other]
        },
{
}

} // verus!
