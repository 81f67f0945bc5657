use origin_platform::meteorological::{
    MeteorologicalService, NormalizedWeatherProduct, RawSourceAsset, WeatherFixtureBatchV1,
};
use origin_platform::error_model::InstitutionalErrorCategory;
use origin_platform::weather::{
    F64Bits, GeoBoundsV1, UtcTimestamp, WeatherAlertFeedV1, WeatherAlertV1, WeatherArtifactKindV1,
    WeatherAvailabilityV1, WeatherFeatureKindV1, WeatherFeatureSliceV1, WeatherFeatureValueV1,
    WeatherLayerAvailabilityV1, WeatherLayerKindV1, WeatherProvenanceV1, WeatherQcFlagV1,
    WeatherSourceKindV1, WeatherViewV1,
};
use origin_platform::weather_app::{
    alert_headlines, latest_valid_instant, latest_valid_time, snapshot_region, snapshot_summary,
    valid_time_label, WeatherAppState, WeatherPlatformSnapshotV1, WeatherSection,
};

const VALID_AT: i64 = 1_773_144_000;

fn at(unix_seconds: i64) -> UtcTimestamp {
    UtcTimestamp { unix_seconds, nanos: 0 }
}

fn bounds() -> GeoBoundsV1 {
    GeoBoundsV1 { north: F64Bits(1), south: F64Bits(2), east: F64Bits(3), west: F64Bits(4) }
}

fn provenance() -> WeatherProvenanceV1 {
    WeatherProvenanceV1 {
        source_kind: WeatherSourceKindV1::Hrrr,
        source_dataset: "hrrr".to_string(),
        source_object_ref: "s3://noaa-hrrr/run".to_string(),
        retrieved_at: at(VALID_AT - 3600),
        raw_artifact_hash: "sha256:raw".to_string(),
        transform_version: "v1".to_string(),
        config_hash: "cfg".to_string(),
    }
}

fn availability(region: &str) -> WeatherAvailabilityV1 {
    WeatherAvailabilityV1 {
        catalog_id: format!("catalog-{region}"),
        region_id: region.to_string(),
        bounds: bounds(),
        generated_at: at(VALID_AT),
        source_kinds: vec![WeatherSourceKindV1::Hrrr, WeatherSourceKindV1::NwsAlert],
        available_layers: vec![
            WeatherLayerAvailabilityV1 {
                layer: WeatherLayerKindV1::Precipitation,
                latest_event_time: at(VALID_AT - 3600),
                latest_valid_time: at(VALID_AT + 3600),
                horizon_hours: 18,
                product_ref: "product-precip".to_string(),
            },
            WeatherLayerAvailabilityV1 {
                layer: WeatherLayerKindV1::Temperature,
                latest_event_time: at(VALID_AT - 3600),
                latest_valid_time: at(VALID_AT),
                horizon_hours: 18,
                product_ref: "product-temp".to_string(),
            },
        ],
    }
}

fn view(region: &str) -> WeatherViewV1 {
    WeatherViewV1 {
        view_id: format!("view-{region}"),
        region_id: region.to_string(),
        bounds: bounds(),
        generated_at: at(VALID_AT),
        valid_time: at(VALID_AT),
        horizon_hours: 18,
        layers: Vec::new(),
        alert_feed_id: Some("feed-1".to_string()),
    }
}

fn slice(region: &str) -> WeatherFeatureSliceV1 {
    WeatherFeatureSliceV1 {
        slice_id: "slice-1".to_string(),
        region_id: region.to_string(),
        event_time: at(VALID_AT - 3600),
        valid_time: at(VALID_AT),
        lead_hours: 1,
        source_product_refs: vec!["product-precip".to_string()],
        features: vec![WeatherFeatureValueV1 {
            feature: WeatherFeatureKindV1::PrecipitationRate,
            value: F64Bits(0),
            units: "mm/h".to_string(),
            probability: None,
            qc_flags: vec![WeatherQcFlagV1::Passed],
        }],
        provenance: vec![provenance()],
    }
}

fn alerts(region: &str) -> WeatherAlertFeedV1 {
    WeatherAlertFeedV1 {
        feed_id: "feed-1".to_string(),
        region_id: region.to_string(),
        generated_at: at(VALID_AT),
        alerts: vec![WeatherAlertV1 {
            alert_id: "alert-1".to_string(),
            region_id: region.to_string(),
            headline: "Flood Watch".to_string(),
            severity: "moderate".to_string(),
            effective_at: at(VALID_AT),
            expires_at: at(VALID_AT + 86_400),
            source: "nws".to_string(),
            bounds: bounds(),
            provenance: vec![provenance()],
        }],
    }
}

fn snapshot() -> WeatherPlatformSnapshotV1 {
    WeatherPlatformSnapshotV1 {
        availability: Some(availability("us-west")),
        view: Some(view("us-west")),
        feature_slices: vec![slice("us-west")],
        alerts: Some(alerts("us-west")),
    }
}

fn batch(region: &str, raw: usize, products: usize) -> WeatherFixtureBatchV1 {
    let raw_assets = (0..raw)
        .map(|i| RawSourceAsset {
            asset_id: format!("raw-{i}"),
            source_kind: WeatherSourceKindV1::Hrrr,
            source_ref: "s3://noaa-hrrr/run".to_string(),
            bytes_sha256: "sha256:raw".to_string(),
            retrieved_at: at(VALID_AT - 3600),
            upstream_qc_notes: Vec::new(),
            provenance: provenance(),
        })
        .collect();
    let normalized_products = (0..products)
        .map(|i| NormalizedWeatherProduct {
            product_id: format!("product-{i}"),
            region_id: region.to_string(),
            artifact_kind: WeatherArtifactKindV1::ForecastGrid,
            native_identifier: format!("hrrr-{i}"),
            event_time: at(VALID_AT - 3600),
            valid_time: at(VALID_AT),
            lead_hours: 1,
            raw_asset_ids: vec!["raw-0".to_string()],
            qc_flags: vec![WeatherQcFlagV1::Passed],
            provenance: vec![provenance()],
        })
        .collect();
    WeatherFixtureBatchV1 {
        batch_id: format!("batch-{region}"),
        region_id: region.to_string(),
        raw_assets,
        normalized_products,
        availability: availability(region),
        view: view(region),
        feature_slices: vec![slice(region)],
        alerts: alerts(region),
    }
}

#[test]
fn snapshot_summary_mentions_region_and_alerts() {
    let summary = snapshot_summary(&snapshot());
    assert!(summary.contains("us-west"));
    assert!(summary.contains("alert"));
    assert_eq!(summary, "us-west has 2 active layers and 1 alert(s).");
}

#[test]
fn alert_headlines_surface_active_alerts() {
    let headlines = alert_headlines(&snapshot());
    assert_eq!(headlines, vec!["Flood Watch (moderate)"]);
}

#[test]
fn empty_snapshot_reads_as_unavailable() {
    let empty = WeatherPlatformSnapshotV1 {
        availability: None,
        view: None,
        feature_slices: Vec::new(),
        alerts: None,
    };
    assert_eq!(snapshot_region(&empty), "unavailable");
    assert_eq!(snapshot_summary(&empty), "unavailable has 0 active layers and 0 alert(s).");
    assert!(alert_headlines(&empty).is_empty());
    assert_eq!(latest_valid_instant(&empty), None);
    assert_eq!(latest_valid_time(&empty), "n/a");
}

#[test]
fn valid_time_prefers_the_view_then_the_first_layer() {
    let full = snapshot();
    assert_eq!(latest_valid_instant(&full), Some(at(VALID_AT)));
    assert_eq!(latest_valid_time(&full), "2026-03-10T12:00:00+00:00");

    let no_view = WeatherPlatformSnapshotV1 { view: None, ..snapshot() };
    assert_eq!(snapshot_region(&no_view), "us-west");
    assert_eq!(latest_valid_instant(&no_view), Some(at(VALID_AT + 3600)));
    assert_eq!(latest_valid_time(&no_view), "2026-03-10T13:00:00+00:00");
    assert_eq!(valid_time_label(None), "n/a");
}

#[test]
fn weather_sections_follow_launch_parameters() {
    assert_eq!(WeatherAppState::initial().active_section, WeatherSection::Overview);
    assert_eq!(WeatherSection::from_launch_param("features"), Some(WeatherSection::Features));
    assert_eq!(WeatherSection::from_launch_param("alerts"), Some(WeatherSection::Alerts));
    assert_eq!(WeatherSection::from_launch_param("overview"), Some(WeatherSection::Overview));
    assert_eq!(WeatherSection::from_launch_param("radar"), None);
    assert_eq!(WeatherSection::Features.label(), "Features");
}

#[test]
fn windows_open_in_the_restored_or_requested_section() {
    let alerts = WeatherAppState { active_section: WeatherSection::Alerts };
    assert_eq!(WeatherAppState::opening(None, None).active_section, WeatherSection::Overview);
    assert_eq!(WeatherAppState::opening(Some(alerts), None).active_section, WeatherSection::Alerts);
    assert_eq!(WeatherAppState::opening(Some(alerts), Some("features")).active_section, WeatherSection::Features);
    assert_eq!(WeatherAppState::opening(Some(alerts), Some("radar")).active_section, WeatherSection::Alerts);
    assert_eq!(WeatherAppState::opening(None, Some("overview")).active_section, WeatherSection::Overview);
}

#[test]
fn ingest_fixture_populates_queryable_weather_products() {
    let mut service = MeteorologicalService::new();
    let report = service.ingest_fixture_batch(batch("us-west", 2, 3)).expect("ingest");
    assert_eq!(report.batch_id, "batch-us-west");
    assert_eq!(report.raw_asset_count, 2);
    assert_eq!(report.normalized_product_count, 3);
    assert_eq!(report.feature_slice_count, 1);
    assert_eq!(report.alert_count, 1);
    assert_eq!(report.latest_availability, availability("us-west"));

    assert_eq!(service.weather_availability("us-west"), Some(&availability("us-west")));
    assert_eq!(service.weather_view("us-west"), Some(&view("us-west")));
    assert_eq!(service.weather_feature_slices("us-west"), &[slice("us-west")]);
    assert_eq!(service.weather_alert_feed("us-west"), Some(&alerts("us-west")));
    assert_eq!(service.weather_availability("us-east"), None);
    assert!(service.weather_feature_slices("us-east").is_empty());
    assert_eq!(service.published_products().len(), 3);
    assert_eq!(service.published_products()[1].product_ref, "product-1");
    assert_eq!(service.updated_alerts().len(), 1);
}

#[test]
fn view_and_features_share_weather_provenance_roots() {
    let mut service = MeteorologicalService::new();
    service.ingest_fixture_batch(batch("us-west", 1, 1)).expect("ingest");
    let slices = service.weather_feature_slices("us-west");
    let feed = service.weather_alert_feed("us-west").expect("feed");
    assert_eq!(slices[0].provenance[0], feed.alerts[0].provenance[0]);
}

#[test]
fn later_batches_replace_a_region_and_keep_others() {
    let mut service = MeteorologicalService::new();
    service.ingest_fixture_batch(batch("us-west", 1, 1)).expect("first");
    service.ingest_fixture_batch(batch("us-east", 1, 2)).expect("second");
    let mut replacement = batch("us-west", 1, 1);
    replacement.view.view_id = "view-replaced".to_string();
    service.ingest_fixture_batch(replacement).expect("third");
    assert_eq!(service.weather_view("us-west").map(|v| v.view_id.as_str()), Some("view-replaced"));
    assert_eq!(service.weather_view("us-east"), Some(&view("us-east")));
    assert_eq!(service.published_products().len(), 4);
    assert_eq!(service.updated_alerts().len(), 3);
}

#[test]
fn empty_batches_are_refused_without_changes() {
    let mut service = MeteorologicalService::new();
    let no_raw = service.ingest_fixture_batch(batch("us-west", 0, 1)).unwrap_err();
    assert_eq!(no_raw.category(), InstitutionalErrorCategory::InvariantViolation);
    assert_eq!(no_raw.message(), "weather ingest requires at least one raw source asset");
    let no_products = service.ingest_fixture_batch(batch("us-west", 1, 0)).unwrap_err();
    assert_eq!(no_products.message(), "weather ingest requires at least one normalized weather product");
    assert_eq!(no_products.context().operation, "ingest_fixture_batch");
    assert_eq!(service.weather_view("us-west"), None);
    assert!(service.published_products().is_empty());
}
