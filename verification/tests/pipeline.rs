use image_converter::config::{Config, Environment};
use image_converter::domain::image_processing::{process_image, ProcessOptions, Resize};
use image_converter::error::AppError;
use image_converter::web::etag::SourceMetadata;
use image_converter::web::handlers::{
    begin, handle_image, source_path, ImageRequest, PipelineAction, PipelineEvent, PipelineState,
    ResizeParams,
};
use image_converter::web::negotiation::OutputFormat;
use image_converter::web::response::{
    image_response, not_modified_response, ImageResponse, STATUS_NOT_MODIFIED, STATUS_OK,
};
use image_converter::web::admission::admission_pool;
use image_converter::web::REQUEST_DEADLINE_SECS;

fn config() -> Config {
    Config::from_env(Environment::default())
}

fn cat_metadata() -> SourceMetadata {
    SourceMetadata { modified_secs: 1_700_000_000, modified_nanos: 0, size: 48_213 }
}

fn request(id: &str, width: Option<u32>, accept: Option<&str>, if_none_match: Option<&str>) -> ImageRequest {
    ImageRequest {
        image_id: id.to_string(),
        params: ResizeParams { width, height: None },
        accept: accept.map(|s| s.to_string()),
        if_none_match: if_none_match.map(|s| s.to_string()),
    }
}

fn header<'a>(response: &'a ImageResponse, name: &str) -> Option<&'a str> {
    response.headers.iter().find(|h| h.0 == name).map(|h| h.1.as_str())
}

fn respond(action: PipelineAction) -> ImageResponse {
    match action {
        PipelineAction::Respond(response) => response,
        other => panic!("no response: {:?}", other),
    }
}

fn failure(action: PipelineAction) -> AppError {
    match action {
        PipelineAction::Fail(e) => e,
        other => panic!("no failure: {:?}", other),
    }
}

/// Runs a request up to the transform and hands back the state and what is to be transformed.
fn until_transform(req: ImageRequest) -> (PipelineState, String, ProcessOptions) {
    let (state, _) = begin(&config(), req);
    let (state, action) = handle_image(state, PipelineEvent::MetadataFound(cat_metadata()));
    assert_eq!(action, PipelineAction::AcquirePermit);
    let (state, action) = handle_image(state, PipelineEvent::PermitGranted);
    match action {
        PipelineAction::Transform { source_path, options } => (state, source_path, options),
        other => panic!("no transform: {:?}", other),
    }
}

#[test]
fn deadline_is_five_seconds() {
    assert_eq!(REQUEST_DEADLINE_SECS, 5);
}

#[test]
fn source_path_is_directory_id_and_png() {
    assert_eq!(source_path("images", "cat"), "images/cat.png");
    assert_eq!(source_path("/srv/images", "a.b"), "/srv/images/a.b.png");
    assert_eq!(source_path("", ""), "/.png");
}

#[test]
fn pipeline_starts_by_reading_the_metadata() {
    let req = request("cat", Some(200), Some("image/webp"), None);
    let (state, action) = begin(&config(), req.clone());
    assert_eq!(action, PipelineAction::ReadMetadata { source_path: "images/cat.png".to_string() });
    assert_eq!(
        state,
        PipelineState::AwaitingMetadata { request: req, source_path: "images/cat.png".to_string() }
    );
    assert!(!state.holds_permit());
    assert!(!state.is_done());
}

#[test]
fn cat_at_width_200_as_webp() {
    let (state, path, options) = until_transform(request("cat", Some(200), Some("image/webp"), None));
    assert!(state.holds_permit());
    assert_eq!(path, "images/cat.png");
    assert_eq!(
        options,
        ProcessOptions { width: Some(200), height: None, format_suffix: ".webp".to_string() }
    );
    let plan = process_image(800, 600, options).unwrap();
    assert_eq!(plan.resize, Resize::ToWidth(200));
    assert_eq!(plan.save_options, ".webp[Q=75]");
    let (state, action) = handle_image(state, PipelineEvent::TransformDone(vec![1, 2, 3]));
    assert!(state.is_done());
    assert!(!state.holds_permit());
    let response = respond(action);
    assert_eq!(response.status, 200);
    assert_eq!(header(&response, "content-type"), Some("image/webp"));
    assert_eq!(header(&response, "cache-control"), Some("public, max-age=31536000, immutable"));
    assert_eq!(header(&response, "vary"), Some("Accept"));
    assert!(header(&response, "etag").is_some());
    assert_eq!(response.headers.len(), 4);
    assert_eq!(response.body, vec![1, 2, 3]);
}

#[test]
fn repeat_with_the_etag_of_the_response_is_not_modified() {
    let (state, _, _) = until_transform(request("cat", Some(200), Some("image/webp"), None));
    let (_, action) = handle_image(state, PipelineEvent::TransformDone(vec![1, 2, 3]));
    let first = respond(action);
    let etag = header(&first, "etag").unwrap().to_string();

    let (state, _) = begin(&config(), request("cat", Some(200), Some("image/webp"), Some(&etag)));
    let (state, action) = handle_image(state, PipelineEvent::MetadataFound(cat_metadata()));
    assert!(state.is_done());
    let response = respond(action);
    assert_eq!(response.status, 304);
    assert!(response.body.is_empty());
    assert_eq!(response.headers, vec![("etag".to_string(), etag)]);
}

#[test]
fn cache_hit_asks_for_no_permit_and_no_transform() {
    let (state, _, _) = until_transform(request("cat", None, None, None));
    let (_, action) = handle_image(state, PipelineEvent::TransformDone(Vec::new()));
    let etag = header(&respond(action), "etag").unwrap().to_string();

    let (state, _) = begin(&config(), request("cat", None, None, Some(&etag)));
    let (mut state, action) = handle_image(state, PipelineEvent::MetadataFound(cat_metadata()));
    assert!(matches!(action, PipelineAction::Respond(_)));
    for _ in 0..3 {
        for event in [
            PipelineEvent::PermitGranted,
            PipelineEvent::TransformDone(vec![9]),
            PipelineEvent::MetadataFound(cat_metadata()),
        ] {
            let (next, action) = handle_image(state, event);
            assert!(matches!(action, PipelineAction::Fail(AppError::UnexpectedError(_))));
            assert!(next.is_done());
            state = next;
        }
    }
}

#[test]
fn etag_of_another_request_is_not_fresh() {
    let (state, _, _) = until_transform(request("cat", Some(200), Some("image/webp"), None));
    let (_, action) = handle_image(state, PipelineEvent::TransformDone(Vec::new()));
    let etag = header(&respond(action), "etag").unwrap().to_string();

    for other in [
        request("cat", Some(201), Some("image/webp"), Some(&etag)),
        request("cat", Some(200), Some("image/png"), Some(&etag)),
        request("cat", None, Some("image/webp"), Some(&etag)),
    ] {
        let (state, _) = begin(&config(), other);
        let (_, action) = handle_image(state, PipelineEvent::MetadataFound(cat_metadata()));
        assert_eq!(action, PipelineAction::AcquirePermit);
    }
    let mut touched = cat_metadata();
    touched.modified_secs += 60;
    let (state, _) = begin(&config(), request("cat", Some(200), Some("image/webp"), Some(&etag)));
    let (_, action) = handle_image(state, PipelineEvent::MetadataFound(touched));
    assert_eq!(action, PipelineAction::AcquirePermit);
}

#[test]
fn missing_image_is_not_found() {
    let (state, action) = begin(&config(), request("missing", None, None, None));
    assert_eq!(action, PipelineAction::ReadMetadata { source_path: "images/missing.png".to_string() });
    let (state, action) = handle_image(state, PipelineEvent::MetadataMissing);
    assert!(state.is_done());
    let e = failure(action);
    assert_eq!(e, AppError::NotFound);
    let body = e.into_response();
    assert_eq!(body.status, 404);
    assert_eq!(body.kind, "Not Found");
    assert_eq!(body.message, "Image not found");
}

#[test]
fn filesystem_failure_other_than_absence_is_a_storage_error() {
    let (state, _) = begin(&config(), request("cat", None, None, None));
    let (state, action) =
        handle_image(state, PipelineEvent::MetadataFailed("permission denied".to_string()));
    assert!(state.is_done());
    let e = failure(action);
    assert_eq!(e, AppError::IoError("permission denied".to_string()));
    let body = e.into_response();
    assert_eq!(body.status, 500);
    assert_eq!(body.message, "Storage error");
}

#[test]
fn closed_pool_is_server_busy() {
    let (state, _) = begin(&config(), request("cat", None, None, None));
    let (state, _) = handle_image(state, PipelineEvent::MetadataFound(cat_metadata()));
    let (state, action) = handle_image(state, PipelineEvent::PoolClosed);
    assert!(state.is_done());
    assert!(!state.holds_permit());
    let e = failure(action);
    assert_eq!(e, AppError::ServerBusy);
    assert_eq!(e.into_response().status, 503);
}

#[test]
fn source_of_6000_by_6000_is_a_bad_request() {
    let (state, _, options) = until_transform(request("huge", None, None, None));
    let e = process_image(6000, 6000, options).unwrap_err();
    let (state, action) = handle_image(state, PipelineEvent::TransformFailed(e));
    assert!(state.is_done());
    let body = failure(action).into_response();
    assert_eq!(body.status, 400);
    assert_eq!(body.kind, "Bad Request");
    assert_eq!(body.message, "Image exceed the max allowed size of 5000x5000");
    assert!(body.message.contains("5000"));
}

#[test]
fn width_5000_is_a_bad_request() {
    let (state, _, options) = until_transform(request("cat", Some(5000), None, None));
    let e = process_image(800, 600, options).unwrap_err();
    let (_, action) = handle_image(state, PipelineEvent::TransformFailed(e));
    let body = failure(action).into_response();
    assert_eq!(body.status, 400);
    assert_eq!(body.message, "Requested width (5000) exceeds the limit of 4000");
    assert!(body.message.contains("4000"));
}

#[test]
fn failed_transform_is_passed_on() {
    let (state, _, _) = until_transform(request("cat", None, None, None));
    let (state, action) = handle_image(
        state,
        PipelineEvent::TransformFailed(AppError::VipsError("bad header".to_string())),
    );
    assert!(state.is_done());
    let e = failure(action);
    assert_eq!(e, AppError::VipsError("bad header".to_string()));
    let body = e.into_response();
    assert_eq!(body.status, 500);
    assert_eq!(body.message, "Image Processing Failed");
}

#[test]
fn aborted_transform_is_an_unexpected_error() {
    let (state, _, _) = until_transform(request("cat", None, None, None));
    let (state, action) =
        handle_image(state, PipelineEvent::TransformAborted("task panicked".to_string()));
    assert!(state.is_done());
    let e = failure(action);
    assert_eq!(e, AppError::UnexpectedError("task panicked".to_string()));
    assert_eq!(e.into_response().message, "Internal Server Error");
}

#[test]
fn event_out_of_order_ends_the_request() {
    let (state, _) = begin(&config(), request("cat", None, None, None));
    let (state, action) = handle_image(state, PipelineEvent::PermitGranted);
    assert!(state.is_done());
    assert_eq!(failure(action), AppError::UnexpectedError("Event out of order".to_string()));

    let (state, _) = begin(&config(), request("cat", None, None, None));
    let (state, _) = handle_image(state, PipelineEvent::MetadataFound(cat_metadata()));
    let (state, action) = handle_image(state, PipelineEvent::TransformDone(vec![1]));
    assert!(state.is_done());
    assert_eq!(failure(action), AppError::UnexpectedError("Event out of order".to_string()));

    let (state, _, _) = until_transform(request("cat", None, None, None));
    let (state, action) = handle_image(state, PipelineEvent::PoolClosed);
    assert!(state.is_done());
    assert_eq!(failure(action), AppError::UnexpectedError("Event out of order".to_string()));
}

#[test]
fn header_without_a_known_mime_is_served_jpeg() {
    let (state, _, options) = until_transform(request("cat", None, Some("text/html"), None));
    assert_eq!(options.format_suffix, ".jpg");
    let (_, action) = handle_image(state, PipelineEvent::TransformDone(vec![0xff, 0xd8]));
    let response = respond(action);
    assert_eq!(header(&response, "content-type"), Some("image/jpeg"));
}

#[test]
fn height_is_handed_to_the_transform_with_the_width() {
    let mut req = request("cat", Some(200), None, None);
    req.params.height = Some(100);
    let (_, _, options) = until_transform(req);
    assert_eq!(options.width, Some(200));
    assert_eq!(options.height, Some(100));
    assert_eq!(process_image(800, 600, options).unwrap().resize, Resize::ToWidth(200));
}

#[test]
fn not_modified_response_has_the_validator_alone() {
    let response = not_modified_response("1f");
    assert_eq!(STATUS_NOT_MODIFIED, 304);
    assert_eq!(response.status, 304);
    assert_eq!(response.headers, vec![("etag".to_string(), "\"1f\"".to_string())]);
    assert!(response.body.is_empty());
}

#[test]
fn image_response_has_four_headers_and_the_body() {
    let response = image_response(OutputFormat::Avif, "1f", vec![7, 8]);
    assert_eq!(STATUS_OK, 200);
    assert_eq!(
        response,
        ImageResponse {
            status: 200,
            headers: vec![
                ("content-type".to_string(), "image/avif".to_string()),
                ("cache-control".to_string(), "public, max-age=31536000, immutable".to_string()),
                ("vary".to_string(), "Accept".to_string()),
                ("etag".to_string(), "\"1f\"".to_string()),
            ],
            body: vec![7, 8],
        }
    );
}

#[test]
fn admission_pool_has_as_many_permits_as_the_limit() {
    let mut config = config();
    config.concurrency_limit = 3;
    let pool = admission_pool(&config).unwrap();
    assert_eq!(pool.available_permits(), 3);
    assert!(!pool.is_closed());
    let first = pool.try_acquire().unwrap();
    let _second = pool.try_acquire().unwrap();
    let _third = pool.try_acquire().unwrap();
    assert!(pool.try_acquire().is_err());
    drop(first);
    assert_eq!(pool.available_permits(), 1);
}

#[test]
fn admission_pool_of_no_permits_admits_nothing() {
    let mut config = config();
    config.concurrency_limit = 0;
    let pool = admission_pool(&config).unwrap();
    assert_eq!(pool.available_permits(), 0);
    assert!(pool.try_acquire().is_err());
}

#[test]
fn admission_pool_stops_at_the_most_a_pool_can_hold() {
    let mut config = config();
    config.concurrency_limit = usize::MAX / 8;
    assert_eq!(admission_pool(&config).unwrap().available_permits(), usize::MAX / 8);
    config.concurrency_limit = usize::MAX / 8 + 1;
    assert!(admission_pool(&config).is_none());
    config.concurrency_limit = usize::MAX;
    assert!(admission_pool(&config).is_none());
}

#[test]
fn validator_that_is_no_header_value_is_left_out() {
    let response = not_modified_response("1\n");
    assert_eq!(response.status, 304);
    assert!(response.headers.is_empty());
    let response = image_response(OutputFormat::Png, "\u{7f}", vec![1]);
    assert_eq!(response.headers.len(), 3);
    assert_eq!(header(&response, "etag"), None);
    let response = image_response(OutputFormat::Png, "a\tb é", vec![1]);
    assert_eq!(header(&response, "etag"), Some("\"a\tb é\""));
}
