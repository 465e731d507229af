use eframe_template::fetch::{parse_response, FetchController, FetchResponse, FetchState};

fn response(content_type: Option<&str>, bytes: Vec<u8>) -> FetchResponse {
    FetchResponse {
        url: "http://example.invalid/picture".to_owned(),
        content_type: content_type.map(|c| c.to_owned()),
        bytes,
    }
}

/// A 2x3 PNG whose pixel at (x, y) is (10x, 10y, 7, 255).
fn png_bytes() -> Vec<u8> {
    let img = image::RgbaImage::from_fn(2, 3, |x, y| {
        image::Rgba([10 * x as u8, 10 * y as u8, 7, 255])
    });
    let mut out = std::io::Cursor::new(Vec::new());
    img.write_to(&mut out, image::ImageFormat::Png).unwrap();
    out.into_inner()
}

#[test]
fn wrong_content_type_is_rejected_with_named_type() {
    let r = parse_response(response(Some("text/html"), png_bytes()));
    assert_eq!(r, Err("Expected image, found content-type \"text/html\"".to_owned()));
}

#[test]
fn missing_content_type_is_rejected() {
    let r = parse_response(response(None, png_bytes()));
    assert_eq!(r, Err("Expected image, found content-type \"\"".to_owned()));
}

#[test]
fn valid_image_decodes_with_source_dimensions() {
    let r = parse_response(response(Some("image/png"), png_bytes()));
    let bitmap = r.expect("a valid PNG must decode");
    assert_eq!(bitmap.width, 2);
    assert_eq!(bitmap.height, 3);
    assert_eq!(bitmap.rgba.len(), 2 * 3 * 4);
    // Pixel (1, 2) sits at ((2 * width + 1) * 4) and must hold its color.
    assert_eq!(&bitmap.rgba[20..24], &[10, 20, 7, 255]);
}

#[test]
fn undecodable_bytes_with_image_content_type_fail() {
    let r = parse_response(response(Some("image/png"), vec![1, 2, 3, 4]));
    assert!(r.is_err());
}

#[test]
fn controller_starts_idle_and_goes_pending() {
    let mut c = FetchController::new();
    assert_eq!(*c.current(), FetchState::Idle);
    let token = c.start();
    assert_eq!(token, 1);
    assert_eq!(*c.current(), FetchState::Pending);
}

#[test]
fn delivery_resolves_pending_fetch() {
    let mut c = FetchController::new();
    let token = c.start();
    c.deliver(token, Ok(response(Some("image/png"), png_bytes())));
    match c.current() {
        FetchState::Ready { bitmap } => {
            assert_eq!((bitmap.width, bitmap.height), (2, 3));
        }
        other => panic!("expected Ready, found {:?}", other),
    }
}

#[test]
fn transport_error_resolves_to_failed_with_message() {
    let mut c = FetchController::new();
    let token = c.start();
    c.deliver(token, Err("connection refused".to_owned()));
    assert_eq!(*c.current(), FetchState::Failed { message: "connection refused".to_owned() });
}

#[test]
fn second_fetch_discards_first_outcome() {
    let mut c = FetchController::new();
    let first = c.start();
    let second = c.start();
    // The first fetch resolves late, with a perfectly good image: discarded.
    c.deliver(first, Ok(response(Some("image/png"), png_bytes())));
    assert_eq!(*c.current(), FetchState::Pending);
    // Only the second fetch's outcome is ever observable.
    c.deliver(second, Err("timed out".to_owned()));
    assert_eq!(*c.current(), FetchState::Failed { message: "timed out".to_owned() });
}

#[test]
fn delivery_after_resolution_changes_nothing() {
    let mut c = FetchController::new();
    let token = c.start();
    c.deliver(token, Err("first".to_owned()));
    c.deliver(token, Err("second".to_owned()));
    assert_eq!(*c.current(), FetchState::Failed { message: "first".to_owned() });
}

#[test]
fn delivery_while_idle_changes_nothing() {
    let mut c = FetchController::new();
    c.deliver(0, Err("noise".to_owned()));
    assert_eq!(*c.current(), FetchState::Idle);
    assert_eq!(c.generation, 0);
}
