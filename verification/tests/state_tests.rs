use eframe_template::state::{load, save, AppState};

fn plain(label: &str, value_tenths: u64) -> AppState {
    AppState { label: label.to_owned(), value_tenths, url: String::new() }
}

#[test]
fn load_without_stored_state_yields_defaults() {
    let s = load(None);
    assert_eq!(s.label, "Hello World!");
    assert_eq!(s.value_tenths, 27);
    assert_eq!(s.url, "");
}

#[test]
fn save_renders_digits_newline_label() {
    assert_eq!(save(&plain("hi", 27)), "27\nhi");
    assert_eq!(save(&plain("", 0)), "0\n");
}

#[test]
fn save_then_load_round_trips() {
    let s = plain("a label", 123);
    assert_eq!(load(Some(save(&s))), s);
}

#[test]
fn round_trip_keeps_label_with_newlines_and_digits() {
    let s = plain("line one\n42\nline two", 9000);
    assert_eq!(load(Some(save(&s))), s);
}

#[test]
fn round_trip_extreme_values() {
    let zero = plain("z", 0);
    assert_eq!(load(Some(save(&zero))), zero);
    let max = plain("m", u64::MAX);
    assert_eq!(load(Some(save(&max))), max);
}

#[test]
fn load_without_separator_yields_defaults() {
    let s = load(Some("271828".to_owned()));
    assert_eq!(s, plain("Hello World!", 27));
}

#[test]
fn load_with_non_digit_prefix_yields_defaults() {
    let s = load(Some("12x\nfoo".to_owned()));
    assert_eq!(s, plain("Hello World!", 27));
}

#[test]
fn load_with_overflowing_value_yields_defaults() {
    let s = load(Some("99999999999999999999999\nfoo".to_owned()));
    assert_eq!(s, plain("Hello World!", 27));
}

#[test]
fn load_with_empty_digit_prefix_yields_value_zero() {
    let s = load(Some("\nfoo".to_owned()));
    assert_eq!(s, plain("foo", 0));
}

#[test]
fn increment_adds_exactly_one_unit() {
    let mut s = load(None);
    s.increment_value();
    assert_eq!(s.value_tenths, 37);
    assert_eq!(s.label, "Hello World!");
}

#[test]
fn increment_is_unbounded_above_slider_range() {
    // The slider's nominal range tops out at 10.0 units (100 tenths).
    let mut s = plain("x", 100);
    s.increment_value();
    assert_eq!(s.value_tenths, 110);
    s.increment_value();
    assert_eq!(s.value_tenths, 120);
}
