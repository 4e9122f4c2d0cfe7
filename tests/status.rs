use glucose_status::clock::get_epoch_ms;
use glucose_status::status::format_status;

#[test]
fn status_in_range_is_chill() {
    assert_eq!(format_status(150), "We chillin (150 mg/dL)");
}

#[test]
fn status_very_low_asks_for_help() {
    assert_eq!(format_status(45), "I'm in sugar withdrawls, send help (45 mg/dL)");
}

#[test]
fn status_very_high_asks_for_help() {
    assert_eq!(format_status(310), "I'm currently ODing on sugar, send help (310 mg/dL)");
}

#[test]
fn status_low_and_high_bands() {
    assert_eq!(format_status(65), "Tell me to eat something, I'm a little low (65 mg/dL)");
    assert_eq!(format_status(250), "I'm a little high, tell me to do some pushups (250 mg/dL)");
}

#[test]
fn status_band_edges() {
    assert_eq!(format_status(40), "I'm in sugar withdrawls, send help (40 mg/dL)");
    assert_eq!(format_status(59), "I'm in sugar withdrawls, send help (59 mg/dL)");
    assert_eq!(format_status(60), "Tell me to eat something, I'm a little low (60 mg/dL)");
    assert_eq!(format_status(79), "Tell me to eat something, I'm a little low (79 mg/dL)");
    assert_eq!(format_status(80), "We chillin (80 mg/dL)");
    assert_eq!(format_status(199), "We chillin (199 mg/dL)");
    assert_eq!(format_status(200), "I'm a little high, tell me to do some pushups (200 mg/dL)");
    assert_eq!(format_status(299), "I'm a little high, tell me to do some pushups (299 mg/dL)");
    assert_eq!(format_status(300), "I'm currently ODing on sugar, send help (300 mg/dL)");
}

#[test]
fn status_below_every_band_falls_to_the_last() {
    assert_eq!(format_status(39), "I'm currently ODing on sugar, send help (39 mg/dL)");
    assert_eq!(format_status(0), "I'm currently ODing on sugar, send help (0 mg/dL)");
    assert_eq!(
        format_status(u32::MAX),
        "I'm currently ODing on sugar, send help (4294967295 mg/dL)"
    );
}

#[test]
fn epoch_ms_is_after_2020() {
    assert!(get_epoch_ms() > 1_577_836_800_000);
}
