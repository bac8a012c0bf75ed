use sleek::output_path::{normalize_output_path, output_pattern, resolve_output_path, DEFAULT_PATTERN};

#[test]
fn extension_is_not_doubled() {
    assert_eq!(normalize_output_path("shot.png"), "shot.png");
    assert_eq!(normalize_output_path("shot"), "shot.png");
    assert_eq!(normalize_output_path("shot.png.png"), "shot.png");
}

#[test]
fn white_space_is_trimmed() {
    assert_eq!(normalize_output_path("  shot.png \n"), "shot.png");
    assert_eq!(normalize_output_path("\tmy shot "), "my shot.png");
}

#[test]
fn inner_png_is_kept() {
    assert_eq!(normalize_output_path("a.pngb"), "a.pngb.png");
    assert_eq!(normalize_output_path(".png"), ".png");
    assert_eq!(normalize_output_path(""), ".png");
}

// 2022-02-01 13:50:00 UTC.
const INSTANT: i64 = 1_643_723_400;

#[test]
fn plain_patterns_resolve_to_themselves() {
    assert_eq!(resolve_output_path(Some("shot.png"), INSTANT, 0, 0), Some("shot.png".to_string()));
    assert_eq!(resolve_output_path(Some("shot"), INSTANT, 0, 0), Some("shot.png".to_string()));
}

#[test]
fn patterns_are_formatted_for_the_instant_and_offset() {
    assert_eq!(resolve_output_path(Some("%Y.png"), INSTANT, 0, 0), Some("2022.png".to_string()));
    assert_eq!(
        resolve_output_path(Some("at-%H:%M"), INSTANT, 0, 3600),
        Some("at-14:50.png".to_string())
    );
}

#[test]
fn default_pattern_embeds_the_date_and_time() {
    assert_eq!(
        resolve_output_path(None, INSTANT, 0, 0),
        Some("sleek-2022-02-01:13:50:00.png".to_string())
    );
    assert_eq!(output_pattern(None), DEFAULT_PATTERN);
    assert_eq!(output_pattern(Some("x")), "x");
}

#[test]
fn unformattable_pattern_gives_none() {
    assert_eq!(resolve_output_path(Some("bad-%Q"), INSTANT, 0, 0), None);
}

#[test]
fn out_of_range_offset_or_instant_gives_none() {
    assert_eq!(resolve_output_path(Some("shot"), INSTANT, 0, 86_400), None);
    assert_eq!(resolve_output_path(Some("shot"), i64::MAX, 0, 0), None);
}
