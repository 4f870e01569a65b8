use now_playing::discord::timestamps::{
    ONE_YEAR_MS,
    calc_paused_timestamps,
    calc_playing_timestamps,
};
use now_playing::discord::{
    ActivityData,
    update_fits,
};
use now_playing::model::PlaybackStatus;
use now_playing::text::{
    matches_at,
    replace,
    starts_with,
};

#[test]
fn prefix_checks() {
    assert!(starts_with("https://x", "http"));
    assert!(starts_with("http", "http"));
    assert!(!starts_with("htt", "http"));
    assert!(!starts_with("ftp://x", "http"));
    assert!(starts_with("anything", ""));
    assert!(matches_at("a http://b", 2, "http://"));
    assert!(!matches_at("a http://b", 3, "http://"));
    assert!(!matches_at("ab", 2, "c"));
}

#[test]
fn replace_every_occurrence() {
    assert_eq!(replace("http://a/http://b", "http://", "https://"), "https://a/https://b");
    assert_eq!(replace("no match here", "http://", "https://"), "no match here");
    assert_eq!(replace("aaa", "aa", "b"), "ba");
    assert_eq!(replace("", "x", "y"), "");
    assert_eq!(replace("héllo wörld", "ö", "o"), "héllo world");
}

#[test]
fn cover_url_upgrades_http() {
    assert_eq!(
        ActivityData::process_cover_url(Some("http://img.example/c.jpg"), "icon"),
        "https://img.example/c.jpg"
    );
    assert_eq!(
        ActivityData::process_cover_url(Some("https://img.example/c.jpg"), "icon"),
        "https://img.example/c.jpg"
    );
    assert_eq!(ActivityData::process_cover_url(Some("httpfoo"), "icon"), "httpfoo");
}

#[test]
fn cover_url_falls_back_to_default_icon() {
    assert_eq!(ActivityData::process_cover_url(None, "icon"), "icon");
    assert_eq!(ActivityData::process_cover_url(Some("ftp://x/y.png"), "icon"), "icon");
    assert_eq!(ActivityData::process_cover_url(Some(""), "icon"), "icon");
}

#[test]
fn cover_url_processing_twice_is_processing_once() {
    let once = ActivityData::process_cover_url(Some("http://a/http://b"), "icon");
    let twice = ActivityData::process_cover_url(Some(&once), "icon");
    assert_eq!(once, twice);
}

#[test]
fn playing_timestamps_end_when_song_ends() {
    assert_eq!(calc_playing_timestamps(1_000, 5_000, 10_000), (9_000, 14_000));
    assert_eq!(calc_playing_timestamps(0, 180_000, 1_700_000_000_000), (
        1_700_000_000_000,
        1_700_000_180_000
    ));
}

#[test]
fn playing_timestamps_past_the_end_are_zero() {
    assert_eq!(calc_playing_timestamps(5_000, 5_000, 10_000), (0, 0));
    assert_eq!(calc_playing_timestamps(6_000, 5_000, 10_000), (0, 0));
}

#[test]
fn paused_timestamps_are_a_year_ahead() {
    let (start, end) = calc_paused_timestamps(1_000, 5_000, 10_000);
    assert_eq!(ONE_YEAR_MS, 365 * 24 * 60 * 60 * 1000);
    assert_eq!(start, 9_000 + ONE_YEAR_MS);
    assert_eq!(end - start, 5_000);
}

#[test]
fn overflowing_updates_are_detected() {
    assert!(update_fits(PlaybackStatus::Playing, 0, Some(1_000), false, None, 10));
    assert!(!update_fits(PlaybackStatus::Playing, i64::MIN, Some(1_000), false, None, 10));
    assert!(update_fits(PlaybackStatus::Paused, 0, Some(1_000), false, None, i64::MAX));
    assert!(!update_fits(PlaybackStatus::Paused, 0, Some(1_000), true, None, i64::MAX));
    assert!(update_fits(PlaybackStatus::Playing, 0, None, true, Some(i64::MIN), i64::MAX));
    assert!(!update_fits(PlaybackStatus::Playing, 0, Some(10), false, Some(i64::MIN), 100));
}
