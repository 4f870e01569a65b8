use now_playing::discord::activity::IpcRequest;
use now_playing::discord::timestamps::ONE_YEAR_MS;
use now_playing::discord::{
    Clock,
    DiscordAdapter,
    Pending,
    RECONNECT_COOLDOWN_MS,
};
use now_playing::model::{
    DiscordButton,
    DiscordConfigPayload,
    DiscordDisplayMode,
    DiscordOptions,
    MetadataPayload,
    PlayStatePayload,
    PlaybackStatus,
    TimelinePayload,
};

fn options() -> DiscordOptions {
    DiscordOptions {
        app_id: "1234".to_string(),
        default_icon_asset_key: "logo".to_string(),
        small_icon_hover_text: "Player".to_string(),
    }
}

fn song(duration: Option<i64>, buttons: usize) -> MetadataPayload {
    MetadataPayload {
        song_name: "Song".to_string(),
        author_name: "Artist".to_string(),
        album_name: "Album".to_string(),
        original_cover_url: Some("http://covers.example/1.jpg".to_string()),
        cover_data: None,
        duration,
        track_id: Some(7),
        genre: vec!["Pop".to_string()],
        discord_buttons: Some(
            (0..buttons)
                .map(|i| DiscordButton {
                    label: format!("b{i}"),
                    url: format!("https://x/{i}"),
                })
                .collect(),
        ),
    }
}

fn at(monotonic_ms: u64, unix_ms: i64) -> Clock {
    Clock {
        monotonic_ms,
        unix_ms,
    }
}

/// An enabled, connected adapter with a paused song of 10 s.
fn connected(show_when_paused: bool) -> DiscordAdapter {
    let mut a = DiscordAdapter::new(Some(options()));
    let c = at(0, 1_000_000);
    assert!(matches!(a.enable(c), IpcRequest::Idle));
    a.update_config(
        DiscordConfigPayload {
            show_when_paused,
            display_mode: None,
        },
        c,
    );
    assert!(matches!(a.update_metadata(song(Some(10_000), 0), c), IpcRequest::Connect { .. }));
    let r = a.resume(true, c);
    assert!(!r.is_idle());
    assert!(a.resume(true, c).is_idle());
    assert!(a.is_connected());
    a
}

#[test]
fn new_adapter_is_disabled_and_idle() {
    let a = DiscordAdapter::new(Some(options()));
    assert!(!a.is_enabled());
    assert!(!a.is_connected());
    assert_eq!(a.playback_status(), None);
    assert_eq!(a.display_mode(), DiscordDisplayMode::Name);
    assert!(!a.show_when_paused());
    assert_eq!(a.pending(), Pending::Nothing);
}

#[test]
fn disabled_adapter_never_connects() {
    let mut a = DiscordAdapter::new(Some(options()));
    let c = at(0, 0);
    assert!(a.update_metadata(song(Some(1_000), 0), c).is_idle());
    assert!(a.tick(c).is_idle());
    assert!(!a.is_connected());
    assert_eq!(a.cached_cover_url().as_deref(), Some("https://covers.example/1.jpg"));
}

#[test]
fn adapter_without_options_never_connects() {
    let mut a = DiscordAdapter::new(None);
    let c = at(0, 0);
    assert!(a.enable(c).is_idle());
    assert!(a.update_metadata(song(Some(1_000), 0), c).is_idle());
    assert_eq!(a.cached_cover_url().as_deref(), Some("https://covers.example/1.jpg"));
}

#[test]
fn enabling_with_a_song_connects() {
    let mut a = DiscordAdapter::new(Some(options()));
    let c = at(0, 0);
    a.update_metadata(song(Some(1_000), 0), c);
    match a.enable(c) {
        IpcRequest::Connect { app_id } => assert_eq!(app_id, "1234"),
        other => panic!("expected a connection, got {other:?}"),
    }
    assert_eq!(a.pending(), Pending::Connection);
}

#[test]
fn paused_and_hidden_clears_the_activity() {
    let mut a = DiscordAdapter::new(Some(options()));
    let c = at(0, 0);
    a.enable(c);
    a.update_metadata(song(Some(1_000), 0), c);
    assert!(matches!(a.resume(true, c), IpcRequest::ClearActivity));
    assert!(a.resume(true, c).is_idle());
    assert_eq!(a.last_sent_end_timestamp(), None);
}

#[test]
fn paused_and_shown_sends_a_still_bar() {
    let mut a = connected(true);
    let c = at(10, 2_000_000);
    a.update_timeline(
        TimelinePayload {
            current_time: 4_000,
            total_time: 10_000,
            seeked: None,
        },
        c,
    );
    // the update above sent the activity; check what a sync at `c` sends
    assert!(a.resume(true, c).is_idle());
    match a.update_config(
        DiscordConfigPayload {
            show_when_paused: true,
            display_mode: Some(DiscordDisplayMode::Details),
        },
        c,
    ) {
        IpcRequest::SetActivity(plan) => {
            let start = 2_000_000 - 4_000 + ONE_YEAR_MS;
            assert_eq!(plan.timestamps, Some((start, start + 10_000)));
            assert_eq!(plan.assets.small_text, "Paused");
            assert_eq!(plan.assets.small_image, "logo");
            assert_eq!(plan.status_display_type, DiscordDisplayMode::Details);
        }
        other => panic!("expected an activity, got {other:?}"),
    }
}

#[test]
fn playing_sends_timestamps_and_remembers_the_end() {
    let mut a = connected(false);
    let c = at(10, 5_000_000);
    match a.update_play_state(
        PlayStatePayload {
            status: PlaybackStatus::Playing,
        },
        c,
    ) {
        IpcRequest::SetActivity(plan) => {
            assert_eq!(plan.timestamps, Some((5_000_000, 5_010_000)));
            assert_eq!(plan.details, "Song");
            assert_eq!(plan.state, "Artist");
            assert_eq!(plan.assets.large_image, "https://covers.example/1.jpg");
            assert_eq!(plan.assets.large_text, "Album");
            assert_eq!(plan.assets.small_text, "Player");
        }
        other => panic!("expected an activity, got {other:?}"),
    }
    assert!(a.resume(true, c).is_idle());
    assert_eq!(a.last_sent_end_timestamp(), Some(5_010_000));
}

#[test]
fn small_moves_of_the_end_are_not_sent() {
    let mut a = connected(false);
    let c = at(10, 5_000_000);
    a.update_play_state(
        PlayStatePayload {
            status: PlaybackStatus::Playing,
        },
        c,
    );
    a.resume(true, c);
    // 50 ms later, 40 ms further into the song: the end moved by 10 ms
    let later = at(60, 5_000_050);
    let r = a.update_timeline(
        TimelinePayload {
            current_time: 40,
            total_time: 10_000,
            seeked: None,
        },
        later,
    );
    assert!(r.is_idle());
    assert_eq!(a.last_sent_end_timestamp(), Some(5_010_000));
    // a seek of 3 s moves it far enough
    let r = a.update_timeline(
        TimelinePayload {
            current_time: 3_000,
            total_time: 10_000,
            seeked: Some(true),
        },
        later,
    );
    assert!(matches!(r, IpcRequest::SetActivity(_)));
}

#[test]
fn failed_update_disconnects_and_waits() {
    let mut a = connected(false);
    let c = at(100, 5_000_000);
    a.update_play_state(
        PlayStatePayload {
            status: PlaybackStatus::Playing,
        },
        c,
    );
    assert!(matches!(a.resume(false, c), IpcRequest::Close));
    assert!(!a.is_connected());
    assert_eq!(a.next_retry_time(), Some(100 + RECONNECT_COOLDOWN_MS));
    assert_eq!(a.last_sent_end_timestamp(), None);
    // no reconnection before the cooldown ends
    assert!(a.tick(at(5_099, 5_005_000)).is_idle());
    assert!(matches!(a.tick(at(5_100, 5_005_000)), IpcRequest::Connect { .. }));
}

#[test]
fn failed_connection_waits_for_the_cooldown() {
    let mut a = DiscordAdapter::new(Some(options()));
    let c = at(1_000, 0);
    a.update_metadata(song(None, 0), c);
    assert!(matches!(a.enable(c), IpcRequest::Connect { .. }));
    assert!(a.resume(false, c).is_idle());
    assert_eq!(a.next_retry_time(), Some(6_000));
    assert!(a.tick(at(2_000, 0)).is_idle());
    assert!(matches!(a.tick(at(6_000, 0)), IpcRequest::Connect { .. }));
    // enabling again cancels the cooldown
    a.resume(false, at(6_000, 0));
    assert!(matches!(a.enable(at(6_001, 0)), IpcRequest::Connect { .. }));
}

#[test]
fn disabling_closes_the_client() {
    let mut a = connected(false);
    assert!(matches!(a.disable(), IpcRequest::Close));
    assert!(!a.is_enabled());
    assert!(!a.is_connected());
    assert!(a.tick(at(0, 0)).is_idle());
    assert!(a.shutdown().is_idle());
}

#[test]
fn at_most_two_buttons_are_sent() {
    let mut a = connected(true);
    let c = at(10, 1_000);
    match a.update_metadata(song(Some(1_000), 3), c) {
        IpcRequest::SetActivity(plan) => {
            assert_eq!(plan.buttons.len(), 2);
            assert_eq!(plan.buttons[0].label, "b0");
            assert_eq!(plan.buttons[1].url, "https://x/1");
        }
        other => panic!("expected an activity, got {other:?}"),
    }
}

#[test]
fn updates_without_a_song_do_nothing() {
    let mut a = DiscordAdapter::new(Some(options()));
    let c = at(0, 0);
    a.enable(c);
    assert!(a.update_play_state(
        PlayStatePayload {
            status: PlaybackStatus::Playing,
        },
        c,
    )
    .is_idle());
    assert!(a.update_timeline(
        TimelinePayload {
            current_time: 1,
            total_time: 2,
            seeked: None,
        },
        c,
    )
    .is_idle());
    assert_eq!(a.current_time(), None);
}

#[test]
fn new_song_starts_at_zero_and_keeps_status() {
    let mut a = connected(false);
    let c = at(10, 1_000);
    a.update_play_state(
        PlayStatePayload {
            status: PlaybackStatus::Playing,
        },
        c,
    );
    a.resume(true, c);
    a.update_timeline(
        TimelinePayload {
            current_time: 5_000,
            total_time: 10_000,
            seeked: None,
        },
        c,
    );
    a.resume(true, c);
    a.update_metadata(song(Some(2_000), 0), c);
    assert_eq!(a.current_time(), Some(0));
    assert_eq!(a.playback_status(), Some(PlaybackStatus::Playing));
}

#[test]
fn new_song_without_duration_sends_nothing_while_playing() {
    let mut a = connected(false);
    let c = at(10, 1_000);
    a.update_play_state(
        PlayStatePayload {
            status: PlaybackStatus::Playing,
        },
        c,
    );
    a.resume(true, c);
    assert_eq!(a.last_sent_end_timestamp(), Some(11_000));
    // a new song forgets the last sent end; without a duration there is no
    // bar to send
    match a.update_metadata(song(None, 0), c) {
        IpcRequest::Idle => {}
        other => panic!("expected nothing to be sent, got {other:?}"),
    }
    assert_eq!(a.last_sent_end_timestamp(), None);
}

#[test]
fn fits_checks_accept_ordinary_calls() {
    let a = connected(false);
    let c = at(10, 1_000);
    assert!(a.enable_fits(c));
    assert!(a.tick_fits(c));
    assert!(a.resume_fits(c));
    assert!(a.timeline_fits(
        TimelinePayload {
            current_time: 0,
            total_time: 1,
            seeked: None,
        },
        c,
    ));
    assert!(!a.enable_fits(at(u64::MAX, 0)));
}

#[test]
fn resuming_with_nothing_awaited_changes_nothing() {
    let mut a = connected(false);
    let before = (a.is_connected(), a.last_sent_end_timestamp(), a.next_retry_time());
    assert!(a.resume(false, at(1, 1)).is_idle());
    assert!(a.resume(true, at(2, 2)).is_idle());
    assert_eq!(
        (a.is_connected(), a.last_sent_end_timestamp(), a.next_retry_time()),
        before
    );
    assert_eq!(a.pending(), Pending::Nothing);
}
