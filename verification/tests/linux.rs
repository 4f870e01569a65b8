use now_playing::model::{
    DiscordButton,
    MetadataPayload,
    PlayModePayload,
    PlayStatePayload,
    PlaybackStatus,
    RepeatMode,
    SystemMediaEventType,
    TimelinePayload,
};
use now_playing::platform::linux::{
    LinuxImpl,
    MprisCall,
    MprisEvent,
    MprisRequest,
    MprisStatus,
    MAXIMUM_RATE_BITS,
    MINIMUM_RATE_BITS,
    PLAYER_INIT_FAILED_MESSAGE,
    bus_name,
    init_failure_message,
    mpris_event,
    player_config,
};

fn song(track_id: Option<i64>, cover: bool, genre: Vec<String>) -> MetadataPayload {
    MetadataPayload {
        song_name: "Song".to_string(),
        author_name: "Artist".to_string(),
        album_name: "Album".to_string(),
        original_cover_url: Some("https://c/1.jpg".to_string()),
        cover_data: if cover { Some(vec![9]) } else { None },
        duration: Some(90_000),
        track_id,
        genre,
        discord_buttons: Some(vec![DiscordButton {
            label: "l".to_string(),
            url: "u".to_string(),
        }]),
    }
}

fn enabled() -> LinuxImpl {
    let mut l = LinuxImpl::new();
    assert!(l.enable().is_empty());
    l
}

#[test]
fn requests_become_events() {
    let ev = |r| mpris_event(r, true, false);
    assert_eq!(ev(MprisRequest::Play), Some(MprisEvent::Simple(SystemMediaEventType::Play)));
    assert_eq!(ev(MprisRequest::Pause), Some(MprisEvent::Simple(SystemMediaEventType::Pause)));
    assert_eq!(ev(MprisRequest::Next), Some(MprisEvent::Simple(SystemMediaEventType::NextSong)));
    assert_eq!(
        ev(MprisRequest::Previous),
        Some(MprisEvent::Simple(SystemMediaEventType::PreviousSong))
    );
    assert_eq!(ev(MprisRequest::Stop), Some(MprisEvent::Simple(SystemMediaEventType::Stop)));
    assert_eq!(
        ev(MprisRequest::SetLoopStatus),
        Some(MprisEvent::Simple(SystemMediaEventType::ToggleRepeat))
    );
    assert_eq!(
        ev(MprisRequest::SetShuffle),
        Some(MprisEvent::Simple(SystemMediaEventType::ToggleShuffle))
    );
    assert_eq!(ev(MprisRequest::SetRate(7)), Some(MprisEvent::SetRate(7)));
    assert_eq!(ev(MprisRequest::SetVolume(8)), Some(MprisEvent::SetVolume(8)));
    assert_eq!(
        ev(MprisRequest::SetPosition { position_us: -5 }),
        Some(MprisEvent::SeekToMicros(-5))
    );
}

#[test]
fn play_pause_depends_on_playing() {
    assert_eq!(
        mpris_event(MprisRequest::PlayPause, true, true),
        Some(MprisEvent::Simple(SystemMediaEventType::Pause))
    );
    assert_eq!(
        mpris_event(MprisRequest::PlayPause, true, false),
        Some(MprisEvent::Simple(SystemMediaEventType::Play))
    );
}

#[test]
fn relative_seek_saturates_and_clamps() {
    let seek = |p, o| mpris_event(MprisRequest::Seek { position_us: p, offset_us: o }, true, true);
    assert_eq!(seek(1_000, 500), Some(MprisEvent::SeekToMicros(1_500)));
    assert_eq!(seek(1_000, -5_000), Some(MprisEvent::SeekToMicros(0)));
    assert_eq!(seek(i64::MAX, 10), Some(MprisEvent::SeekToMicros(i64::MAX)));
    assert_eq!(seek(i64::MIN, -10), Some(MprisEvent::SeekToMicros(0)));
}

#[test]
fn off_controls_report_nothing() {
    assert_eq!(mpris_event(MprisRequest::Play, false, false), None);
    assert_eq!(mpris_event(MprisRequest::SetRate(1), false, true), None);
}

#[test]
fn bus_names_carry_the_process_id() {
    assert_eq!(bus_name(Some("app"), 4321), "app.instance4321");
    assert_eq!(bus_name(None, 0), "player.instance0");
    assert_eq!(bus_name(None, u32::MAX), "player.instance4294967295");
}

#[test]
fn song_metadata_is_planned() {
    let l = enabled();
    let calls = l.update_metadata(song(Some(42), false, vec!["Pop".to_string()]), None, 123);
    assert_eq!(calls.len(), 2);
    match &calls[0] {
        MprisCall::SetMetadata(t) => {
            assert_eq!(t.title, "Song");
            assert_eq!(t.artist, "Artist");
            assert_eq!(t.album, "Album");
            assert_eq!(t.track_id.as_deref(), Some("/com/player/track/42"));
            assert_eq!(t.genre, Some(vec!["Pop".to_string()]));
            assert_eq!(t.length_ms, Some(90_000));
            assert_eq!(t.art_url.as_deref(), Some("https://c/1.jpg"));
        }
        other => panic!("expected metadata, got {other:?}"),
    }
    assert!(matches!(calls[1], MprisCall::SetPosition(0)));
}

#[test]
fn track_paths_without_id_use_the_time() {
    let l = enabled();
    let calls = l.update_metadata(song(None, false, vec![]), None, 1_700_000_000_123);
    match &calls[0] {
        MprisCall::SetMetadata(t) => {
            assert_eq!(t.track_id.as_deref(), Some("/com/player/track/1700000000123"));
            assert_eq!(t.genre, None);
        }
        other => panic!("expected metadata, got {other:?}"),
    }
    let calls = l.update_metadata(song(Some(-7), false, vec![]), None, 0);
    match &calls[0] {
        MprisCall::SetMetadata(t) => assert_eq!(t.track_id, None),
        other => panic!("expected metadata, got {other:?}"),
    }
}

#[test]
fn cover_files_replace_the_cover_url() {
    let l = enabled();
    let with_cover = song(Some(1), true, vec![]);
    assert!(l.wants_cover_file(&with_cover));
    assert!(!l.drops_cover_file(&with_cover));
    let calls = l.update_metadata(with_cover, Some("/tmp/x.jpg".to_string()), 0);
    match &calls[0] {
        MprisCall::SetMetadata(t) => assert_eq!(t.art_url.as_deref(), Some("file:///tmp/x.jpg")),
        other => panic!("expected metadata, got {other:?}"),
    }
    let calls = l.update_metadata(song(Some(1), true, vec![]), None, 0);
    match &calls[0] {
        MprisCall::SetMetadata(t) => assert_eq!(t.art_url, None),
        other => panic!("expected metadata, got {other:?}"),
    }
    assert!(l.drops_cover_file(&song(Some(1), false, vec![])));
}

#[test]
fn timeline_signals_only_seeks() {
    let l = enabled();
    let t = |seeked| TimelinePayload {
        current_time: 2_500,
        total_time: 9_000,
        seeked,
    };
    assert!(matches!(l.update_timeline(t(None))[..], [MprisCall::SetPosition(2_500)]));
    assert!(matches!(l.update_timeline(t(Some(false)))[..], [MprisCall::SetPosition(2_500)]));
    assert!(matches!(
        l.update_timeline(t(Some(true)))[..],
        [MprisCall::SetPosition(2_500), MprisCall::Seeked(2_500)]
    ));
}

#[test]
fn updates_are_published_while_enabled() {
    let mut l = enabled();
    assert!(matches!(
        l.update_play_state(PlayStatePayload { status: PlaybackStatus::Playing })[..],
        [MprisCall::SetPlaybackStatus(MprisStatus::Playing)]
    ));
    assert!(matches!(l.update_playback_rate(3)[..], [MprisCall::SetRate(3)]));
    assert!(matches!(l.update_volume(4)[..], [MprisCall::SetVolume(4)]));
    assert!(matches!(
        l.update_play_mode(PlayModePayload {
            is_shuffling: true,
            repeat_mode: RepeatMode::List,
        })[..],
        [MprisCall::SetLoopStatus(RepeatMode::List), MprisCall::SetShuffle(true)]
    ));
    assert!(matches!(
        l.disable()[..],
        [MprisCall::SetPlaybackStatus(MprisStatus::Stopped), MprisCall::ClearMetadata]
    ));
    assert!(!l.is_enabled());
    assert!(l.update_play_state(PlayStatePayload { status: PlaybackStatus::Paused }).is_empty());
    assert!(l.update_metadata(song(None, true, vec![]), None, 0).is_empty());
    assert!(!l.wants_cover_file(&song(None, true, vec![])));
    l.enable();
    assert!(matches!(l.shutdown()[..], [MprisCall::StopServer]));
    assert!(!l.is_enabled());
}

#[test]
fn player_is_configured_like_before() {
    let c = player_config(Some("Music"), 12);
    assert_eq!(c.bus_name, "Music.instance12");
    assert_eq!(c.identity.as_deref(), Some("Music"));
    assert_eq!(c.desktop_entry.as_deref(), Some("Music"));
    assert!(c.can_play && c.can_pause && c.can_go_next && c.can_go_previous);
    assert!(c.can_seek && c.can_control);
    assert_eq!(f64::from_bits(c.minimum_rate), 0.2);
    assert_eq!(f64::from_bits(c.maximum_rate), 2.0);
    assert_eq!(MINIMUM_RATE_BITS, 0.2f64.to_bits());
    assert_eq!(MAXIMUM_RATE_BITS, 2.0f64.to_bits());
    assert_eq!(c.playback_status, MprisStatus::Stopped);
    let c = player_config(None, 3);
    assert_eq!(c.bus_name, "player.instance3");
    assert_eq!(c.identity, None);
    assert_eq!(c.desktop_entry, None);
}

#[test]
fn build_failures_keep_their_message() {
    assert_eq!(PLAYER_INIT_FAILED_MESSAGE, "MPRIS Player 初始化失败");
    assert_eq!(init_failure_message("no bus"), "MPRIS Player 初始化失败: no bus");
}
