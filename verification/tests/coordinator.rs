use now_playing::coordinator::{
    Command,
    MediaCall,
    command_fits,
    handle_command,
};
use now_playing::discord::activity::IpcRequest;
use now_playing::discord::{
    Clock,
    DiscordAdapter,
};
use now_playing::model::{
    DiscordConfigPayload,
    DiscordOptions,
    MetadataPayload,
    PlayModePayload,
    PlayStatePayload,
    PlaybackStatus,
    RepeatMode,
    TimelinePayload,
};

fn adapter() -> DiscordAdapter {
    DiscordAdapter::new(Some(DiscordOptions {
        app_id: "42".to_string(),
        default_icon_asset_key: "logo".to_string(),
        small_icon_hover_text: "hover".to_string(),
    }))
}

fn clock() -> Clock {
    Clock {
        monotonic_ms: 0,
        unix_ms: 0,
    }
}

fn metadata() -> MetadataPayload {
    MetadataPayload {
        song_name: "s".to_string(),
        author_name: "a".to_string(),
        album_name: "b".to_string(),
        original_cover_url: None,
        cover_data: Some(vec![1, 2, 3]),
        duration: Some(3_000),
        track_id: None,
        genre: vec!["g".to_string(), "h".to_string()],
        discord_buttons: None,
    }
}

#[test]
fn shutdown_stops_the_worker() {
    let mut a = adapter();
    let out = handle_command(Command::Shutdown, &mut a, clock());
    assert!(out.stop);
    assert!(out.media.is_none());
    assert!(out.discord.is_idle());
}

#[test]
fn media_commands_reach_only_the_media_controls() {
    let mut a = adapter();
    let out = handle_command(Command::EnableSystemMedia, &mut a, clock());
    assert!(matches!(out.media, Some(MediaCall::Enable)));
    assert!(!out.stop);
    let out = handle_command(Command::DisableSystemMedia, &mut a, clock());
    assert!(matches!(out.media, Some(MediaCall::Disable)));
    let rate = 1.5f64.to_bits();
    let out = handle_command(Command::UpdatePlaybackRate(rate), &mut a, clock());
    assert!(matches!(out.media, Some(MediaCall::UpdatePlaybackRate(r)) if r == rate));
    let out = handle_command(Command::UpdateVolume(0.5f64.to_bits()), &mut a, clock());
    assert!(matches!(out.media, Some(MediaCall::UpdateVolume(v)) if f64::from_bits(v) == 0.5));
    let mode = PlayModePayload {
        is_shuffling: true,
        repeat_mode: RepeatMode::List,
    };
    let out = handle_command(Command::UpdatePlayMode(mode), &mut a, clock());
    assert!(matches!(out.media, Some(MediaCall::UpdatePlayMode(m)) if m == mode));
    assert!(out.discord.is_idle());
}

#[test]
fn song_updates_reach_both_sides() {
    let mut a = adapter();
    assert!(command_fits(&a, &Command::EnableDiscord, clock()));
    let out = handle_command(Command::EnableDiscord, &mut a, clock());
    assert!(out.media.is_none());
    assert!(a.is_enabled());
    let out = handle_command(Command::UpdateMetadata(metadata()), &mut a, clock());
    assert!(matches!(out.discord, IpcRequest::Connect { .. }));
    match out.media {
        Some(MediaCall::UpdateMetadata(m)) => {
            assert_eq!(m.song_name, "s");
            assert_eq!(m.cover_data, Some(vec![1, 2, 3]));
            assert_eq!(m.genre, vec!["g".to_string(), "h".to_string()]);
        }
        other => panic!("expected the song for the media controls, got {other:?}"),
    }
    let status = PlayStatePayload {
        status: PlaybackStatus::Playing,
    };
    let out = handle_command(Command::UpdatePlayState(status), &mut a, clock());
    assert!(matches!(out.media, Some(MediaCall::UpdatePlayState(p)) if p == status));
    let t = TimelinePayload {
        current_time: 10,
        total_time: 20,
        seeked: None,
    };
    let out = handle_command(Command::UpdateTimeline(t), &mut a, clock());
    assert!(matches!(out.media, Some(MediaCall::UpdateTimeline(p)) if p == t));
}

#[test]
fn discord_commands_reach_only_discord() {
    let mut a = adapter();
    let out = handle_command(
        Command::UpdateDiscordConfig(DiscordConfigPayload {
            show_when_paused: true,
            display_mode: None,
        }),
        &mut a,
        clock(),
    );
    assert!(out.media.is_none());
    assert!(a.show_when_paused());
    let out = handle_command(Command::DisableDiscord, &mut a, clock());
    assert!(out.media.is_none());
    assert!(!a.is_enabled());
    assert!(!out.stop);
}

#[test]
fn metadata_copy_is_equal() {
    let m = metadata();
    let c = m.duplicate();
    assert_eq!(c.song_name, m.song_name);
    assert_eq!(c.author_name, m.author_name);
    assert_eq!(c.album_name, m.album_name);
    assert_eq!(c.cover_data, m.cover_data);
    assert_eq!(c.duration, m.duration);
    assert_eq!(c.genre, m.genre);
}
