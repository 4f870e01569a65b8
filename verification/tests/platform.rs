use std::time::Duration;

use now_playing::model::{
    NowPlayingOptions,
    PlayModePayload,
    PlayStatePayload,
    PlaybackStatus,
    RepeatMode,
    SystemMediaEventType,
    TimelinePayload,
};
use now_playing::platform::noop::NoOpImpl;
use now_playing::platform::windows::{
    HandlerTokens,
    SmtcButton,
    SmtcCall,
    SmtcEvent,
    SmtcRequest,
    WindowsImpl,
    handler_event,
    WindowsTimeExt,
    ms_as_hns,
};

fn tokens() -> HandlerTokens {
    HandlerTokens {
        button_pressed: 1,
        shuffle_changed: 2,
        repeat_changed: 3,
        seek_requested: 4,
        playback_rate_changed: 5,
    }
}

#[test]
fn noop_calls_always_succeed() {
    let n = NoOpImpl::new(None, ()).unwrap();
    assert!(n.enable().is_ok());
    assert!(n.disable().is_ok());
    assert!(n.update_play_state(PlayStatePayload { status: PlaybackStatus::Paused }).is_ok());
    assert!(n.update_playback_rate(1.0f64.to_bits()).is_ok());
    assert!(n.update_volume(0.3f64.to_bits()).is_ok());
    assert!(n
        .update_timeline(TimelinePayload {
            current_time: 0,
            total_time: 0,
            seeked: None,
        })
        .is_ok());
    assert!(n
        .update_play_mode(PlayModePayload {
            is_shuffling: false,
            repeat_mode: RepeatMode::Off,
        })
        .is_ok());
    n.shutdown();
}

#[test]
fn hns_conversions() {
    let d = Duration::from_hns(12_345_678);
    assert_eq!(d.as_nanos(), 1_234_567_800);
    assert_eq!(d.as_hns(), 12_345_678);
    assert_eq!(Duration::from_secs(2).as_hns(), 20_000_000);
    assert_eq!(Duration::from_nanos(199).as_hns(), 1);
    assert_eq!(Duration::from_hns(u64::MAX).as_hns(), u64::MAX as u128);
    assert_eq!(ms_as_hns(1), 10_000);
    assert_eq!(ms_as_hns(-2), -20_000);
}

#[test]
fn buttons_map_to_events() {
    assert_eq!(WindowsImpl::button_event(SmtcButton::Play), Some(SystemMediaEventType::Play));
    assert_eq!(WindowsImpl::button_event(SmtcButton::Pause), Some(SystemMediaEventType::Pause));
    assert_eq!(WindowsImpl::button_event(SmtcButton::Stop), Some(SystemMediaEventType::Stop));
    assert_eq!(WindowsImpl::button_event(SmtcButton::Next), Some(SystemMediaEventType::NextSong));
    assert_eq!(
        WindowsImpl::button_event(SmtcButton::Previous),
        Some(SystemMediaEventType::PreviousSong)
    );
    assert_eq!(WindowsImpl::button_event(SmtcButton::Rewind), None);
}

#[test]
fn window_handle_is_required() {
    let with = NowPlayingOptions {
        hwnd: Some(77),
        app_name: None,
        discord: None,
    };
    assert_eq!(WindowsImpl::window_handle(&with).unwrap(), 77);
    let without = NowPlayingOptions {
        hwnd: None,
        app_name: None,
        discord: None,
    };
    match WindowsImpl::window_handle(&without) {
        Err(e) => assert_eq!(e.message, "Windows 环境下必须提供有效的 HWND"),
        Ok(h) => panic!("expected an error, got {h}"),
    }
}

#[test]
fn controls_are_silent_until_enabled() {
    let mut w = WindowsImpl::new(tokens());
    assert_eq!(WindowsImpl::initial_calls().len(), 6);
    assert!(w.update_play_state(PlayStatePayload { status: PlaybackStatus::Playing }).is_empty());
    let calls = w.enable();
    assert!(matches!(calls[..], [SmtcCall::SetIsEnabled(true)]));
    let calls = w.update_play_state(PlayStatePayload { status: PlaybackStatus::Playing });
    assert!(matches!(calls[..], [SmtcCall::SetPlaybackStatus(PlaybackStatus::Playing)]));
    let calls = w.update_timeline(TimelinePayload {
        current_time: 1_500,
        total_time: 3_000,
        seeked: None,
    });
    assert!(matches!(
        calls[..],
        [SmtcCall::UpdateTimeline {
            start: 0,
            position: 15_000_000,
            end: 30_000_000
        }]
    ));
    let calls = w.update_play_mode(PlayModePayload {
        is_shuffling: true,
        repeat_mode: RepeatMode::Track,
    });
    assert!(matches!(
        calls[..],
        [SmtcCall::SetShuffleEnabled(true), SmtcCall::SetAutoRepeatMode(RepeatMode::Track)]
    ));
    assert!(w.update_volume(0).is_empty());
}

#[test]
fn shutdown_unregisters_every_handler() {
    let mut w = WindowsImpl::new(tokens());
    w.enable();
    let calls = w.shutdown();
    assert!(matches!(
        calls[..],
        [
            SmtcCall::SetIsEnabled(false),
            SmtcCall::RemoveButtonPressed(1),
            SmtcCall::RemoveShuffleEnabledChangeRequested(2),
            SmtcCall::RemoveAutoRepeatModeChangeRequested(3),
            SmtcCall::RemovePlaybackPositionChangeRequested(4),
            SmtcCall::RemovePlaybackRateChangeRequested(5)
        ]
    ));
    assert!(w.update_playback_rate(1).is_empty());
}

#[test]
fn handler_requests_map_to_events() {
    assert!(matches!(
        handler_event(SmtcRequest::ShuffleChange),
        SmtcEvent::Simple(SystemMediaEventType::ToggleShuffle)
    ));
    assert!(matches!(
        handler_event(SmtcRequest::RepeatChange),
        SmtcEvent::Simple(SystemMediaEventType::ToggleRepeat)
    ));
    match handler_event(SmtcRequest::PositionChange(25_000_000)) {
        SmtcEvent::SeekTo(d) => assert_eq!(d, Duration::from_millis(2_500)),
        other => panic!("expected a seek, got {other:?}"),
    }
    match handler_event(SmtcRequest::PositionChange(-1)) {
        SmtcEvent::SeekTo(d) => assert_eq!(d.as_nanos(), u64::MAX as u128 * 100),
        other => panic!("expected a seek, got {other:?}"),
    }
    assert!(matches!(
        handler_event(SmtcRequest::RateChange(1.5f64.to_bits())),
        SmtcEvent::SetRate(b) if f64::from_bits(b) == 1.5
    ));
}
