//! The Windows system media transport controls (SMTC), and the conversion
//! between durations and the 100-nanosecond units that Windows counts in.
use crate::model::{
    MetadataPayload,
    NowPlayingOptions,
    PlayModePayload,
    PlayStatePayload,
    PlaybackStatus,
    RepeatMode,
    SystemMediaEventType,
    TimelinePayload,
};
use crate::platform::PlatformError;
use core::time::Duration;
use vstd::prelude::*;

verus! {

/// 100-nanosecond units in a second.
pub const HNS_PER_SEC: u64 = 10_000_000;

/// The error when no window is given ("a valid HWND must be provided on
/// Windows").
pub const MISSING_HWND_MESSAGE: &'static str = "Windows 环境下必须提供有效的 HWND";

/// Nanoseconds in a 100-nanosecond unit.
pub const NANOS_PER_HNS: u32 = 100;

/// The total number of nanoseconds in a duration, as `Duration::as_nanos`
/// returns it.
pub uninterp spec fn duration_nanos(d: Duration) -> nat;

/// `Duration::new(secs, nanos)` is the duration of `secs` seconds and `nanos`
/// nanoseconds (nanoseconds beyond a second carry into the seconds); it
/// panics when that carry overflows the seconds, which `requires` rules out.
pub assume_specification[ Duration::new ](secs: u64, nanos: u32) -> (r: Duration)
    requires
        secs + nanos / 1_000_000_000 <= u64::MAX,
    ensures
        duration_nanos(r) == secs * 1_000_000_000 + nanos,
;

/// `Duration::as_nanos` returns the total number of nanoseconds of the
/// duration.
pub assume_specification[ Duration::as_nanos ](d: &Duration) -> (r: u128)
    ensures
        r == duration_nanos(*d),
;

/// Conversion between durations and 100-nanosecond units.
pub trait WindowsTimeExt: Sized {
    /// The duration of `hns` 100-nanosecond units.
    fn from_hns(hns: u64) -> Self;

    /// The whole 100-nanosecond units in the duration.
    fn as_hns(&self) -> u128;
}

impl WindowsTimeExt for Duration {
    fn from_hns(hns: u64) -> (r: Self)
        ensures
            duration_nanos(r) == hns * 100,
    {
        let secs = hns / HNS_PER_SEC;
        let rest = hns % HNS_PER_SEC;
        let nanos = rest as u32 * NANOS_PER_HNS;
        proof {
            assert(hns == secs * 10_000_000 + rest) by (nonlinear_arith)
                requires
                    secs == hns / 10_000_000,
                    rest == hns % 10_000_000,
            ;
        }
        Duration::new(secs, nanos)
    }

    fn as_hns(&self) -> (r: u128)
        ensures
            r == duration_nanos(*self) / 100,
    {
        self.as_nanos() / (NANOS_PER_HNS as u128)
    }
}

/// 100-nanosecond units in `ms` milliseconds, truncated to an `i64` as the
/// timeline properties take them.
pub open spec fn ms_to_hns(ms: i64) -> i64 {
    (ms * 10_000) as i64
}

/// Computes [`ms_to_hns`].
pub fn ms_as_hns(ms: i64) -> (r: i64)
    ensures
        r == ms_to_hns(ms),
{
    let wide = ms as i128 * 10_000;
    #[verifier::truncate]
    (wide as i64)
}

/// The buttons of the controls.
#[derive(Clone, Copy, PartialEq, Eq, Debug, Structural)]
pub enum SmtcButton {
    Play,
    Pause,
    Stop,
    Record,
    FastForward,
    Rewind,
    Next,
    Previous,
    ChannelUp,
    ChannelDown,
}

/// The event that a pressed button reports, if any.
pub open spec fn button_event_spec(button: SmtcButton) -> Option<SystemMediaEventType> {
    match button {
        SmtcButton::Play => Some(SystemMediaEventType::Play),
        SmtcButton::Pause => Some(SystemMediaEventType::Pause),
        SmtcButton::Stop => Some(SystemMediaEventType::Stop),
        SmtcButton::Next => Some(SystemMediaEventType::NextSong),
        SmtcButton::Previous => Some(SystemMediaEventType::PreviousSong),
        _ => None,
    }
}

/// A request that the controls report through one of their handlers other
/// than the buttons.
#[derive(Clone, Copy, PartialEq, Eq, Debug, Structural)]
pub enum SmtcRequest {
    /// Shuffle was toggled.
    ShuffleChange,
    /// The repeat mode was changed.
    RepeatChange,
    /// A new position, in 100-nanosecond units.
    PositionChange(i64),
    /// A new rate, as the bit pattern of a floating-point value.
    RateChange(u64),
}

/// The event that such a request reports to the session's callback.
#[derive(Debug)]
pub enum SmtcEvent {
    Simple(SystemMediaEventType),
    SeekTo(Duration),
    SetRate(u64),
}

/// The event of a handler's request: shuffle and repeat toggle, a position
/// is read (as unsigned) as 100-nanosecond units, a rate is passed on.
pub fn handler_event(req: SmtcRequest) -> (r: SmtcEvent)
    ensures
        match req {
            SmtcRequest::ShuffleChange => r matches SmtcEvent::Simple(t) && t
                == SystemMediaEventType::ToggleShuffle,
            SmtcRequest::RepeatChange => r matches SmtcEvent::Simple(t) && t
                == SystemMediaEventType::ToggleRepeat,
            SmtcRequest::PositionChange(hns) => r matches SmtcEvent::SeekTo(d) && duration_nanos(d)
                == (hns as u64) * 100,
            SmtcRequest::RateChange(rate) => r matches SmtcEvent::SetRate(x) && x == rate,
        },
{
    match req {
        SmtcRequest::ShuffleChange => SmtcEvent::Simple(SystemMediaEventType::ToggleShuffle),
        SmtcRequest::RepeatChange => SmtcEvent::Simple(SystemMediaEventType::ToggleRepeat),
        SmtcRequest::PositionChange(hns) => {
            #[verifier::truncate]
            let unsigned = hns as u64;
            SmtcEvent::SeekTo(Duration::from_hns(unsigned))
        },
        SmtcRequest::RateChange(rate) => SmtcEvent::SetRate(rate),
    }
}

/// A call on the controls.
#[derive(Debug)]
pub enum SmtcCall {
    SetIsEnabled(bool),
    SetIsPlayEnabled(bool),
    SetIsPauseEnabled(bool),
    SetIsStopEnabled(bool),
    SetIsNextEnabled(bool),
    SetIsPreviousEnabled(bool),
    /// Show the song (as music): title, artist, album, genres and cover.
    UpdateDisplay(MetadataPayload),
    SetPlaybackStatus(PlaybackStatus),
    /// The rate, as the bit pattern of a floating-point value.
    SetPlaybackRate(u64),
    /// The timeline, in 100-nanosecond units.
    UpdateTimeline { start: i64, position: i64, end: i64 },
    SetShuffleEnabled(bool),
    SetAutoRepeatMode(RepeatMode),
    RemoveButtonPressed(i64),
    RemoveShuffleEnabledChangeRequested(i64),
    RemoveAutoRepeatModeChangeRequested(i64),
    RemovePlaybackPositionChangeRequested(i64),
    RemovePlaybackRateChangeRequested(i64),
}

/// The registration tokens of the event handlers on the controls.
#[derive(Clone, Copy, PartialEq, Eq, Debug, Structural)]
pub struct HandlerTokens {
    pub button_pressed: i64,
    pub shuffle_changed: i64,
    pub repeat_changed: i64,
    pub seek_requested: i64,
    pub playback_rate_changed: i64,
}

/// The state of the controls: the handler tokens and whether updates are
/// shown.
#[derive(Debug)]
pub struct WindowsImpl {
    tokens: HandlerTokens,
    is_enabled: bool,
}

/// Mathematical view of [`WindowsImpl`].
pub struct WindowsView {
    pub tokens: HandlerTokens,
    pub is_enabled: bool,
}

impl View for WindowsImpl {
    type V = WindowsView;

    closed spec fn view(&self) -> WindowsView {
        WindowsView { tokens: self.tokens, is_enabled: self.is_enabled }
    }
}

/// The calls that unregister every handler and turn the controls off.
pub open spec fn shutdown_calls(t: HandlerTokens) -> Seq<SmtcCall> {
    seq![
        SmtcCall::SetIsEnabled(false),
        SmtcCall::RemoveButtonPressed(t.button_pressed),
        SmtcCall::RemoveShuffleEnabledChangeRequested(t.shuffle_changed),
        SmtcCall::RemoveAutoRepeatModeChangeRequested(t.repeat_changed),
        SmtcCall::RemovePlaybackPositionChangeRequested(t.seek_requested),
        SmtcCall::RemovePlaybackRateChangeRequested(t.playback_rate_changed),
    ]
}

/// `calls` when the controls are enabled, and no call otherwise.
pub open spec fn when_enabled(s: WindowsView, calls: Seq<SmtcCall>) -> Seq<SmtcCall> {
    if s.is_enabled {
        calls
    } else {
        Seq::empty()
    }
}

impl WindowsImpl {
    /// The window that owns the controls; without one, an error saying that
    /// a valid HWND must be given on Windows.
    pub fn window_handle(options: &NowPlayingOptions) -> (r: Result<isize, PlatformError>)
        ensures
            match options.hwnd {
                Some(h) => r == Ok::<isize, PlatformError>(h),
                None => r matches Err(e) && e.message@ == MISSING_HWND_MESSAGE@,
            },
    {
        match options.hwnd {
            Some(h) => Ok(h),
            None => Err(PlatformError { message: MISSING_HWND_MESSAGE.to_owned() }),
        }
    }

    /// The calls that set the controls up: off, with play, pause, stop, next
    /// and previous available.
    pub fn initial_calls() -> (r: Vec<SmtcCall>)
        ensures
            r@ == seq![
                SmtcCall::SetIsEnabled(false),
                SmtcCall::SetIsPlayEnabled(true),
                SmtcCall::SetIsPauseEnabled(true),
                SmtcCall::SetIsStopEnabled(true),
                SmtcCall::SetIsNextEnabled(true),
                SmtcCall::SetIsPreviousEnabled(true),
            ],
    {
        let mut r: Vec<SmtcCall> = Vec::new();
        r.push(SmtcCall::SetIsEnabled(false));
        r.push(SmtcCall::SetIsPlayEnabled(true));
        r.push(SmtcCall::SetIsPauseEnabled(true));
        r.push(SmtcCall::SetIsStopEnabled(true));
        r.push(SmtcCall::SetIsNextEnabled(true));
        r.push(SmtcCall::SetIsPreviousEnabled(true));
        r
    }

    /// The event that a pressed button reports.
    pub fn button_event(button: SmtcButton) -> (r: Option<SystemMediaEventType>)
        ensures
            r == button_event_spec(button),
    {
        match button {
            SmtcButton::Play => Some(SystemMediaEventType::Play),
            SmtcButton::Pause => Some(SystemMediaEventType::Pause),
            SmtcButton::Stop => Some(SystemMediaEventType::Stop),
            SmtcButton::Next => Some(SystemMediaEventType::NextSong),
            SmtcButton::Previous => Some(SystemMediaEventType::PreviousSong),
            _ => None,
        }
    }

    /// Controls with these handlers registered, turned off.
    pub fn new(tokens: HandlerTokens) -> (r: Self)
        ensures
            r@ == (WindowsView { tokens, is_enabled: false }),
    {
        WindowsImpl { tokens, is_enabled: false }
    }

    /// Turns the controls on.
    pub fn enable(&mut self) -> (r: Vec<SmtcCall>)
        ensures
            final(self)@ == (WindowsView { is_enabled: true, ..old(self)@ }),
            r@ == seq![SmtcCall::SetIsEnabled(true)],
    {
        self.is_enabled = true;
        let mut r: Vec<SmtcCall> = Vec::new();
        r.push(SmtcCall::SetIsEnabled(true));
        r
    }

    /// Turns the controls off.
    pub fn disable(&mut self) -> (r: Vec<SmtcCall>)
        ensures
            final(self)@ == (WindowsView { is_enabled: false, ..old(self)@ }),
            r@ == seq![SmtcCall::SetIsEnabled(false)],
    {
        self.is_enabled = false;
        let mut r: Vec<SmtcCall> = Vec::new();
        r.push(SmtcCall::SetIsEnabled(false));
        r
    }

    fn only_when_enabled(&self, call: SmtcCall) -> (r: Vec<SmtcCall>)
        ensures
            r@ == when_enabled(self@, seq![call]),
    {
        let mut r: Vec<SmtcCall> = Vec::new();
        if self.is_enabled {
            r.push(call);
        }
        r
    }

    /// Shows the song.
    pub fn update_metadata(&self, payload: MetadataPayload) -> (r: Vec<SmtcCall>)
        ensures
            r@ == when_enabled(self@, seq![SmtcCall::UpdateDisplay(payload)]),
    {
        self.only_when_enabled(SmtcCall::UpdateDisplay(payload))
    }

    /// Shows the playback status.
    pub fn update_play_state(&self, payload: PlayStatePayload) -> (r: Vec<SmtcCall>)
        ensures
            r@ == when_enabled(self@, seq![SmtcCall::SetPlaybackStatus(payload.status)]),
    {
        self.only_when_enabled(SmtcCall::SetPlaybackStatus(payload.status))
    }

    /// Shows the playback rate (`rate` is its bit pattern).
    pub fn update_playback_rate(&self, rate: u64) -> (r: Vec<SmtcCall>)
        ensures
            r@ == when_enabled(self@, seq![SmtcCall::SetPlaybackRate(rate)]),
    {
        self.only_when_enabled(SmtcCall::SetPlaybackRate(rate))
    }

    /// The controls show no volume: nothing to do.
    pub fn update_volume(&self, _volume: u64) -> (r: Vec<SmtcCall>)
        ensures
            r@ == Seq::<SmtcCall>::empty(),
    {
        Vec::new()
    }

    /// Shows the position in the song, from the start of the song to its end.
    pub fn update_timeline(&self, payload: TimelinePayload) -> (r: Vec<SmtcCall>)
        ensures
            r@ == when_enabled(
                self@,
                seq![
                    SmtcCall::UpdateTimeline {
                        start: 0,
                        position: ms_to_hns(payload.current_time),
                        end: ms_to_hns(payload.total_time),
                    },
                ],
            ),
    {
        let position = ms_as_hns(payload.current_time);
        let end = ms_as_hns(payload.total_time);
        self.only_when_enabled(SmtcCall::UpdateTimeline { start: 0, position, end })
    }

    /// Shows shuffle and repeat.
    pub fn update_play_mode(&self, payload: PlayModePayload) -> (r: Vec<SmtcCall>)
        ensures
            r@ == when_enabled(
                self@,
                seq![
                    SmtcCall::SetShuffleEnabled(payload.is_shuffling),
                    SmtcCall::SetAutoRepeatMode(payload.repeat_mode),
                ],
            ),
    {
        let mut r: Vec<SmtcCall> = Vec::new();
        if self.is_enabled {
            r.push(SmtcCall::SetShuffleEnabled(payload.is_shuffling));
            r.push(SmtcCall::SetAutoRepeatMode(payload.repeat_mode));
        }
        r
    }

    /// Turns the controls off and unregisters every handler.
    pub fn shutdown(&mut self) -> (r: Vec<SmtcCall>)
        ensures
            final(self)@ == (WindowsView { is_enabled: false, ..old(self)@ }),
            r@ == shutdown_calls(old(self)@.tokens),
    {
        self.is_enabled = false;
        let t = self.tokens;
        let mut r: Vec<SmtcCall> = Vec::new();
        r.push(SmtcCall::SetIsEnabled(false));
        r.push(SmtcCall::RemoveButtonPressed(t.button_pressed));
        r.push(SmtcCall::RemoveShuffleEnabledChangeRequested(t.shuffle_changed));
        r.push(SmtcCall::RemoveAutoRepeatModeChangeRequested(t.repeat_changed));
        r.push(SmtcCall::RemovePlaybackPositionChangeRequested(t.seek_requested));
        r.push(SmtcCall::RemovePlaybackRateChangeRequested(t.playback_rate_changed));
        r
    }
}


/// Converting 100-nanosecond units to a duration and back gives them back:
/// `as_hns(from_hns(hns)) == hns`.
pub proof fn lemma_hns_round_trip(d: Duration, hns: u64)
    requires
        duration_nanos(d) == hns * 100,
    ensures
        duration_nanos(d) / 100 == hns,
{
}

/// Controls that are off, as after `disable` or `shutdown`, make no update
/// call whatever the update.
pub proof fn lemma_off_controls_stay_silent(s: WindowsView, calls: Seq<SmtcCall>)
    requires
        !s.is_enabled,
    ensures
        when_enabled(s, calls) == Seq::<SmtcCall>::empty(),
{
}

/// Play, pause, stop, next and previous report their event; the other
/// buttons (record, fast forward, rewind, channel up and down) report none.
pub proof fn lemma_buttons_report_their_event()
    ensures
        button_event_spec(SmtcButton::Play) == Some(SystemMediaEventType::Play),
        button_event_spec(SmtcButton::Pause) == Some(SystemMediaEventType::Pause),
        button_event_spec(SmtcButton::Stop) == Some(SystemMediaEventType::Stop),
        button_event_spec(SmtcButton::Next) == Some(SystemMediaEventType::NextSong),
        button_event_spec(SmtcButton::Previous) == Some(SystemMediaEventType::PreviousSong),
        button_event_spec(SmtcButton::Record) is None,
        button_event_spec(SmtcButton::FastForward) is None,
        button_event_spec(SmtcButton::Rewind) is None,
        button_event_spec(SmtcButton::ChannelUp) is None,
        button_event_spec(SmtcButton::ChannelDown) is None,
{
}

/// Shutting down first turns the controls off, then unregisters each of the
/// five handlers by its own token, and makes no other call.
pub proof fn lemma_shutdown_unregisters_every_handler(t: HandlerTokens)
    ensures
        shutdown_calls(t).len() == 6,
        shutdown_calls(t)[0] == SmtcCall::SetIsEnabled(false),
        shutdown_calls(t)[1] == SmtcCall::RemoveButtonPressed(t.button_pressed),
        shutdown_calls(t)[2] == SmtcCall::RemoveShuffleEnabledChangeRequested(t.shuffle_changed),
        shutdown_calls(t)[3] == SmtcCall::RemoveAutoRepeatModeChangeRequested(t.repeat_changed),
        shutdown_calls(t)[4] == SmtcCall::RemovePlaybackPositionChangeRequested(t.seek_requested),
        shutdown_calls(t)[5] == SmtcCall::RemovePlaybackRateChangeRequested(
            t.playback_rate_changed,
        ),
{
}

/// A position in milliseconds whose 100-nanosecond count fits in an `i64`
/// is shown as exactly ten thousand units per millisecond.
pub proof fn lemma_timeline_units(ms: i64)
    requires
        i64::MIN <= ms * 10_000 <= i64::MAX,
    ensures
        ms_to_hns(ms) == ms * 10_000,
{
}

/// Enabled controls make every update call they are given.
pub proof fn lemma_on_controls_make_the_calls(s: WindowsView, calls: Seq<SmtcCall>)
    requires
        s.is_enabled,
    ensures
        when_enabled(s, calls) == calls,
{
}

} // verus!
