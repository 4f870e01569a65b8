//! The Discord rich-presence adapter.
//!
//! The adapter is a state machine. Every operation updates its state and
//! answers with one [`IpcRequest`] for the Discord IPC client; the caller
//! carries it out, reports the outcome through [`DiscordAdapter::resume`], and
//! carries out the next request, until the adapter answers `Idle`.
pub mod activity;
pub mod laws;
pub mod timestamps;

use crate::discord::activity::{
    ActivityKind,
    ActivityPlan,
    AssetsPlan,
    AssetsView,
    IpcRequest,
    PlanView,
    RequestView,
};
use crate::discord::timestamps::{
    ONE_YEAR_MS,
    calc_paused_timestamps,
    calc_playing_timestamps,
    paused_in_range,
    paused_timestamps,
    playing_in_range,
    playing_timestamps,
};
use crate::model::{
    ButtonView,
    DiscordButton,
    DiscordConfigPayload,
    DiscordDisplayMode,
    DiscordOptions,
    DiscordOptionsView,
    MetadataPayload,
    MetadataView,
    PlayStatePayload,
    PlaybackStatus,
    TimelinePayload,
    buttons_view,
};
use crate::text::{has_prefix, replace, replace_all, starts_with};
use vstd::prelude::*;

verus! {

/// Two end timestamps closer than this (milliseconds) are taken as equal, so
/// that the activity is not sent again: Discord rate-limits frequent updates.
pub const TIMESTAMP_UPDATE_THRESHOLD_MS: i64 = 100;

/// How long to wait after a failed connection before trying again.
pub const RECONNECT_COOLDOWN_SECONDS: u64 = 5;

/// [`RECONNECT_COOLDOWN_SECONDS`] in milliseconds.
pub const RECONNECT_COOLDOWN_MS: u64 = 5000;

/// The two clocks the adapter reads: a monotonic one (milliseconds since an
/// arbitrary origin) for the reconnection cooldown, and the Unix time in
/// milliseconds for the progress bar.
#[derive(Clone, Copy, PartialEq, Eq, Debug, Structural)]
pub struct Clock {
    pub monotonic_ms: u64,
    pub unix_ms: i64,
}

/// The end of a cooldown started now can be represented.
pub open spec fn clock_in_range(c: Clock) -> bool {
    c.monotonic_ms + RECONNECT_COOLDOWN_MS <= u64::MAX
}

/// When the next connection may be attempted after a failure now.
pub open spec fn retry_at(c: Clock) -> u64 {
    (c.monotonic_ms + RECONNECT_COOLDOWN_MS) as u64
}

/// Absolute value.
pub open spec fn abs(x: int) -> int {
    if x < 0 {
        -x
    } else {
        x
    }
}

/// The cover shown for a song: its URL with every `http://` made `https://`
/// when it starts with `http`, and the default icon otherwise.
pub open spec fn cover_url(original: Option<Seq<char>>, default_icon: Seq<char>) -> Seq<char> {
    match original {
        Some(u) => if has_prefix(u, "http"@) {
            replace_all(u, "http://"@, "https://"@)
        } else {
            default_icon
        },
        None => default_icon,
    }
}

/// View of an optional string slice.
pub open spec fn opt_str_view(o: Option<&str>) -> Option<Seq<char>> {
    match o {
        Some(s) => Some(s@),
        None => None,
    }
}

/// View of optional Discord options.
pub open spec fn options_view(o: Option<DiscordOptions>) -> Option<DiscordOptionsView> {
    match o {
        Some(x) => Some(x@),
        None => None,
    }
}

/// The song whose activity is shown.
#[derive(Debug)]
pub struct ActivityData {
    metadata: MetadataPayload,
    status: PlaybackStatus,
    current_time: i64,
    cached_cover_url: String,
}

/// Mathematical view of [`ActivityData`].
pub struct ActivityDataView {
    pub metadata: MetadataView,
    pub status: PlaybackStatus,
    /// Position in the song, milliseconds.
    pub current_time: i64,
    pub cached_cover_url: Seq<char>,
}

impl View for ActivityData {
    type V = ActivityDataView;

    closed spec fn view(&self) -> ActivityDataView {
        ActivityDataView {
            metadata: self.metadata@,
            status: self.status,
            current_time: self.current_time,
            cached_cover_url: self.cached_cover_url@,
        }
    }
}

/// A new song, paused at its start.
pub open spec fn data_from_metadata(m: MetadataView, default_icon: Seq<char>) -> ActivityDataView {
    ActivityDataView {
        metadata: m,
        status: PlaybackStatus::Paused,
        current_time: 0,
        cached_cover_url: cover_url(m.original_cover_url, default_icon),
    }
}

/// The same playback status with a new song, at its start.
pub open spec fn data_with_metadata(
    d: ActivityDataView,
    m: MetadataView,
    default_icon: Seq<char>,
) -> ActivityDataView {
    ActivityDataView {
        metadata: m,
        current_time: 0,
        cached_cover_url: cover_url(m.original_cover_url, default_icon),
        ..d
    }
}

impl ActivityData {
    /// Data for a new song: paused at its start.
    pub fn from_metadata(metadata: MetadataPayload, default_icon: &str) -> (r: Self)
        ensures
            r@ == data_from_metadata(metadata@, default_icon@),
    {
        let cached_cover_url = Self::process_cover_url(
            opt_as_str(&metadata.original_cover_url),
            default_icon,
        );
        ActivityData {
            metadata,
            status: PlaybackStatus::Paused,
            current_time: 0,
            cached_cover_url,
        }
    }

    /// Replaces the song, keeping the playback status.
    pub fn update_metadata(&mut self, metadata: MetadataPayload, default_icon: &str)
        ensures
            final(self)@ == data_with_metadata(old(self)@, metadata@, default_icon@),
    {
        self.cached_cover_url = Self::process_cover_url(
            opt_as_str(&metadata.original_cover_url),
            default_icon,
        );
        self.metadata = metadata;
        self.current_time = 0;
    }

    /// The cover to show: see [`cover_url`].
    pub fn process_cover_url(original_url: Option<&str>, default_icon: &str) -> (r: String)
        ensures
            r@ == cover_url(opt_str_view(original_url), default_icon@),
    {
        match original_url {
            None => default_icon.to_owned(),
            Some(url) => {
                if !starts_with(url, "http") {
                    return default_icon.to_owned();
                }
                proof {
                    reveal_strlit("http://");
                }
                replace(url, "http://", "https://")
            },
        }
    }
}

/// The string inside an optional `String`.
pub fn opt_as_str(o: &Option<String>) -> (r: Option<&str>)
    ensures
        opt_str_view(r) == match o {
            Some(s) => Some(s@),
            None => None::<Seq<char>>,
        },
{
    match o {
        Some(s) => Some(s.as_str()),
        None => None,
    }
}

/// Which outcome the adapter waits for.
#[derive(Clone, Copy, PartialEq, Eq, Debug, Structural)]
pub enum Pending {
    /// None: a reported outcome is ignored.
    Nothing,
    /// The outcome of `Connect`.
    Connection,
    /// The outcome of `ClearActivity` or `SetActivity`; on success the last
    /// sent end timestamp becomes `last_sent_after`.
    Update { last_sent_after: Option<i64> },
}

/// The Discord presence: its settings, the song, and the connection state.
#[derive(Debug)]
pub struct DiscordAdapter {
    options: Option<DiscordOptions>,
    connected: bool,
    data: Option<ActivityData>,
    is_enabled: bool,
    next_retry_time: Option<u64>,
    // the end timestamp last sent: debounces updates, and tells whether an
    // activity with timestamps is shown
    last_sent_end_timestamp: Option<i64>,
    show_when_paused: bool,
    display_mode: DiscordDisplayMode,
    pending: Pending,
}

/// Mathematical view of [`DiscordAdapter`].
pub struct AdapterView {
    pub options: Option<DiscordOptionsView>,
    /// A connected client exists.
    pub connected: bool,
    pub data: Option<ActivityDataView>,
    pub is_enabled: bool,
    /// Monotonic time before which no connection is attempted.
    pub next_retry_time: Option<u64>,
    pub last_sent_end_timestamp: Option<i64>,
    pub show_when_paused: bool,
    pub display_mode: DiscordDisplayMode,
    pub pending: Pending,
}

impl View for DiscordAdapter {
    type V = AdapterView;

    closed spec fn view(&self) -> AdapterView {
        AdapterView {
            options: options_view(self.options),
            connected: self.connected,
            data: match self.data {
                Some(d) => Some(d@),
                None => None,
            },
            is_enabled: self.is_enabled,
            next_retry_time: self.next_retry_time,
            last_sent_end_timestamp: self.last_sent_end_timestamp,
            show_when_paused: self.show_when_paused,
            display_mode: self.display_mode,
            pending: self.pending,
        }
    }
}

/// A new adapter: disabled, without song, not connected.
pub open spec fn initial_view(options: Option<DiscordOptionsView>) -> AdapterView {
    AdapterView {
        options,
        connected: false,
        data: None,
        is_enabled: false,
        next_retry_time: None,
        last_sent_end_timestamp: None,
        show_when_paused: false,
        display_mode: DiscordDisplayMode::Name,
        pending: Pending::Nothing,
    }
}

/// Nothing to do, nothing awaited.
pub open spec fn idle(s: AdapterView) -> (AdapterView, RequestView) {
    (AdapterView { pending: Pending::Nothing, ..s }, RequestView::Idle)
}

/// Drops the client (closing it if there is one) and forgets the last sent
/// timestamp.
pub open spec fn disconnect_step(s: AdapterView) -> (AdapterView, RequestView) {
    (
        AdapterView {
            connected: false,
            last_sent_end_timestamp: None,
            pending: Pending::Nothing,
            ..s
        },
        if s.connected {
            RequestView::Close
        } else {
            RequestView::Idle
        },
    )
}

/// A failed update: disconnect, and wait for the cooldown before reconnecting.
pub open spec fn failure_step(s: AdapterView, c: Clock) -> (AdapterView, RequestView) {
    let d = disconnect_step(s);
    (AdapterView { next_retry_time: Some(retry_at(c)), ..d.0 }, d.1)
}

/// Starts connecting, unless there are no options or the cooldown is running.
pub open spec fn connect_step(s: AdapterView, c: Clock) -> (AdapterView, RequestView) {
    match s.options {
        None => idle(s),
        Some(o) => match s.next_retry_time {
            Some(t) if c.monotonic_ms < t => idle(s),
            _ => (AdapterView { pending: Pending::Connection, ..s }, RequestView::Connect(o.app_id)),
        },
    }
}

/// At most the first two buttons of the song.
pub open spec fn first_buttons(b: Option<Seq<ButtonView>>) -> Seq<ButtonView> {
    match b {
        Some(v) => if v.len() <= 2 {
            v
        } else {
            v.take(2)
        },
        None => Seq::empty(),
    }
}

/// The activity for a song, without timestamps.
pub open spec fn base_plan(
    d: ActivityDataView,
    mode: DiscordDisplayMode,
    o: DiscordOptionsView,
) -> PlanView {
    PlanView {
        details: d.metadata.song_name,
        state: d.metadata.author_name,
        activity_type: ActivityKind::Listening,
        assets: AssetsView {
            large_image: d.cached_cover_url,
            large_text: d.metadata.album_name,
            small_image: o.default_icon_asset_key,
            small_text: o.small_icon_hover_text,
        },
        status_display_type: mode,
        buttons: first_buttons(d.metadata.discord_buttons),
        timestamps: None,
    }
}

/// An activity with a progress bar.
pub open spec fn with_timestamps(p: PlanView, t: (int, int)) -> PlanView {
    PlanView { timestamps: Some((t.0 as i64, t.1 as i64)), ..p }
}

/// A paused activity with a progress bar: its small image reads "Paused".
pub open spec fn paused_plan(p: PlanView, t: (int, int)) -> PlanView {
    PlanView {
        timestamps: Some((t.0 as i64, t.1 as i64)),
        assets: AssetsView { small_text: "Paused"@, ..p.assets },
        ..p
    }
}

/// A song length that is known and positive.
pub open spec fn positive_duration(d: ActivityDataView) -> bool {
    d.metadata.duration matches Some(x) && x > 0
}

/// Brings the activity shown on a connected client up to date.
pub open spec fn perform_step(s: AdapterView, c: Clock) -> (AdapterView, RequestView) {
    match s.data {
        None => idle(s),
        Some(d) => match s.options {
            None => failure_step(s, c),
            Some(o) => {
                let base = base_plan(d, s.display_mode, o);
                let dur = d.metadata.duration->0;
                match d.status {
                    PlaybackStatus::Paused => if !s.show_when_paused {
                        (
                            AdapterView {
                                pending: Pending::Update { last_sent_after: None },
                                ..s
                            },
                            RequestView::ClearActivity,
                        )
                    } else {
                        let plan = if positive_duration(d) {
                            paused_plan(
                                base,
                                paused_timestamps(d.current_time as int, dur as int, c.unix_ms as int),
                            )
                        } else {
                            base
                        };
                        (
                            AdapterView {
                                last_sent_end_timestamp: None,
                                pending: Pending::Update { last_sent_after: None },
                                ..s
                            },
                            RequestView::SetActivity(plan),
                        )
                    },
                    PlaybackStatus::Playing => if positive_duration(d) {
                        let ts = playing_timestamps(
                            d.current_time as int,
                            dur as int,
                            c.unix_ms as int,
                        );
                        if s.last_sent_end_timestamp matches Some(le) && abs(le - ts.1)
                            < TIMESTAMP_UPDATE_THRESHOLD_MS {
                            idle(s)
                        } else {
                            (
                                AdapterView {
                                    pending: Pending::Update { last_sent_after: Some(ts.1 as i64) },
                                    ..s
                                },
                                RequestView::SetActivity(with_timestamps(base, ts)),
                            )
                        }
                    } else if s.last_sent_end_timestamp is Some {
                        (
                            AdapterView {
                                pending: Pending::Update {
                                    last_sent_after: if d.metadata.duration is None {
                                        None
                                    } else {
                                        s.last_sent_end_timestamp
                                    },
                                },
                                ..s
                            },
                            RequestView::SetActivity(base),
                        )
                    } else {
                        idle(s)
                    },
                }
            },
        },
    }
}

/// Brings the Discord side in line with the adapter's state.
pub open spec fn sync_step(s: AdapterView, c: Clock) -> (AdapterView, RequestView) {
    if !s.is_enabled || s.options is None {
        if s.connected {
            disconnect_step(s)
        } else {
            idle(s)
        }
    } else if s.data is None {
        if s.connected {
            (
                AdapterView { last_sent_end_timestamp: None, pending: Pending::Nothing, ..s },
                RequestView::ClearActivity,
            )
        } else {
            idle(s)
        }
    } else if !s.connected {
        connect_step(s, c)
    } else {
        perform_step(s, c)
    }
}

/// Takes in the outcome of the request that the adapter waits for.
pub open spec fn resume_step(s: AdapterView, ok: bool, c: Clock) -> (AdapterView, RequestView) {
    match s.pending {
        Pending::Nothing => (s, RequestView::Idle),
        Pending::Connection => if ok {
            perform_step(
                AdapterView {
                    connected: true,
                    next_retry_time: None,
                    last_sent_end_timestamp: None,
                    pending: Pending::Nothing,
                    ..s
                },
                c,
            )
        } else {
            (
                AdapterView {
                    next_retry_time: Some(retry_at(c)),
                    pending: Pending::Nothing,
                    ..s
                },
                RequestView::Idle,
            )
        },
        Pending::Update { last_sent_after } => if ok {
            (
                AdapterView {
                    last_sent_end_timestamp: last_sent_after,
                    pending: Pending::Nothing,
                    ..s
                },
                RequestView::Idle,
            )
        } else {
            failure_step(s, c)
        },
    }
}

/// The state that `enable` synchronises.
pub open spec fn after_enable(s: AdapterView) -> AdapterView {
    AdapterView { is_enabled: true, next_retry_time: None, ..s }
}

/// The state that `update_config` synchronises.
pub open spec fn after_config(s: AdapterView, p: DiscordConfigPayload) -> AdapterView {
    AdapterView {
        show_when_paused: p.show_when_paused,
        display_mode: match p.display_mode {
            Some(m) => m,
            None => s.display_mode,
        },
        last_sent_end_timestamp: None,
        ..s
    }
}

/// The default icon of the options, or the empty string.
pub open spec fn default_icon(s: AdapterView) -> Seq<char> {
    match s.options {
        Some(o) => o.default_icon_asset_key,
        None => ""@,
    }
}

/// The state that `update_metadata` synchronises.
pub open spec fn after_metadata(s: AdapterView, m: MetadataView) -> AdapterView {
    AdapterView {
        data: Some(
            match s.data {
                Some(d) => data_with_metadata(d, m, default_icon(s)),
                None => data_from_metadata(m, default_icon(s)),
            },
        ),
        last_sent_end_timestamp: None,
        ..s
    }
}

/// The state that `update_play_state` synchronises, when there is a song.
pub open spec fn after_play_state(s: AdapterView, p: PlayStatePayload) -> AdapterView {
    let d = s.data->0;
    AdapterView {
        last_sent_end_timestamp: if p.status == PlaybackStatus::Playing && d.status
            != PlaybackStatus::Playing {
            None
        } else {
            s.last_sent_end_timestamp
        },
        data: Some(ActivityDataView { status: p.status, ..d }),
        ..s
    }
}

/// The state that `update_timeline` synchronises, when there is a song.
pub open spec fn after_timeline(s: AdapterView, p: TimelinePayload) -> AdapterView {
    AdapterView { data: Some(ActivityDataView { current_time: p.current_time, ..s.data->0 }), ..s }
}

/// The arithmetic of an update of the activity of a song stays within `i64`:
/// the song is in `status` at `current_time` of `duration`, paused songs are
/// shown when `show_when_paused`, `last_sent` is the end timestamp last sent,
/// and it is `now_ms`.
pub open spec fn update_in_range(
    status: PlaybackStatus,
    current_time: i64,
    duration: Option<i64>,
    show_when_paused: bool,
    last_sent: Option<i64>,
    now_ms: i64,
) -> bool {
    let dur = duration->0;
    duration is Some && dur > 0 ==> {
        let cur = current_time as int;
        match status {
            PlaybackStatus::Paused => show_when_paused ==> paused_in_range(cur, dur as int, now_ms as int),
            PlaybackStatus::Playing => playing_in_range(cur, dur as int, now_ms as int) && match last_sent {
                Some(le) => {
                    let diff = le - playing_timestamps(cur, dur as int, now_ms as int).1;
                    i64::MIN < diff <= i64::MAX
                },
                None => true,
            },
        }
    }
}

/// The arithmetic of an update of the activity stays within `i64`.
pub open spec fn perform_in_range(s: AdapterView, now_ms: i64) -> bool {
    match s.data {
        Some(d) => update_in_range(
            d.status,
            d.current_time,
            d.metadata.duration,
            s.show_when_paused,
            s.last_sent_end_timestamp,
            now_ms,
        ),
        None => true,
    }
}

/// The arithmetic of a synchronisation of `s` at `c` stays in range.
pub open spec fn sync_in_range(s: AdapterView, c: Clock) -> bool {
    &&& clock_in_range(c)
    &&& s.is_enabled && s.options is Some && s.connected ==> perform_in_range(s, c.unix_ms)
}

/// The arithmetic of a resumption of `s` at `c` stays in range.
pub open spec fn resume_in_range(s: AdapterView, c: Clock) -> bool {
    &&& clock_in_range(c)
    &&& s.pending is Connection ==> perform_in_range(
        AdapterView { last_sent_end_timestamp: None, ..s },
        c.unix_ms,
    )
}

/// Whether `x` fits in an `i64`.
fn fits(x: i128) -> (r: bool)
    ensures
        r == (i64::MIN <= x <= i64::MAX),
{
    (i64::MIN as i128) <= x && x <= i64::MAX as i128
}

/// Decides [`update_in_range`].
pub fn update_fits(
    status: PlaybackStatus,
    current_time: i64,
    duration: Option<i64>,
    show_when_paused: bool,
    last_sent: Option<i64>,
    now_ms: i64,
) -> (r: bool)
    ensures
        r == update_in_range(status, current_time, duration, show_when_paused, last_sent, now_ms),
{
    let dur = match duration {
        Some(d) => d,
        None => {
            return true;
        },
    };
    if dur <= 0 {
        return true;
    }
    let cur = current_time as i128;
    let now = now_ms as i128;
    let d = dur as i128;
    match status {
        PlaybackStatus::Paused => {
            if !show_when_paused {
                return true;
            }
            fits(now - cur) && fits(now - cur + ONE_YEAR_MS as i128) && fits(
                now - cur + ONE_YEAR_MS as i128 + d,
            )
        },
        PlaybackStatus::Playing => {
            if cur >= d {
                match last_sent {
                    Some(le) => {
                        let diff = le as i128;
                        return (i64::MIN as i128) < diff && diff <= i64::MAX as i128;
                    },
                    None => {
                        return true;
                    },
                }
            }
            if !(fits(d - cur) && fits(now + (d - cur)) && fits(now - cur)) {
                return false;
            }
            match last_sent {
                Some(le) => {
                    let diff = le as i128 - (now + (d - cur));
                    (i64::MIN as i128) < diff && diff <= i64::MAX as i128
                },
                None => true,
            }
        },
    }
}

impl DiscordAdapter {
    /// A disabled adapter with the given options, no song and no client.
    pub fn new(options: Option<DiscordOptions>) -> (r: Self)
        ensures
            r@ == initial_view(options_view(options)),
    {
        DiscordAdapter {
            options,
            connected: false,
            data: None,
            is_enabled: false,
            next_retry_time: None,
            last_sent_end_timestamp: None,
            show_when_paused: false,
            display_mode: DiscordDisplayMode::Name,
            pending: Pending::Nothing,
        }
    }

    fn idle(&mut self) -> (r: IpcRequest)
        ensures
            (final(self)@, r@) == idle(old(self)@),
    {
        self.pending = Pending::Nothing;
        IpcRequest::Idle
    }

    fn disconnect(&mut self) -> (r: IpcRequest)
        ensures
            (final(self)@, r@) == disconnect_step(old(self)@),
    {
        let was_connected = self.connected;
        self.connected = false;
        self.last_sent_end_timestamp = None;
        self.pending = Pending::Nothing;
        if was_connected {
            IpcRequest::Close
        } else {
            IpcRequest::Idle
        }
    }

    fn fail(&mut self, clock: Clock) -> (r: IpcRequest)
        requires
            clock_in_range(clock),
        ensures
            (final(self)@, r@) == failure_step(old(self)@, clock),
    {
        let r = self.disconnect();
        self.next_retry_time = Some(clock.monotonic_ms + RECONNECT_COOLDOWN_MS);
        r
    }

    fn connect(&mut self, clock: Clock) -> (r: IpcRequest)
        ensures
            (final(self)@, r@) == connect_step(old(self)@, clock),
    {
        if self.options.is_none() {
            return self.idle();
        }
        if let Some(retry_time) = self.next_retry_time {
            if clock.monotonic_ms < retry_time {
                return self.idle();
            }
        }
        let app_id = match &self.options {
            Some(o) => o.app_id.clone(),
            None => String::new(),
        };
        self.pending = Pending::Connection;
        IpcRequest::Connect { app_id }
    }

    /// The activity for a song, without timestamps: song, artist, cover and
    /// album, the default icon with its hover text, and at most two buttons.
    pub fn build_base_activity(
        data: &ActivityData,
        display_mode: DiscordDisplayMode,
        options: &DiscordOptions,
    ) -> (r: ActivityPlan)
        ensures
            r@ == base_plan(data@, display_mode, options@),
            r@.activity_type == ActivityKind::Listening,
            r@.details == data@.metadata.song_name,
            r@.state == data@.metadata.author_name,
            r@.assets.large_image == data@.cached_cover_url,
            r@.status_display_type == display_mode,
            r@.timestamps is None,
    {
        let mut buttons: Vec<DiscordButton> = Vec::new();
        match &data.metadata.discord_buttons {
            Some(b) => {
                let n: usize = if b.len() < 2 {
                    b.len()
                } else {
                    2
                };
                let mut i: usize = 0;
                while i < n
                    invariant
                        n <= b.len(),
                        n == b.len() || n == 2,
                        i <= n,
                        buttons@.len() == i,
                        buttons_view(buttons@) == buttons_view(b@).take(i as int),
                    decreases n - i,
                {
                    let ghost prev = buttons@;
                    buttons.push(b[i].duplicate());
                    proof {
                        let target = buttons_view(b@).take(i + 1);
                        assert forall|j: int|
                            0 <= j < buttons@.len() implies #[trigger] buttons_view(buttons@)[j]
                            == target[j] by {
                            if j < i {
                                assert(buttons_view(prev)[j] == buttons_view(b@).take(
                                    i as int,
                                )[j]);
                            }
                        }
                        assert(buttons_view(buttons@) =~= target);
                    }
                    i = i + 1;
                }
                assert(n == b.len() ==> buttons_view(b@).take(n as int) =~= buttons_view(b@));
            },
            None => {
                assert(buttons_view(buttons@) =~= Seq::<ButtonView>::empty());
            },
        }
        assert(buttons_view(buttons@) == first_buttons(data@.metadata.discord_buttons));
        ActivityPlan {
            details: data.metadata.song_name.clone(),
            state: data.metadata.author_name.clone(),
            activity_type: ActivityKind::Listening,
            assets: AssetsPlan {
                large_image: data.cached_cover_url.clone(),
                large_text: data.metadata.album_name.clone(),
                small_image: options.default_icon_asset_key.clone(),
                small_text: options.small_icon_hover_text.clone(),
            },
            status_display_type: display_mode,
            buttons,
            timestamps: None,
        }
    }

    fn perform_update(&mut self, clock: Clock) -> (r: IpcRequest)
        requires
            clock_in_range(clock),
            perform_in_range(old(self)@, clock.unix_ms),
        ensures
            (final(self)@, r@) == perform_step(old(self)@, clock),
    {
        if self.data.is_none() {
            return self.idle();
        }
        if self.options.is_none() {
            return self.fail(clock);
        }
        let base = match (&self.data, &self.options) {
            (Some(data), Some(options)) => Self::build_base_activity(data, self.display_mode, options),
            _ => {
                return self.idle();
            },
        };
        let (status, current_time, duration) = match &self.data {
            Some(data) => (data.status, data.current_time, data.metadata.duration),
            None => {
                return self.idle();
            },
        };
        let positive = match duration {
            Some(x) => x > 0,
            None => false,
        };
        let dur = match duration {
            Some(x) => x,
            None => 0,
        };
        match status {
            PlaybackStatus::Paused => {
                if !self.show_when_paused {
                    self.pending = Pending::Update { last_sent_after: None };
                    return IpcRequest::ClearActivity;
                }
                let mut plan = base;
                if positive {
                    let (start, end) = calc_paused_timestamps(current_time, dur, clock.unix_ms);
                    plan.timestamps = Some((start, end));
                    plan.assets.small_text = "Paused".to_owned();
                }
                self.last_sent_end_timestamp = None;
                self.pending = Pending::Update { last_sent_after: None };
                IpcRequest::SetActivity(plan)
            },
            PlaybackStatus::Playing => {
                if positive {
                    let (start, end) = calc_playing_timestamps(current_time, dur, clock.unix_ms);
                    if let Some(last_end) = self.last_sent_end_timestamp {
                        let diff = last_end - end;
                        let distance = if diff < 0 {
                            -diff
                        } else {
                            diff
                        };
                        if distance < TIMESTAMP_UPDATE_THRESHOLD_MS {
                            return self.idle();
                        }
                    }
                    let mut plan = base;
                    plan.timestamps = Some((start, end));
                    self.pending = Pending::Update { last_sent_after: Some(end) };
                    IpcRequest::SetActivity(plan)
                } else if self.last_sent_end_timestamp.is_some() {
                    let after = if duration.is_none() {
                        None
                    } else {
                        self.last_sent_end_timestamp
                    };
                    self.pending = Pending::Update { last_sent_after: after };
                    IpcRequest::SetActivity(base)
                } else {
                    self.idle()
                }
            },
        }
    }

    fn sync_discord(&mut self, clock: Clock) -> (r: IpcRequest)
        requires
            sync_in_range(old(self)@, clock),
        ensures
            (final(self)@, r@) == sync_step(old(self)@, clock),
    {
        if !self.is_enabled || self.options.is_none() {
            if self.connected {
                return self.disconnect();
            }
            return self.idle();
        }
        if self.data.is_none() {
            if self.connected {
                self.last_sent_end_timestamp = None;
                self.pending = Pending::Nothing;
                return IpcRequest::ClearActivity;
            }
            return self.idle();
        }
        if !self.connected {
            return self.connect(clock);
        }
        self.perform_update(clock)
    }

    /// Turns the presence on and synchronises it; a pending cooldown is
    /// cancelled.
    pub fn enable(&mut self, clock: Clock) -> (r: IpcRequest)
        requires
            sync_in_range(after_enable(old(self)@), clock),
        ensures
            (final(self)@, r@) == sync_step(after_enable(old(self)@), clock),
    {
        self.is_enabled = true;
        self.next_retry_time = None;
        self.sync_discord(clock)
    }

    /// Turns the presence off and drops the client.
    pub fn disable(&mut self) -> (r: IpcRequest)
        ensures
            (final(self)@, r@) == disconnect_step(AdapterView { is_enabled: false, ..old(self)@ }),
    {
        self.is_enabled = false;
        self.disconnect()
    }

    /// Background work: reconnects an enabled adapter that has no client.
    pub fn tick(&mut self, clock: Clock) -> (r: IpcRequest)
        requires
            old(self)@.is_enabled && !old(self)@.connected ==> sync_in_range(old(self)@, clock),
        ensures
            (final(self)@, r@) == if old(self)@.is_enabled && !old(self)@.connected {
                sync_step(old(self)@, clock)
            } else {
                idle(old(self)@)
            },
    {
        if self.is_enabled && !self.connected {
            self.sync_discord(clock)
        } else {
            self.idle()
        }
    }

    /// Changes how the activity is shown and sends it again.
    pub fn update_config(&mut self, payload: DiscordConfigPayload, clock: Clock) -> (r: IpcRequest)
        requires
            sync_in_range(after_config(old(self)@, payload), clock),
        ensures
            (final(self)@, r@) == sync_step(after_config(old(self)@, payload), clock),
            final(self)@.show_when_paused == payload.show_when_paused,
            final(self)@.display_mode == match payload.display_mode {
                Some(m) => m,
                None => old(self)@.display_mode,
            },
    {
        self.show_when_paused = payload.show_when_paused;
        if let Some(mode) = payload.display_mode {
            self.display_mode = mode;
        }
        self.last_sent_end_timestamp = None;
        self.sync_discord(clock)
    }

    /// Shows a new song, at its start, keeping the playback status.
    pub fn update_metadata(&mut self, payload: MetadataPayload, clock: Clock) -> (r: IpcRequest)
        requires
            sync_in_range(after_metadata(old(self)@, payload@), clock),
        ensures
            (final(self)@, r@) == sync_step(after_metadata(old(self)@, payload@), clock),
            final(self)@.data matches Some(d) && d.metadata == payload@ && d.current_time == 0,
    {
        let default_icon: String = match &self.options {
            Some(o) => o.default_icon_asset_key.clone(),
            None => "".to_owned(),
        };
        let data = self.data.take();
        let new_data = match data {
            Some(mut d) => {
                d.update_metadata(payload, default_icon.as_str());
                d
            },
            None => ActivityData::from_metadata(payload, default_icon.as_str()),
        };
        self.data = Some(new_data);
        self.last_sent_end_timestamp = None;
        self.sync_discord(clock)
    }

    /// Records a new playback status; a song that starts playing gets its
    /// timestamps sent again. Without a song nothing happens.
    pub fn update_play_state(&mut self, payload: PlayStatePayload, clock: Clock) -> (r: IpcRequest)
        requires
            old(self)@.data is Some ==> sync_in_range(after_play_state(old(self)@, payload), clock),
        ensures
            (final(self)@, r@) == if old(self)@.data is Some {
                sync_step(after_play_state(old(self)@, payload), clock)
            } else {
                idle(old(self)@)
            },
            old(self)@.data is Some ==> (final(self)@.data matches Some(d) && d.status
                == payload.status),
    {
        let data = self.data.take();
        match data {
            Some(mut d) => {
                if payload.status == PlaybackStatus::Playing && d.status != PlaybackStatus::Playing {
                    self.last_sent_end_timestamp = None;
                }
                d.status = payload.status;
                self.data = Some(d);
                self.sync_discord(clock)
            },
            None => self.idle(),
        }
    }

    /// Records the position in the song. Without a song nothing happens.
    pub fn update_timeline(&mut self, payload: TimelinePayload, clock: Clock) -> (r: IpcRequest)
        requires
            old(self)@.data is Some ==> sync_in_range(after_timeline(old(self)@, payload), clock),
        ensures
            (final(self)@, r@) == if old(self)@.data is Some {
                sync_step(after_timeline(old(self)@, payload), clock)
            } else {
                idle(old(self)@)
            },
            old(self)@.data is Some ==> (final(self)@.data matches Some(d) && d.current_time
                == payload.current_time),
    {
        let data = self.data.take();
        match data {
            Some(mut d) => {
                d.current_time = payload.current_time;
                self.data = Some(d);
                self.sync_discord(clock)
            },
            None => self.idle(),
        }
    }

    /// Drops the client.
    pub fn shutdown(&mut self) -> (r: IpcRequest)
        ensures
            (final(self)@, r@) == disconnect_step(old(self)@),
    {
        self.disconnect()
    }

    /// Takes in whether the last request was carried out successfully, and
    /// answers with the next request.
    pub fn resume(&mut self, ok: bool, clock: Clock) -> (r: IpcRequest)
        requires
            resume_in_range(old(self)@, clock),
        ensures
            (final(self)@, r@) == resume_step(old(self)@, ok, clock),
    {
        match self.pending {
            Pending::Nothing => IpcRequest::Idle,
            Pending::Connection => {
                if ok {
                    self.connected = true;
                    self.next_retry_time = None;
                    self.last_sent_end_timestamp = None;
                    self.pending = Pending::Nothing;
                    self.perform_update(clock)
                } else {
                    self.next_retry_time = Some(clock.monotonic_ms + RECONNECT_COOLDOWN_MS);
                    self.pending = Pending::Nothing;
                    IpcRequest::Idle
                }
            },
            Pending::Update { last_sent_after } => {
                if ok {
                    self.last_sent_end_timestamp = last_sent_after;
                    self.pending = Pending::Nothing;
                    IpcRequest::Idle
                } else {
                    self.fail(clock)
                }
            },
        }
    }
}

/// Whether the end of a cooldown started at `clock` can be represented.
pub fn clock_fits(clock: Clock) -> (r: bool)
    ensures
        r == clock_in_range(clock),
{
    clock.monotonic_ms <= u64::MAX - RECONNECT_COOLDOWN_MS
}

impl DiscordAdapter {
    /// Whether the song's update arithmetic stays in range with these
    /// settings.
    fn song_fits(&self, show_when_paused: bool, last_sent: Option<i64>, now_ms: i64) -> (r: bool)
        ensures
            r == match self@.data {
                Some(d) => update_in_range(
                    d.status,
                    d.current_time,
                    d.metadata.duration,
                    show_when_paused,
                    last_sent,
                    now_ms,
                ),
                None => true,
            },
    {
        match &self.data {
            Some(d) => update_fits(
                d.status,
                d.current_time,
                d.metadata.duration,
                show_when_paused,
                last_sent,
                now_ms,
            ),
            None => true,
        }
    }

    /// Whether `enable` may be called at `clock`.
    pub fn enable_fits(&self, clock: Clock) -> (r: bool)
        ensures
            r == sync_in_range(after_enable(self@), clock),
    {
        clock_fits(clock) && (!(self.options.is_some() && self.connected) || self.song_fits(
            self.show_when_paused,
            self.last_sent_end_timestamp,
            clock.unix_ms,
        ))
    }

    /// Whether `tick` may be called at `clock`.
    pub fn tick_fits(&self, clock: Clock) -> (r: bool)
        ensures
            r == (self@.is_enabled && !self@.connected ==> sync_in_range(self@, clock)),
    {
        !(self.is_enabled && !self.connected) || clock_fits(clock)
    }

    /// Whether `update_config` may be called with `payload` at `clock`.
    pub fn config_fits(&self, payload: DiscordConfigPayload, clock: Clock) -> (r: bool)
        ensures
            r == sync_in_range(after_config(self@, payload), clock),
    {
        clock_fits(clock) && (!(self.is_enabled && self.options.is_some() && self.connected)
            || self.song_fits(payload.show_when_paused, None, clock.unix_ms))
    }

    /// Whether `update_metadata` may be called with `payload` at `clock`.
    pub fn metadata_fits(&self, payload: &MetadataPayload, clock: Clock) -> (r: bool)
        ensures
            r == sync_in_range(after_metadata(self@, payload@), clock),
    {
        let status = match &self.data {
            Some(d) => d.status,
            None => PlaybackStatus::Paused,
        };
        clock_fits(clock) && (!(self.is_enabled && self.options.is_some() && self.connected)
            || update_fits(
            status,
            0,
            payload.duration,
            self.show_when_paused,
            None,
            clock.unix_ms,
        ))
    }

    /// Whether `update_play_state` may be called with `payload` at `clock`.
    pub fn play_state_fits(&self, payload: PlayStatePayload, clock: Clock) -> (r: bool)
        ensures
            r == (self@.data is Some ==> sync_in_range(after_play_state(self@, payload), clock)),
    {
        match &self.data {
            None => true,
            Some(d) => {
                let last_sent = if payload.status == PlaybackStatus::Playing && d.status
                    != PlaybackStatus::Playing {
                    None
                } else {
                    self.last_sent_end_timestamp
                };
                clock_fits(clock) && (!(self.is_enabled && self.options.is_some()
                    && self.connected) || update_fits(
                    payload.status,
                    d.current_time,
                    d.metadata.duration,
                    self.show_when_paused,
                    last_sent,
                    clock.unix_ms,
                ))
            },
        }
    }

    /// Whether `update_timeline` may be called with `payload` at `clock`.
    pub fn timeline_fits(&self, payload: TimelinePayload, clock: Clock) -> (r: bool)
        ensures
            r == (self@.data is Some ==> sync_in_range(after_timeline(self@, payload), clock)),
    {
        match &self.data {
            None => true,
            Some(d) => clock_fits(clock) && (!(self.is_enabled && self.options.is_some()
                && self.connected) || update_fits(
                d.status,
                payload.current_time,
                d.metadata.duration,
                self.show_when_paused,
                self.last_sent_end_timestamp,
                clock.unix_ms,
            )),
        }
    }

    /// Whether `resume` may be called at `clock`.
    pub fn resume_fits(&self, clock: Clock) -> (r: bool)
        ensures
            r == resume_in_range(self@, clock),
    {
        clock_fits(clock) && (self.pending != Pending::Connection || self.song_fits(
            self.show_when_paused,
            None,
            clock.unix_ms,
        ))
    }

    /// Whether the presence is turned on.
    pub fn is_enabled(&self) -> (r: bool)
        ensures
            r == self@.is_enabled,
    {
        self.is_enabled
    }

    /// Whether a connected client exists.
    pub fn is_connected(&self) -> (r: bool)
        ensures
            r == self@.connected,
    {
        self.connected
    }

    /// The end timestamp last sent.
    pub fn last_sent_end_timestamp(&self) -> (r: Option<i64>)
        ensures
            r == self@.last_sent_end_timestamp,
    {
        self.last_sent_end_timestamp
    }

    /// Monotonic time before which no connection is attempted.
    pub fn next_retry_time(&self) -> (r: Option<u64>)
        ensures
            r == self@.next_retry_time,
    {
        self.next_retry_time
    }

    /// Whether paused songs are shown.
    pub fn show_when_paused(&self) -> (r: bool)
        ensures
            r == self@.show_when_paused,
    {
        self.show_when_paused
    }

    /// The field shown under the user name.
    pub fn display_mode(&self) -> (r: DiscordDisplayMode)
        ensures
            r == self@.display_mode,
    {
        self.display_mode
    }

    /// The outcome the adapter waits for.
    pub fn pending(&self) -> (r: Pending)
        ensures
            r == self@.pending,
    {
        self.pending
    }

    /// The playback status of the song, if there is one.
    pub fn playback_status(&self) -> (r: Option<PlaybackStatus>)
        ensures
            r == match self@.data {
                Some(d) => Some(d.status),
                None => None::<PlaybackStatus>,
            },
    {
        match &self.data {
            Some(d) => Some(d.status),
            None => None,
        }
    }

    /// The position in the song, if there is one.
    pub fn current_time(&self) -> (r: Option<i64>)
        ensures
            r == match self@.data {
                Some(d) => Some(d.current_time),
                None => None::<i64>,
            },
    {
        match &self.data {
            Some(d) => Some(d.current_time),
            None => None,
        }
    }

    /// The cover shown for the song, if there is one.
    pub fn cached_cover_url(&self) -> (r: Option<String>)
        ensures
            match (r, self@.data) {
                (Some(u), Some(d)) => u@ == d.cached_cover_url,
                (None, None) => true,
                _ => false,
            },
    {
        match &self.data {
            Some(d) => Some(d.cached_cover_url.clone()),
            None => None,
        }
    }
}

} // verus!
