//! The MPRIS media controls on Linux: which events the player's requests
//! report, and which calls each update makes on the player.
use crate::model::{
    MetadataPayload,
    MetadataView,
    PlayModePayload,
    PlayStatePayload,
    PlaybackStatus,
    RepeatMode,
    SystemMediaEventType,
    TimelinePayload,
    strings_view,
};
use crate::text::{decimal, push_decimal, push_signed_decimal, signed_decimal};
use vstd::prelude::*;

verus! {

/// A request that an MPRIS client makes of the player. Rates and volumes are
/// the bit patterns of floating-point values; positions and offsets are
/// microseconds.
#[derive(Clone, Copy, PartialEq, Eq, Debug, Structural)]
pub enum MprisRequest {
    Play,
    Pause,
    PlayPause,
    Next,
    Previous,
    Stop,
    SetLoopStatus,
    SetShuffle,
    SetRate(u64),
    SetVolume(u64),
    /// Move by `offset_us` from the player's position `position_us`.
    Seek { position_us: i64, offset_us: i64 },
    /// Move to `position_us`.
    SetPosition { position_us: i64 },
}

/// The event that a request reports to the session's callback.
#[derive(Clone, Copy, PartialEq, Eq, Debug, Structural)]
pub enum MprisEvent {
    Simple(SystemMediaEventType),
    /// Seek to this position, in microseconds.
    SeekToMicros(i64),
    SetRate(u64),
    SetVolume(u64),
}

/// `a + b`, saturated at the bounds of `i64`.
pub open spec fn saturating_add(a: i64, b: i64) -> i64 {
    if a + b > i64::MAX {
        i64::MAX
    } else if a + b < i64::MIN {
        i64::MIN
    } else {
        (a + b) as i64
    }
}

/// The event of a request; `playing` tells whether the player plays, which
/// decides what play/pause means.
pub open spec fn mpris_event_spec(req: MprisRequest, playing: bool) -> MprisEvent {
    match req {
        MprisRequest::Play => MprisEvent::Simple(SystemMediaEventType::Play),
        MprisRequest::Pause => MprisEvent::Simple(SystemMediaEventType::Pause),
        MprisRequest::PlayPause => MprisEvent::Simple(
            if playing {
                SystemMediaEventType::Pause
            } else {
                SystemMediaEventType::Play
            },
        ),
        MprisRequest::Next => MprisEvent::Simple(SystemMediaEventType::NextSong),
        MprisRequest::Previous => MprisEvent::Simple(SystemMediaEventType::PreviousSong),
        MprisRequest::Stop => MprisEvent::Simple(SystemMediaEventType::Stop),
        MprisRequest::SetLoopStatus => MprisEvent::Simple(SystemMediaEventType::ToggleRepeat),
        MprisRequest::SetShuffle => MprisEvent::Simple(SystemMediaEventType::ToggleShuffle),
        MprisRequest::SetRate(r) => MprisEvent::SetRate(r),
        MprisRequest::SetVolume(v) => MprisEvent::SetVolume(v),
        MprisRequest::Seek { position_us, offset_us } => {
            let target = saturating_add(position_us, offset_us);
            MprisEvent::SeekToMicros(
                if target < 0 {
                    0
                } else {
                    target
                },
            )
        },
        MprisRequest::SetPosition { position_us } => MprisEvent::SeekToMicros(position_us),
    }
}

/// The event to report for a request: none while the controls are off.
pub fn mpris_event(req: MprisRequest, enabled: bool, playing: bool) -> (r: Option<MprisEvent>)
    ensures
        !enabled ==> r is None,
        enabled ==> r == Some(mpris_event_spec(req, playing)),
        enabled && !(req is PlayPause) ==> r == Some(mpris_event_spec(req, !playing)),
        enabled && req is Next ==> r == Some(MprisEvent::Simple(SystemMediaEventType::NextSong)),
{
    if !enabled {
        return None;
    }
    let event = match req {
        MprisRequest::Play => MprisEvent::Simple(SystemMediaEventType::Play),
        MprisRequest::Pause => MprisEvent::Simple(SystemMediaEventType::Pause),
        MprisRequest::PlayPause => MprisEvent::Simple(
            if playing {
                SystemMediaEventType::Pause
            } else {
                SystemMediaEventType::Play
            },
        ),
        MprisRequest::Next => MprisEvent::Simple(SystemMediaEventType::NextSong),
        MprisRequest::Previous => MprisEvent::Simple(SystemMediaEventType::PreviousSong),
        MprisRequest::Stop => MprisEvent::Simple(SystemMediaEventType::Stop),
        MprisRequest::SetLoopStatus => MprisEvent::Simple(SystemMediaEventType::ToggleRepeat),
        MprisRequest::SetShuffle => MprisEvent::Simple(SystemMediaEventType::ToggleShuffle),
        MprisRequest::SetRate(r) => MprisEvent::SetRate(r),
        MprisRequest::SetVolume(v) => MprisEvent::SetVolume(v),
        MprisRequest::Seek { position_us, offset_us } => {
            let wide = position_us as i128 + offset_us as i128;
            let target: i64 = if wide > i64::MAX as i128 {
                i64::MAX
            } else if wide < i64::MIN as i128 {
                i64::MIN
            } else {
                wide as i64
            };
            MprisEvent::SeekToMicros(
                if target < 0 {
                    0
                } else {
                    target
                },
            )
        },
        MprisRequest::SetPosition { position_us } => MprisEvent::SeekToMicros(position_us),
    };
    Some(event)
}

/// The name under which the player is published: the application name (or
/// `player`), `.instance`, and the process id, so that instances differ.
pub open spec fn bus_name_spec(app_name: Option<Seq<char>>, pid: u32) -> Seq<char> {
    let name = match app_name {
        Some(n) => n,
        None => "player"@,
    };
    name + ".instance"@ + decimal(pid as nat)
}

/// Computes [`bus_name_spec`].
pub fn bus_name(app_name: Option<&str>, pid: u32) -> (r: String)
    ensures
        r@ == bus_name_spec(
            match app_name {
                Some(n) => Some(n@),
                None => None,
            },
            pid,
        ),
{
    let mut r = String::new();
    match app_name {
        Some(n) => r.append(n),
        None => r.append("player"),
    }
    r.append(".instance");
    push_decimal(&mut r, pid as u128);
    r
}

/// Playback status of the player.
#[derive(Clone, Copy, PartialEq, Eq, Debug, Structural)]
pub enum MprisStatus {
    Playing,
    Paused,
    Stopped,
}

/// The start of the error when the player cannot be built ("failed to
/// initialise the MPRIS player").
pub const PLAYER_INIT_FAILED_MESSAGE: &'static str = "MPRIS Player 初始化失败";

/// The bit pattern of the lowest playback rate offered, 0.2.
pub const MINIMUM_RATE_BITS: u64 = 0x3FC9_9999_9999_999A;

/// The bit pattern of the highest playback rate offered, 2.0.
pub const MAXIMUM_RATE_BITS: u64 = 0x4000_0000_0000_0000;

/// How the player is built.
#[derive(Debug)]
pub struct PlayerConfig {
    /// The suffix of the player's bus name.
    pub bus_name: String,
    /// The name shown for the player, if set.
    pub identity: Option<String>,
    /// The desktop entry of the player, if set.
    pub desktop_entry: Option<String>,
    pub can_play: bool,
    pub can_pause: bool,
    pub can_go_next: bool,
    pub can_go_previous: bool,
    pub can_seek: bool,
    pub can_control: bool,
    /// Bit pattern of the lowest rate.
    pub minimum_rate: u64,
    /// Bit pattern of the highest rate.
    pub maximum_rate: u64,
    pub playback_status: MprisStatus,
}

/// Mathematical view of [`PlayerConfig`].
pub struct PlayerConfigView {
    pub bus_name: Seq<char>,
    pub identity: Option<Seq<char>>,
    pub desktop_entry: Option<Seq<char>>,
    pub can_play: bool,
    pub can_pause: bool,
    pub can_go_next: bool,
    pub can_go_previous: bool,
    pub can_seek: bool,
    pub can_control: bool,
    pub minimum_rate: u64,
    pub maximum_rate: u64,
    pub playback_status: MprisStatus,
}

impl View for PlayerConfig {
    type V = PlayerConfigView;

    open spec fn view(&self) -> PlayerConfigView {
        PlayerConfigView {
            bus_name: self.bus_name@,
            identity: match self.identity {
                Some(s) => Some(s@),
                None => None,
            },
            desktop_entry: match self.desktop_entry {
                Some(s) => Some(s@),
                None => None,
            },
            can_play: self.can_play,
            can_pause: self.can_pause,
            can_go_next: self.can_go_next,
            can_go_previous: self.can_go_previous,
            can_seek: self.can_seek,
            can_control: self.can_control,
            minimum_rate: self.minimum_rate,
            maximum_rate: self.maximum_rate,
            playback_status: self.playback_status,
        }
    }
}

/// The player of an application named `app_name` in process `pid`: every
/// capability on, rates from 0.2 to 2.0, stopped; the name, when given, is
/// also its identity and desktop entry.
pub open spec fn player_config_spec(app_name: Option<Seq<char>>, pid: u32) -> PlayerConfigView {
    PlayerConfigView {
        bus_name: bus_name_spec(app_name, pid),
        identity: app_name,
        desktop_entry: app_name,
        can_play: true,
        can_pause: true,
        can_go_next: true,
        can_go_previous: true,
        can_seek: true,
        can_control: true,
        minimum_rate: MINIMUM_RATE_BITS,
        maximum_rate: MAXIMUM_RATE_BITS,
        playback_status: MprisStatus::Stopped,
    }
}

/// Computes [`player_config_spec`].
pub fn player_config(app_name: Option<&str>, pid: u32) -> (r: PlayerConfig)
    ensures
        r@ == player_config_spec(
            match app_name {
                Some(n) => Some(n@),
                None => None,
            },
            pid,
        ),
{
    let name: Option<String> = match app_name {
        Some(n) => Some(n.to_owned()),
        None => None,
    };
    let desktop_entry: Option<String> = match app_name {
        Some(n) => Some(n.to_owned()),
        None => None,
    };
    PlayerConfig {
        bus_name: bus_name(app_name, pid),
        identity: name,
        desktop_entry,
        can_play: true,
        can_pause: true,
        can_go_next: true,
        can_go_previous: true,
        can_seek: true,
        can_control: true,
        minimum_rate: MINIMUM_RATE_BITS,
        maximum_rate: MAXIMUM_RATE_BITS,
        playback_status: MprisStatus::Stopped,
    }
}

/// The error when the player cannot be built: the fixed text, `: `, and the
/// cause.
pub fn init_failure_message(cause: &str) -> (r: String)
    ensures
        r@ == PLAYER_INIT_FAILED_MESSAGE@ + ": "@ + cause@,
{
    let mut r = PLAYER_INIT_FAILED_MESSAGE.to_owned();
    r.append(": ");
    r.append(cause);
    r
}

/// The metadata of a track as the player publishes it.
#[derive(Debug)]
pub struct TrackMetadata {
    pub title: String,
    pub artist: String,
    pub album: String,
    /// The D-Bus object path of the track; none when the generated path is
    /// not a valid object path.
    pub track_id: Option<String>,
    /// The genres; `None` when there are none.
    pub genre: Option<Vec<String>>,
    /// Length in milliseconds.
    pub length_ms: Option<i64>,
    pub art_url: Option<String>,
}

/// Mathematical view of [`TrackMetadata`].
pub struct TrackView {
    pub title: Seq<char>,
    pub artist: Seq<char>,
    pub album: Seq<char>,
    pub track_id: Option<Seq<char>>,
    pub genre: Option<Seq<Seq<char>>>,
    pub length_ms: Option<i64>,
    pub art_url: Option<Seq<char>>,
}

impl View for TrackMetadata {
    type V = TrackView;

    open spec fn view(&self) -> TrackView {
        TrackView {
            title: self.title@,
            artist: self.artist@,
            album: self.album@,
            track_id: match self.track_id {
                Some(t) => Some(t@),
                None => None,
            },
            genre: match self.genre {
                Some(g) => Some(strings_view(g@)),
                None => None,
            },
            length_ms: self.length_ms,
            art_url: match self.art_url {
                Some(u) => Some(u@),
                None => None,
            },
        }
    }
}

/// A character that may appear in an element of a D-Bus object path.
pub open spec fn path_char(c: char) -> bool {
    ('a' <= c && c <= 'z') || ('A' <= c && c <= 'Z') || ('0' <= c && c <= '9') || c == '_'
}

/// A D-Bus object path: `/` alone, or `/` followed by non-empty elements of
/// ASCII letters, digits and `_` separated by single `/`, without a `/` at
/// the end.
pub open spec fn object_path_spec(s: Seq<char>) -> bool {
    &&& s.len() >= 1
    &&& s[0] == '/'
    &&& s.len() > 1 ==> s[s.len() - 1] != '/'
    &&& forall|i: int|
        1 <= i < s.len() ==> path_char(#[trigger] s[i]) || (s[i] == '/' && s[i - 1] != '/')
}

/// Whether `s` is a D-Bus object path, by mpris-server's `TrackId::try_from`
/// (which validates with zbus): it accepts exactly the paths of
/// [`object_path_spec`].
#[verifier::external_body]
fn is_object_path(s: &str) -> (r: bool)
    ensures
        r == object_path_spec(s@),
{
    mpris_server::TrackId::try_from(s).is_ok()
}

/// The track path of a song: its id, or the time `now_ms` when it has none.
pub open spec fn track_path(track_id: Option<i64>, now_ms: u128) -> Seq<char> {
    "/com/player/track/"@ + match track_id {
        Some(id) => signed_decimal(id as int),
        None => decimal(now_ms as nat),
    }
}

/// What the player publishes for a song. A song that brings its cover shows
/// the file it was written to (`cover_file_path`, none if writing failed);
/// any other song shows its original cover URL.
pub open spec fn track_plan(
    p: MetadataView,
    cover_file_path: Option<Seq<char>>,
    now_ms: u128,
) -> TrackView {
    TrackView {
        title: p.song_name,
        artist: p.author_name,
        album: p.album_name,
        track_id: if object_path_spec(track_path(p.track_id, now_ms)) {
            Some(track_path(p.track_id, now_ms))
        } else {
            None
        },
        genre: if p.genre.len() == 0 {
            None
        } else {
            Some(p.genre)
        },
        length_ms: p.duration,
        art_url: if p.cover_data is Some {
            match cover_file_path {
                Some(path) => Some("file://"@ + path),
                None => None,
            }
        } else {
            p.original_cover_url
        },
    }
}

/// A call on the player.
#[derive(Debug)]
pub enum MprisCall {
    SetPlaybackStatus(MprisStatus),
    SetMetadata(TrackMetadata),
    /// Publish empty metadata.
    ClearMetadata,
    /// Set the position, in milliseconds (no signal).
    SetPosition(i64),
    /// Signal that the position jumped, in milliseconds.
    Seeked(i64),
    /// The rate, as the bit pattern of a floating-point value.
    SetRate(u64),
    /// The volume, as the bit pattern of a floating-point value.
    SetVolume(u64),
    SetLoopStatus(RepeatMode),
    SetShuffle(bool),
    /// Stop serving the player on the bus.
    StopServer,
}

/// Whether the controls report events and publish updates.
#[derive(Debug)]
pub struct LinuxImpl {
    is_enabled: bool,
}

/// Mathematical view of [`LinuxImpl`].
pub struct LinuxView {
    pub is_enabled: bool,
}

impl View for LinuxImpl {
    type V = LinuxView;

    closed spec fn view(&self) -> LinuxView {
        LinuxView { is_enabled: self.is_enabled }
    }
}

/// `calls` when the controls are enabled, and no call otherwise.
pub open spec fn when_enabled(s: LinuxView, calls: Seq<MprisCall>) -> Seq<MprisCall> {
    if s.is_enabled {
        calls
    } else {
        Seq::empty()
    }
}

impl LinuxImpl {
    /// Controls that are off.
    pub fn new() -> (r: Self)
        ensures
            r@ == (LinuxView { is_enabled: false }),
    {
        LinuxImpl { is_enabled: false }
    }

    /// Whether the controls are on.
    pub fn is_enabled(&self) -> (r: bool)
        ensures
            r == self@.is_enabled,
    {
        self.is_enabled
    }

    /// Turns the controls on; no call is needed.
    pub fn enable(&mut self) -> (r: Vec<MprisCall>)
        ensures
            final(self)@ == (LinuxView { is_enabled: true }),
            r@ == Seq::<MprisCall>::empty(),
    {
        self.is_enabled = true;
        Vec::new()
    }

    /// Turns the controls off: the player stops and its metadata is cleared.
    pub fn disable(&mut self) -> (r: Vec<MprisCall>)
        ensures
            final(self)@ == (LinuxView { is_enabled: false }),
            r@ == seq![MprisCall::SetPlaybackStatus(MprisStatus::Stopped), MprisCall::ClearMetadata],
    {
        self.is_enabled = false;
        let mut r: Vec<MprisCall> = Vec::new();
        r.push(MprisCall::SetPlaybackStatus(MprisStatus::Stopped));
        r.push(MprisCall::ClearMetadata);
        r
    }

    /// Whether a song's cover must be written to a file before
    /// `update_metadata`: the controls are on and the song brings its cover.
    pub fn wants_cover_file(&self, payload: &MetadataPayload) -> (r: bool)
        ensures
            r == (self@.is_enabled && payload.cover_data is Some),
    {
        self.is_enabled && payload.cover_data.is_some()
    }

    /// Whether the file of an earlier cover can go before `update_metadata`:
    /// the controls are on and the song brings no cover of its own.
    pub fn drops_cover_file(&self, payload: &MetadataPayload) -> (r: bool)
        ensures
            r == (self@.is_enabled && payload.cover_data is None),
    {
        self.is_enabled && payload.cover_data.is_none()
    }

    /// Publishes a song (see [`track_plan`]) and puts the position back to
    /// its start. `now_ms` (Unix milliseconds) names a song without id.
    pub fn update_metadata(
        &self,
        payload: MetadataPayload,
        cover_file_path: Option<String>,
        now_ms: u128,
    ) -> (r: Vec<MprisCall>)
        ensures
            !self@.is_enabled ==> r@.len() == 0,
            self@.is_enabled ==> {
                &&& r@.len() == 2
                &&& r@[0] matches MprisCall::SetMetadata(t) && t@ == track_plan(
                    payload@,
                    match cover_file_path {
                        Some(p) => Some(p@),
                        None => None,
                    },
                    now_ms,
                )
                &&& r@[1] == MprisCall::SetPosition(0)
                &&& r@[0] matches MprisCall::SetMetadata(t) && (payload@.genre.len() > 0
                    ==> t@.genre == Some(payload@.genre))
            },
    {
        let mut r: Vec<MprisCall> = Vec::new();
        if !self.is_enabled {
            return r;
        }
        let mut track_id = String::new();
        track_id.append("/com/player/track/");
        match payload.track_id {
            Some(id) => push_signed_decimal(&mut track_id, id),
            None => push_decimal(&mut track_id, now_ms),
        }
        let track_id = if is_object_path(track_id.as_str()) {
            Some(track_id)
        } else {
            None
        };
        let art_url = if payload.cover_data.is_some() {
            match cover_file_path {
                Some(path) => {
                    let mut url = String::new();
                    url.append("file://");
                    url.append(path.as_str());
                    Some(url)
                },
                None => None,
            }
        } else {
            payload.original_cover_url
        };
        let ghost genre_view = strings_view(payload.genre@);
        let genre = if payload.genre.len() == 0 {
            None
        } else {
            Some(payload.genre)
        };
        assert(payload.genre@.len() == 0 <==> genre_view.len() == 0);
        let track = TrackMetadata {
            title: payload.song_name,
            artist: payload.author_name,
            album: payload.album_name,
            track_id,
            genre,
            length_ms: payload.duration,
            art_url,
        };
        r.push(MprisCall::SetMetadata(track));
        r.push(MprisCall::SetPosition(0));
        r
    }

    fn only_when_enabled(&self, call: MprisCall) -> (r: Vec<MprisCall>)
        ensures
            r@ == when_enabled(self@, seq![call]),
    {
        let mut r: Vec<MprisCall> = Vec::new();
        if self.is_enabled {
            r.push(call);
        }
        r
    }

    /// Publishes the playback status.
    pub fn update_play_state(&self, payload: PlayStatePayload) -> (r: Vec<MprisCall>)
        ensures
            r@ == when_enabled(
                self@,
                seq![
                    MprisCall::SetPlaybackStatus(
                        match payload.status {
                            PlaybackStatus::Playing => MprisStatus::Playing,
                            PlaybackStatus::Paused => MprisStatus::Paused,
                        },
                    ),
                ],
            ),
    {
        let status = match payload.status {
            PlaybackStatus::Playing => MprisStatus::Playing,
            PlaybackStatus::Paused => MprisStatus::Paused,
        };
        self.only_when_enabled(MprisCall::SetPlaybackStatus(status))
    }

    /// Publishes the playback rate (`rate` is its bit pattern).
    pub fn update_playback_rate(&self, rate: u64) -> (r: Vec<MprisCall>)
        ensures
            r@ == when_enabled(self@, seq![MprisCall::SetRate(rate)]),
    {
        self.only_when_enabled(MprisCall::SetRate(rate))
    }

    /// Publishes the volume (`volume` is its bit pattern).
    pub fn update_volume(&self, volume: u64) -> (r: Vec<MprisCall>)
        ensures
            r@ == when_enabled(self@, seq![MprisCall::SetVolume(volume)]),
    {
        self.only_when_enabled(MprisCall::SetVolume(volume))
    }

    /// Sets the position; after a seek, clients are also told at once that
    /// it jumped.
    pub fn update_timeline(&self, payload: TimelinePayload) -> (r: Vec<MprisCall>)
        ensures
            r@ == when_enabled(
                self@,
                if payload.seeked == Some(true) {
                    seq![
                        MprisCall::SetPosition(payload.current_time),
                        MprisCall::Seeked(payload.current_time),
                    ]
                } else {
                    seq![MprisCall::SetPosition(payload.current_time)]
                },
            ),
    {
        let mut r: Vec<MprisCall> = Vec::new();
        if self.is_enabled {
            r.push(MprisCall::SetPosition(payload.current_time));
            let seeked = match payload.seeked {
                Some(b) => b,
                None => false,
            };
            if seeked {
                r.push(MprisCall::Seeked(payload.current_time));
            }
        }
        r
    }

    /// Publishes repeat and shuffle, in that order.
    pub fn update_play_mode(&self, payload: PlayModePayload) -> (r: Vec<MprisCall>)
        ensures
            r@ == when_enabled(
                self@,
                seq![
                    MprisCall::SetLoopStatus(payload.repeat_mode),
                    MprisCall::SetShuffle(payload.is_shuffling),
                ],
            ),
    {
        let mut r: Vec<MprisCall> = Vec::new();
        if self.is_enabled {
            r.push(MprisCall::SetLoopStatus(payload.repeat_mode));
            r.push(MprisCall::SetShuffle(payload.is_shuffling));
        }
        r
    }

    /// Turns the controls off and stops serving the player.
    pub fn shutdown(&mut self) -> (r: Vec<MprisCall>)
        ensures
            final(self)@ == (LinuxView { is_enabled: false }),
            r@ == seq![MprisCall::StopServer],
    {
        self.is_enabled = false;
        let mut r: Vec<MprisCall> = Vec::new();
        r.push(MprisCall::StopServer);
        r
    }
}

/// The decimal digits of a number are digits, and there is at least one.
proof fn lemma_decimal_digits(n: nat)
    ensures
        decimal(n).len() >= 1,
        forall|i: int| 0 <= i < decimal(n).len() ==> '0' <= #[trigger] decimal(n)[i] <= '9',
    decreases n,
{
    if n >= 10 {
        lemma_decimal_digits(n / 10);
        let d = decimal(n / 10);
        assert forall|i: int| 0 <= i < decimal(n).len() implies '0' <= #[trigger] decimal(n)[i]
            <= '9' by {
            if i < d.len() {
                assert(decimal(n)[i] == d[i]);
            }
        }
    }
}

/// Each character of `/com/player/track/` after the first is allowed where
/// it stands in an object path.
proof fn lemma_track_prefix_chars(i: int)
    requires
        1 <= i < 18,
    ensures
        path_char("/com/player/track/"@[i]) || ("/com/player/track/"@[i] == '/'
            && "/com/player/track/"@[i - 1] != '/'),
{
    reveal_strlit("/com/player/track/");
    if i == 1 {
    } else if i == 2 {
    } else if i == 3 {
    } else if i == 4 {
    } else if i == 5 {
    } else if i == 6 {
    } else if i == 7 {
    } else if i == 8 {
    } else if i == 9 {
    } else if i == 10 {
    } else if i == 11 {
    } else if i == 12 {
    } else if i == 13 {
    } else if i == 14 {
    } else if i == 15 {
    } else if i == 16 {
    } else if i == 17 {
    } else {
    }
}

/// A generated track path is a valid object path exactly when the song has
/// no id or a non-negative one: a negative id puts a `-` in the path, and
/// such a song gets no track id.
pub proof fn lemma_track_path_valid(track_id: Option<i64>, now_ms: u128)
    ensures
        object_path_spec(track_path(track_id, now_ms)) <==> (track_id is None || track_id->0 >= 0),
{
    reveal_strlit("/com/player/track/");
    let pre = "/com/player/track/"@;
    assert(pre.len() == 18);
    assert(pre[0] == '/' && pre[17] == '/');
    let path = track_path(track_id, now_ms);
    if track_id is Some && track_id->0 < 0 {
        let id = track_id->0;
        assert(path == pre + (seq!['-'] + decimal((-id) as nat)));
        assert(path[18] == '-');
        assert(!(path_char(path[18]) || (path[18] == '/' && path[17] != '/')));
    } else {
        let n: nat = match track_id {
            Some(id) => id as nat,
            None => now_ms as nat,
        };
        let digits = decimal(n);
        lemma_decimal_digits(n);
        assert(path == pre + digits);
        assert(path[path.len() - 1] == digits[digits.len() - 1]);
        assert forall|i: int| 1 <= i < path.len() implies path_char(#[trigger] path[i]) || (path[i]
            == '/' && path[i - 1] != '/') by {
            if i < 18 {
                lemma_track_prefix_chars(i);
                assert(path[i] == pre[i] && path[i - 1] == pre[i - 1]);
            } else {
                assert(path[i] == digits[i - 18]);
            }
        }
    }
}

/// A relative seek never targets a position before the start of the song.
pub proof fn lemma_seek_target_not_negative(position_us: i64, offset_us: i64, playing: bool)
    ensures
        mpris_event_spec(MprisRequest::Seek { position_us, offset_us }, playing) matches MprisEvent::SeekToMicros(t) && t >= 0,
{
}

/// Play/pause asks to pause a playing player and to play any other.
pub proof fn lemma_play_pause_toggles(playing: bool)
    ensures
        mpris_event_spec(MprisRequest::PlayPause, playing) == MprisEvent::Simple(
            if playing {
                SystemMediaEventType::Pause
            } else {
                SystemMediaEventType::Play
            },
        ),
{
}

/// Controls that are off, as after `disable` or `shutdown`, publish no update.
pub proof fn lemma_off_controls_publish_nothing(s: LinuxView, calls: Seq<MprisCall>)
    requires
        !s.is_enabled,
    ensures
        when_enabled(s, calls) == Seq::<MprisCall>::empty(),
{
}

/// Every request but play/pause reports the same event whether or not the
/// player plays: play plays, pause pauses, next and previous change the
/// song, stop stops, the loop status and shuffle requests toggle repeat and
/// shuffle, a rate or volume is passed on as it came, and a position is
/// sought as given.
pub proof fn lemma_requests_ignore_playing(playing: bool, rate: u64, volume: u64, position_us: i64)
    ensures
        mpris_event_spec(MprisRequest::Play, playing) == MprisEvent::Simple(
            SystemMediaEventType::Play,
        ),
        mpris_event_spec(MprisRequest::Pause, playing) == MprisEvent::Simple(
            SystemMediaEventType::Pause,
        ),
        mpris_event_spec(MprisRequest::Next, playing) == MprisEvent::Simple(
            SystemMediaEventType::NextSong,
        ),
        mpris_event_spec(MprisRequest::Previous, playing) == MprisEvent::Simple(
            SystemMediaEventType::PreviousSong,
        ),
        mpris_event_spec(MprisRequest::Stop, playing) == MprisEvent::Simple(
            SystemMediaEventType::Stop,
        ),
        mpris_event_spec(MprisRequest::SetLoopStatus, playing) == MprisEvent::Simple(
            SystemMediaEventType::ToggleRepeat,
        ),
        mpris_event_spec(MprisRequest::SetShuffle, playing) == MprisEvent::Simple(
            SystemMediaEventType::ToggleShuffle,
        ),
        mpris_event_spec(MprisRequest::SetRate(rate), playing) == MprisEvent::SetRate(rate),
        mpris_event_spec(MprisRequest::SetVolume(volume), playing) == MprisEvent::SetVolume(volume),
        mpris_event_spec(MprisRequest::SetPosition { position_us }, playing)
            == MprisEvent::SeekToMicros(position_us),
{
}

/// Only play/pause depends on whether the player plays.
pub proof fn lemma_only_toggle_reads_playing(req: MprisRequest)
    requires
        !(req is PlayPause),
    ensures
        mpris_event_spec(req, true) == mpris_event_spec(req, false),
{
}

/// A relative seek targets the position plus the offset, cut to the range
/// from 0 to `i64::MAX` microseconds.
pub proof fn lemma_seek_target(position_us: i64, offset_us: i64, playing: bool)
    ensures
        ({
            let sum = position_us + offset_us;
            mpris_event_spec(MprisRequest::Seek { position_us, offset_us }, playing)
                == MprisEvent::SeekToMicros(
                if sum < 0 {
                    0
                } else if sum > i64::MAX {
                    i64::MAX
                } else {
                    sum as i64
                },
            )
        }),
{
}

/// What is published of a song: its title, artist and album, its length,
/// every one of its genres (nothing when it has none), a track id exactly
/// when the song has no id or a non-negative one, and as cover the file the
/// cover was written to (as a `file://` URL; none if writing failed) when the
/// song brings its cover, else its original cover URL.
pub proof fn lemma_track_published(p: MetadataView, cover_file_path: Option<Seq<char>>, now_ms: u128)
    ensures
        ({
            let t = track_plan(p, cover_file_path, now_ms);
            &&& t.title == p.song_name
            &&& t.artist == p.author_name
            &&& t.album == p.album_name
            &&& t.length_ms == p.duration
            &&& p.genre.len() > 0 ==> t.genre == Some(p.genre)
            &&& p.genre.len() == 0 ==> t.genre is None
            &&& (t.track_id is Some <==> (p.track_id is None || p.track_id->0 >= 0))
            &&& t.track_id is Some ==> t.track_id->0 == "/com/player/track/"@ + match p.track_id {
                Some(id) => decimal(id as nat),
                None => decimal(now_ms as nat),
            }
            &&& p.cover_data is None ==> t.art_url == p.original_cover_url
            &&& p.cover_data is Some ==> match cover_file_path {
                Some(path) => t.art_url == Some("file://"@ + path),
                None => t.art_url is None,
            }
        }),
{
    lemma_track_path_valid(p.track_id, now_ms);
}

/// The player offers every capability, rates from 0.2 to 2.0, starts
/// stopped, shows the application name (when given) as its identity and
/// desktop entry, and is published under that name (or `player`) followed by
/// `.instance` and the process id.
pub proof fn lemma_player_config(app_name: Option<Seq<char>>, pid: u32)
    ensures
        ({
            let c = player_config_spec(app_name, pid);
            &&& c.can_play && c.can_pause && c.can_go_next && c.can_go_previous
            &&& c.can_seek && c.can_control
            &&& c.minimum_rate == 0x3FC9_9999_9999_999Au64
            &&& c.maximum_rate == 0x4000_0000_0000_0000u64
            &&& c.playback_status == MprisStatus::Stopped
            &&& c.identity == app_name
            &&& c.desktop_entry == app_name
            &&& c.bus_name == match app_name {
                Some(n) => n,
                None => "player"@,
            } + ".instance"@ + decimal(pid as nat)
        }),
{
}

/// Enabled controls publish every update they are given.
pub proof fn lemma_on_controls_publish(s: LinuxView, calls: Seq<MprisCall>)
    requires
        s.is_enabled,
    ensures
        when_enabled(s, calls) == calls,
{
}

} // verus!
