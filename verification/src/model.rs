//! The payloads that callers hand to the session, and their mathematical views.
//!
//! Times (positions, durations) are whole milliseconds.
use vstd::prelude::*;

verus! {

/// Whether the current song is playing.
#[derive(Clone, Copy, PartialEq, Eq, Debug, Structural)]
pub enum PlaybackStatus {
    Playing,
    Paused,
}

/// Repeat mode of the player.
#[derive(Clone, Copy, PartialEq, Eq, Debug, Structural)]
pub enum RepeatMode {
    /// No repetition.
    Off,
    Track,
    List,
}

/// Which field Discord shows under the user name when the details panel is closed.
#[derive(Clone, Copy, PartialEq, Eq, Debug, Structural)]
pub enum DiscordDisplayMode {
    Name,
    State,
    Details,
}

/// The kinds of events that the system media controls report back.
#[derive(Clone, Copy, PartialEq, Eq, Debug, Structural)]
pub enum SystemMediaEventType {
    Play,
    Pause,
    Stop,
    NextSong,
    PreviousSong,
    ToggleShuffle,
    ToggleRepeat,
    Seek,
    SetRate,
    SetVolume,
}

/// A link button shown on the Discord activity.
#[derive(Debug)]
pub struct DiscordButton {
    pub label: String,
    pub url: String,
}

/// Mathematical view of a [`DiscordButton`].
pub struct ButtonView {
    pub label: Seq<char>,
    pub url: Seq<char>,
}

impl View for DiscordButton {
    type V = ButtonView;

    open spec fn view(&self) -> ButtonView {
        ButtonView { label: self.label@, url: self.url@ }
    }
}

impl DiscordButton {
    /// A copy of the button with equal label and url.
    pub fn duplicate(&self) -> (r: DiscordButton)
        ensures
            r@ == self@,
    {
        DiscordButton { label: self.label.clone(), url: self.url.clone() }
    }
}

/// Spec view of a vector of strings.
pub open spec fn strings_view(v: Seq<String>) -> Seq<Seq<char>> {
    v.map_values(|s: String| s@)
}

/// Spec view of a vector of buttons.
pub open spec fn buttons_view(v: Seq<DiscordButton>) -> Seq<ButtonView> {
    v.map_values(|b: DiscordButton| b@)
}

/// Copies a vector of buttons element by element.
pub fn duplicate_buttons(v: &Vec<DiscordButton>) -> (r: Vec<DiscordButton>)
    ensures
        buttons_view(r@) == buttons_view(v@),
{
    let mut r: Vec<DiscordButton> = Vec::new();
    let mut i: usize = 0;
    while i < v.len()
        invariant
            i <= v.len(),
            r@.len() == i,
            buttons_view(r@) == buttons_view(v@.subrange(0, i as int)),
        decreases v.len() - i,
    {
        let ghost prev = r@;
        r.push(v[i].duplicate());
        proof {
            let sub = v@.subrange(0, i + 1);
            assert forall|j: int| 0 <= j < r@.len() implies #[trigger] buttons_view(r@)[j] == buttons_view(
                sub,
            )[j] by {
                if j < i {
                    assert(buttons_view(prev)[j] == buttons_view(v@.subrange(0, i as int))[j]);
                }
            }
            assert(buttons_view(r@) =~= buttons_view(sub));
        }
        i = i + 1;
    }
    assert(v@.subrange(0, v@.len() as int) == v@);
    r
}

/// Copies a vector of strings element by element.
pub fn duplicate_strings(v: &Vec<String>) -> (r: Vec<String>)
    ensures
        strings_view(r@) == strings_view(v@),
{
    let mut r: Vec<String> = Vec::new();
    let mut i: usize = 0;
    while i < v.len()
        invariant
            i <= v.len(),
            r@.len() == i,
            strings_view(r@) == strings_view(v@.subrange(0, i as int)),
        decreases v.len() - i,
    {
        let ghost prev = r@;
        r.push(v[i].clone());
        proof {
            let sub = v@.subrange(0, i + 1);
            assert forall|j: int| 0 <= j < r@.len() implies #[trigger] strings_view(r@)[j] == strings_view(
                sub,
            )[j] by {
                if j < i {
                    assert(strings_view(prev)[j] == strings_view(v@.subrange(0, i as int))[j]);
                }
            }
            assert(strings_view(r@) =~= strings_view(sub));
        }
        i = i + 1;
    }
    assert(v@.subrange(0, v@.len() as int) == v@);
    r
}

/// Copies a byte vector.
pub fn duplicate_bytes(v: &Vec<u8>) -> (r: Vec<u8>)
    ensures
        r@ == v@,
{
    let mut r: Vec<u8> = Vec::new();
    let mut i: usize = 0;
    while i < v.len()
        invariant
            i <= v.len(),
            r@ == v@.subrange(0, i as int),
        decreases v.len() - i,
    {
        r.push(v[i]);
        i = i + 1;
    }
    r
}

/// Everything known about the song that is now playing.
#[derive(Debug)]
pub struct MetadataPayload {
    pub song_name: String,
    pub author_name: String,
    pub album_name: String,
    /// Where the cover can be fetched from, if anywhere.
    pub original_cover_url: Option<String>,
    /// The cover image itself, if the caller has it.
    pub cover_data: Option<Vec<u8>>,
    /// Length of the song in milliseconds.
    pub duration: Option<i64>,
    pub track_id: Option<i64>,
    pub genre: Vec<String>,
    pub discord_buttons: Option<Vec<DiscordButton>>,
}

/// Mathematical view of a [`MetadataPayload`].
pub struct MetadataView {
    pub song_name: Seq<char>,
    pub author_name: Seq<char>,
    pub album_name: Seq<char>,
    pub original_cover_url: Option<Seq<char>>,
    pub cover_data: Option<Seq<u8>>,
    pub duration: Option<i64>,
    pub track_id: Option<i64>,
    pub genre: Seq<Seq<char>>,
    pub discord_buttons: Option<Seq<ButtonView>>,
}

impl View for MetadataPayload {
    type V = MetadataView;

    open spec fn view(&self) -> MetadataView {
        MetadataView {
            song_name: self.song_name@,
            author_name: self.author_name@,
            album_name: self.album_name@,
            original_cover_url: match self.original_cover_url {
                Some(u) => Some(u@),
                None => None,
            },
            cover_data: match self.cover_data {
                Some(d) => Some(d@),
                None => None,
            },
            duration: self.duration,
            track_id: self.track_id,
            genre: strings_view(self.genre@),
            discord_buttons: match self.discord_buttons {
                Some(b) => Some(buttons_view(b@)),
                None => None,
            },
        }
    }
}

impl MetadataPayload {
    /// A copy of the payload with an equal view.
    pub fn duplicate(&self) -> (r: MetadataPayload)
        ensures
            r@ == self@,
    {
        let original_cover_url = match &self.original_cover_url {
            Some(u) => Some(u.clone()),
            None => None,
        };
        let cover_data = match &self.cover_data {
            Some(d) => Some(duplicate_bytes(d)),
            None => None,
        };
        let discord_buttons = match &self.discord_buttons {
            Some(b) => Some(duplicate_buttons(b)),
            None => None,
        };
        MetadataPayload {
            song_name: self.song_name.clone(),
            author_name: self.author_name.clone(),
            album_name: self.album_name.clone(),
            original_cover_url,
            cover_data,
            duration: self.duration,
            track_id: self.track_id,
            genre: duplicate_strings(&self.genre),
            discord_buttons,
        }
    }
}

/// The new playback status.
#[derive(Clone, Copy, PartialEq, Eq, Debug, Structural)]
pub struct PlayStatePayload {
    pub status: PlaybackStatus,
}

/// The current position in the song, in milliseconds.
#[derive(Clone, Copy, PartialEq, Eq, Debug, Structural)]
pub struct TimelinePayload {
    pub current_time: i64,
    pub total_time: i64,
    /// Whether the position changed because the user sought.
    pub seeked: Option<bool>,
}

/// Shuffle and repeat settings.
#[derive(Clone, Copy, PartialEq, Eq, Debug, Structural)]
pub struct PlayModePayload {
    pub is_shuffling: bool,
    pub repeat_mode: RepeatMode,
}

/// How the Discord activity is shown.
#[derive(Clone, Copy, PartialEq, Eq, Debug, Structural)]
pub struct DiscordConfigPayload {
    pub show_when_paused: bool,
    pub display_mode: Option<DiscordDisplayMode>,
}

/// The Discord application and the assets it shows.
#[derive(Debug)]
pub struct DiscordOptions {
    pub app_id: String,
    pub default_icon_asset_key: String,
    pub small_icon_hover_text: String,
}

/// Mathematical view of [`DiscordOptions`].
pub struct DiscordOptionsView {
    pub app_id: Seq<char>,
    pub default_icon_asset_key: Seq<char>,
    pub small_icon_hover_text: Seq<char>,
}

impl View for DiscordOptions {
    type V = DiscordOptionsView;

    open spec fn view(&self) -> DiscordOptionsView {
        DiscordOptionsView {
            app_id: self.app_id@,
            default_icon_asset_key: self.default_icon_asset_key@,
            small_icon_hover_text: self.small_icon_hover_text@,
        }
    }
}

/// What a session is created with.
#[derive(Debug)]
pub struct NowPlayingOptions {
    /// The window that owns the media controls (Windows only).
    pub hwnd: Option<isize>,
    /// The application name shown by the media controls.
    pub app_name: Option<String>,
    /// Discord presence settings; `None` turns the presence off for good.
    pub discord: Option<DiscordOptions>,
}

} // verus!
