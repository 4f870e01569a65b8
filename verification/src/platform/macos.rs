//! The decisions of the macOS Now Playing controls: which event each remote
//! command reports, and what is published for a song.
use crate::model::{MetadataPayload, MetadataView, SystemMediaEventType, strings_view};
use vstd::prelude::*;

verus! {

/// A remote command without a value.
#[derive(Clone, Copy, PartialEq, Eq, Debug, Structural)]
pub enum MacCommand {
    Play,
    Pause,
    PreviousTrack,
    NextTrack,
    Stop,
    TogglePlayPause,
    ChangeShuffleMode,
    ChangeRepeatMode,
}

/// The event a command reports; `playing` tells whether the centre shows
/// the player as playing, which decides what the toggle means.
pub open spec fn command_event_spec(cmd: MacCommand, playing: bool) -> SystemMediaEventType {
    match cmd {
        MacCommand::Play => SystemMediaEventType::Play,
        MacCommand::Pause => SystemMediaEventType::Pause,
        MacCommand::PreviousTrack => SystemMediaEventType::PreviousSong,
        MacCommand::NextTrack => SystemMediaEventType::NextSong,
        MacCommand::Stop => SystemMediaEventType::Stop,
        MacCommand::TogglePlayPause => if playing {
            SystemMediaEventType::Pause
        } else {
            SystemMediaEventType::Play
        },
        MacCommand::ChangeShuffleMode => SystemMediaEventType::ToggleShuffle,
        MacCommand::ChangeRepeatMode => SystemMediaEventType::ToggleRepeat,
    }
}

/// Computes [`command_event_spec`].
pub fn command_event(cmd: MacCommand, playing: bool) -> (r: SystemMediaEventType)
    ensures
        r == command_event_spec(cmd, playing),
        !(cmd is TogglePlayPause) ==> r == command_event_spec(cmd, !playing),
        cmd is Pause ==> r == SystemMediaEventType::Pause,
{
    match cmd {
        MacCommand::Play => SystemMediaEventType::Play,
        MacCommand::Pause => SystemMediaEventType::Pause,
        MacCommand::PreviousTrack => SystemMediaEventType::PreviousSong,
        MacCommand::NextTrack => SystemMediaEventType::NextSong,
        MacCommand::Stop => SystemMediaEventType::Stop,
        MacCommand::TogglePlayPause => if playing {
            SystemMediaEventType::Pause
        } else {
            SystemMediaEventType::Play
        },
        MacCommand::ChangeShuffleMode => SystemMediaEventType::ToggleShuffle,
        MacCommand::ChangeRepeatMode => SystemMediaEventType::ToggleRepeat,
    }
}

/// The strings of `items` joined by `sep`.
pub open spec fn join(items: Seq<Seq<char>>, sep: Seq<char>) -> Seq<char>
    decreases items.len(),
{
    if items.len() == 0 {
        Seq::empty()
    } else if items.len() == 1 {
        items[0]
    } else {
        join(items.drop_last(), sep) + sep + items.last()
    }
}

/// Joins the strings of `items` with `sep`.
pub fn join_strings(items: &Vec<String>, sep: &str) -> (r: String)
    ensures
        r@ == join(strings_view(items@), sep@),
{
    let mut r = String::new();
    let mut i: usize = 0;
    while i < items.len()
        invariant
            i <= items.len(),
            r@ == join(strings_view(items@.subrange(0, i as int)), sep@),
        decreases items.len() - i,
    {
        let ghost before = strings_view(items@.subrange(0, i as int));
        let ghost after = strings_view(items@.subrange(0, i + 1));
        assert(after.drop_last() =~= before);
        assert(after.last() == items@[i as int]@);
        if i > 0 {
            r.append(sep);
        } else {
            assert(after.len() == 1);
        }
        r.append(items[i].as_str());
        i = i + 1;
    }
    assert(items@.subrange(0, items@.len() as int) == items@);
    r
}

/// What the centre shows of a song beyond its texts.
#[derive(Debug)]
pub struct NowPlayingPlan {
    /// The genres joined by `, `; none when there are none.
    pub genre: Option<String>,
    /// The song's id, or the time `now_ms` when it has none.
    pub persistent_id: i64,
    /// Length in milliseconds; none removes it.
    pub duration_ms: Option<i64>,
}

/// Mathematical view of [`NowPlayingPlan`].
pub struct NowPlayingView {
    pub genre: Option<Seq<char>>,
    pub persistent_id: i64,
    pub duration_ms: Option<i64>,
}

impl View for NowPlayingPlan {
    type V = NowPlayingView;

    open spec fn view(&self) -> NowPlayingView {
        NowPlayingView {
            genre: match self.genre {
                Some(g) => Some(g@),
                None => None,
            },
            persistent_id: self.persistent_id,
            duration_ms: self.duration_ms,
        }
    }
}

/// The plan for a song at Unix time `now_ms`.
pub open spec fn now_playing_spec(p: MetadataView, now_ms: i64) -> NowPlayingView {
    NowPlayingView {
        genre: if p.genre.len() == 0 {
            None
        } else {
            Some(join(p.genre, ", "@))
        },
        persistent_id: match p.track_id {
            Some(id) => id,
            None => now_ms,
        },
        duration_ms: p.duration,
    }
}

/// Computes [`now_playing_spec`].
pub fn now_playing_plan(payload: &MetadataPayload, now_ms: i64) -> (r: NowPlayingPlan)
    ensures
        r@ == now_playing_spec(payload@, now_ms),
{
    let genre = if payload.genre.len() == 0 {
        None
    } else {
        Some(join_strings(&payload.genre, ", "))
    };
    let persistent_id = match payload.track_id {
        Some(id) => id,
        None => now_ms,
    };
    NowPlayingPlan { genre, persistent_id, duration_ms: payload.duration }
}

/// Every command but the toggle reports the same event whether or not the
/// player plays: play plays, pause pauses, the track commands change the
/// song, stop stops, and the shuffle and repeat commands toggle them; the
/// toggle pauses a playing player and plays any other.
pub proof fn lemma_commands_report_their_event(playing: bool)
    ensures
        command_event_spec(MacCommand::Play, playing) == SystemMediaEventType::Play,
        command_event_spec(MacCommand::Pause, playing) == SystemMediaEventType::Pause,
        command_event_spec(MacCommand::PreviousTrack, playing) == SystemMediaEventType::PreviousSong,
        command_event_spec(MacCommand::NextTrack, playing) == SystemMediaEventType::NextSong,
        command_event_spec(MacCommand::Stop, playing) == SystemMediaEventType::Stop,
        command_event_spec(MacCommand::ChangeShuffleMode, playing)
            == SystemMediaEventType::ToggleShuffle,
        command_event_spec(MacCommand::ChangeRepeatMode, playing)
            == SystemMediaEventType::ToggleRepeat,
        command_event_spec(MacCommand::TogglePlayPause, true) == SystemMediaEventType::Pause,
        command_event_spec(MacCommand::TogglePlayPause, false) == SystemMediaEventType::Play,
{
}

/// No strings join to nothing, one string joins to itself, and two strings
/// join with the separator between them.
pub proof fn lemma_join_small(a: Seq<char>, b: Seq<char>, sep: Seq<char>)
    ensures
        join(Seq::empty(), sep) == Seq::<char>::empty(),
        join(seq![a], sep) == a,
        join(seq![a, b], sep) == a + sep + b,
{
    assert(seq![a, b].drop_last() =~= seq![a]);
}

/// What the centre shows of a song: nothing for a song without genres, its
/// genre for a song with one, and its genres separated by `, ` otherwise;
/// its id, or the time `now_ms` when it has none; and its length.
pub proof fn lemma_now_playing(p: MetadataView, now_ms: i64)
    ensures
        ({
            let v = now_playing_spec(p, now_ms);
            &&& p.genre.len() == 0 ==> v.genre is None
            &&& p.genre.len() == 1 ==> v.genre == Some(p.genre[0])
            &&& p.genre.len() == 2 ==> v.genre == Some(p.genre[0] + ", "@ + p.genre[1])
            &&& v.persistent_id == match p.track_id {
                Some(id) => id,
                None => now_ms,
            }
            &&& v.duration_ms == p.duration
        }),
{
    if p.genre.len() == 2 {
        lemma_join_small(p.genre[0], p.genre[1], ", "@);
        assert(p.genre =~= seq![p.genre[0], p.genre[1]]);
    } else if p.genre.len() == 1 {
        assert(p.genre =~= seq![p.genre[0]]);
    }
}

/// Only the toggle depends on whether the player plays.
pub proof fn lemma_only_toggle_reads_playing(cmd: MacCommand)
    requires
        !(cmd is TogglePlayPause),
    ensures
        command_event_spec(cmd, true) == command_event_spec(cmd, false),
{
}

} // verus!
