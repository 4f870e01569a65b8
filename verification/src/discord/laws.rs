//! What holds of the Discord adapter over all states and clocks.
use crate::discord::activity::{ActivityKind, PlanView, RequestView};
use crate::discord::timestamps::{ONE_YEAR_MS, paused_timestamps, playing_timestamps};
use crate::discord::{
    AdapterView,
    Clock,
    Pending,
    TIMESTAMP_UPDATE_THRESHOLD_MS,
    abs,
    after_config,
    after_enable,
    after_metadata,
    after_play_state,
    after_timeline,
    cover_url,
    disconnect_step,
    idle,
    initial_view,
    positive_duration,
    resume_step,
    retry_at,
    sync_step,
};
use crate::model::{
    DiscordConfigPayload,
    DiscordDisplayMode,
    DiscordOptionsView,
    MetadataView,
    PlayStatePayload,
    PlaybackStatus,
    TimelinePayload,
};
use crate::text::{
    has_prefix,
    lemma_upgrade_idempotent,
    lemma_upgrade_keeps_http,
    lemma_upgrade_leaves_no_http,
    lemma_upgrade_without_http,
    occurs_at,
    upgrade,
};
use vstd::prelude::*;

verus! {

/// The adapter waits for exactly the outcome of the request it made: a
/// connection for `Connect`, an update for `SetActivity`, and nothing after
/// `Close` or `Idle`.
pub open spec fn awaits_its_request(t: AdapterView, r: RequestView) -> bool {
    &&& (r is Connect <==> t.pending is Connection)
    &&& (r is SetActivity ==> t.pending is Update)
    &&& (r is Close || r is Idle ==> t.pending is Nothing)
}

/// While the presence is disabled, synchronising never asks for a connection
/// or an activity, and leaves no client.
pub proof fn lemma_disabled_sends_nothing(s: AdapterView, c: Clock)
    requires
        !s.is_enabled,
    ensures
        !sync_step(s, c).0.connected,
        sync_step(s, c).1 is Idle || sync_step(s, c).1 is Close,
{
}

/// No connection is attempted before the cooldown ends.
pub proof fn lemma_cooldown_respected(s: AdapterView, c: Clock, t: u64)
    requires
        s.next_retry_time == Some(t),
        c.monotonic_ms < t,
    ensures
        !(sync_step(s, c).1 is Connect),
{
}

/// A connection is only asked for by an enabled adapter without a client,
/// with options and a song; an activity is only set or cleared through a
/// client of an enabled adapter.
pub proof fn lemma_requests_need_an_enabled_adapter(s: AdapterView, c: Clock)
    ensures
        sync_step(s, c).1 is Connect ==> s.is_enabled && !s.connected && s.options is Some
            && s.data is Some,
        sync_step(s, c).1 is SetActivity || sync_step(s, c).1 is ClearActivity ==> s.is_enabled
            && s.connected && sync_step(s, c).0.connected,
{
}

/// A failed update drops the client, forgets the last sent timestamp and
/// waits out the cooldown; a failed connection waits out the cooldown.
pub proof fn lemma_failure_starts_cooldown(s: AdapterView, c: Clock)
    requires
        !(s.pending is Nothing),
    ensures
        resume_step(s, false, c).0.next_retry_time == Some(retry_at(c)),
        !resume_step(s, false, c).0.connected || s.pending is Connection,
        s.pending is Update ==> resume_step(s, false, c).0.last_sent_end_timestamp is None,
        resume_step(s, false, c).0.pending is Nothing,
{
}

/// Every request chain ends: what a synchronisation asks is awaited, a
/// resumption awaits no connection again, and after an update nothing more
/// is awaited. So at most two outcomes follow a synchronisation.
pub proof fn lemma_requests_terminate(s: AdapterView, ok: bool, c: Clock)
    ensures
        awaits_its_request(sync_step(s, c).0, sync_step(s, c).1),
        awaits_its_request(resume_step(s, ok, c).0, resume_step(s, ok, c).1),
        !(resume_step(s, ok, c).0.pending is Connection),
        !(s.pending is Connection) ==> resume_step(s, ok, c).0.pending is Nothing,
{
}

/// A playing song whose end moved by less than the threshold is not sent
/// again: nothing is asked and nothing changes.
pub proof fn lemma_debounce(s: AdapterView, c: Clock)
    requires
        s.is_enabled,
        s.options is Some,
        s.connected,
        s.data is Some,
        s.data->0.status == PlaybackStatus::Playing,
        positive_duration(s.data->0),
        s.last_sent_end_timestamp is Some,
        abs(
            s.last_sent_end_timestamp->0 - playing_timestamps(
                s.data->0.current_time as int,
                s.data->0.metadata.duration->0 as int,
                c.unix_ms as int,
            ).1,
        ) < TIMESTAMP_UPDATE_THRESHOLD_MS,
    ensures
        sync_step(s, c) == idle(s),
{
}

/// After a playing song with a progress bar was set successfully, the end of
/// that bar is what the adapter remembers as last sent.
pub proof fn lemma_sent_end_remembered(s: AdapterView, c: Clock)
    requires
        sync_step(s, c).1 matches RequestView::SetActivity(p) && p.timestamps is Some,
        s.data matches Some(d) && d.status == PlaybackStatus::Playing,
    ensures
        ({
            let bar = sync_step(s, c).1->SetActivity_0.timestamps->0;
            resume_step(sync_step(s, c).0, true, c).0.last_sent_end_timestamp == Some(bar.1)
        }),
{
}

/// A paused song that is not shown clears the activity, and nothing is
/// remembered as sent.
pub proof fn lemma_hidden_when_paused(s: AdapterView, c: Clock)
    requires
        s.is_enabled,
        s.options is Some,
        s.connected,
        s.data matches Some(d) && d.status == PlaybackStatus::Paused,
        !s.show_when_paused,
    ensures
        sync_step(s, c).1 is ClearActivity,
        resume_step(sync_step(s, c).0, true, c).0.last_sent_end_timestamp is None,
{
}

/// The progress bar of a playing song spans the song and ends when the song
/// ends; that of a paused song spans the song and starts a year after the
/// moment the song would have started.
pub proof fn lemma_bar_spans_song(current_time: int, duration: int, now_ms: int)
    ensures
        current_time < duration ==> {
            let t = playing_timestamps(current_time, duration, now_ms);
            &&& t.1 - t.0 == duration
            &&& t.1 == now_ms + (duration - current_time)
            &&& t.0 <= now_ms <= t.1 || current_time < 0
        },
        ({
            let t = paused_timestamps(current_time, duration, now_ms);
            &&& t.1 - t.0 == duration
            &&& t.0 == now_ms - current_time + ONE_YEAR_MS
        }),
{
}

/// Resuming with nothing awaited changes nothing.
pub proof fn lemma_resume_idle(s: AdapterView, ok: bool, c: Clock)
    requires
        s.pending == Pending::Nothing,
    ensures
        resume_step(s, ok, c) == (s, RequestView::Idle),
{
}

/// Processing a web cover that was already processed leaves it unchanged:
/// the `https://` upgrade is done once and for all.
pub proof fn lemma_cover_processing_idempotent(u: Seq<char>, default_icon: Seq<char>)
    requires
        has_prefix(u, "http"@),
    ensures
        cover_url(Some(cover_url(Some(u), default_icon)), default_icon) == cover_url(
            Some(u),
            default_icon,
        ),
{
    lemma_upgrade_keeps_http(u);
    lemma_upgrade_idempotent(u);
}

/// The connection state and the awaited outcome agree: a connection is only
/// awaited without a client, an update only with one.
pub open spec fn adapter_wf(s: AdapterView) -> bool {
    &&& s.pending is Connection ==> !s.connected
    &&& s.pending is Update ==> s.connected
}

/// Every operation leaves the adapter well formed: synchronising and
/// disconnecting establish it, and resuming keeps it.
pub proof fn lemma_operations_keep_wf(s: AdapterView, ok: bool, c: Clock)
    ensures
        adapter_wf(sync_step(s, c).0),
        adapter_wf(disconnect_step(s).0),
        adapter_wf(idle(s).0),
        adapter_wf(s) ==> adapter_wf(resume_step(s, ok, c).0),
{
}

/// The activity `p` shows the song of `s` at Unix time `c.unix_ms`, as one
/// listens to it: the song's name, its artist, its cover and album, the
/// default icon (whose hover text reads "Paused" on a paused song with a
/// known length), the display mode, the song's first two buttons, and a
/// progress bar when the length is known and positive: for a playing song
/// from its start to its end (both zero past its end), for a paused one
/// shifted a year (31 536 000 000 ms) ahead. A paused song is only shown when
/// paused songs are shown.
pub open spec fn shows_song(s: AdapterView, c: Clock, p: PlanView) -> bool {
    s.data matches Some(d) && s.options matches Some(o) && {
        let cur = d.current_time as int;
        let dur = d.metadata.duration->0 as int;
        let now = c.unix_ms as int;
        let timed = d.metadata.duration matches Some(x) && x > 0;
        let paused = d.status == PlaybackStatus::Paused;
        &&& p.activity_type == ActivityKind::Listening
        &&& p.details == d.metadata.song_name
        &&& p.state == d.metadata.author_name
        &&& p.assets.large_image == d.cached_cover_url
        &&& p.assets.large_text == d.metadata.album_name
        &&& p.assets.small_image == o.default_icon_asset_key
        &&& p.assets.small_text == if paused && timed {
            "Paused"@
        } else {
            o.small_icon_hover_text
        }
        &&& p.status_display_type == s.display_mode
        &&& match d.metadata.discord_buttons {
            Some(b) => {
                &&& p.buttons.len() == if b.len() < 2 {
                    b.len()
                } else {
                    2
                }
                &&& forall|i: int| 0 <= i < p.buttons.len() ==> p.buttons[i] == b[i]
            },
            None => p.buttons.len() == 0,
        }
        &&& p.timestamps == if !timed {
            None
        } else if paused {
            Some(
                (
                    (now - cur + 31_536_000_000) as i64,
                    (now - cur + 31_536_000_000 + dur) as i64,
                ),
            )
        } else if cur < dur {
            Some(((now - cur) as i64, (now + dur - cur) as i64))
        } else {
            Some((0i64, 0i64))
        }
        &&& paused ==> s.show_when_paused
    }
}

/// Every activity the adapter asks to set, on a synchronisation or on the
/// outcome of a request, shows its song as described by [`shows_song`].
pub proof fn lemma_activity_shows_song(s: AdapterView, ok: bool, c: Clock)
    ensures
        sync_step(s, c).1 matches RequestView::SetActivity(p) ==> shows_song(s, c, p),
        resume_step(s, ok, c).1 matches RequestView::SetActivity(p) ==> shows_song(s, c, p),
{
    reveal_strlit("Paused");
}

/// The presence always reports listening: every activity the adapter asks to
/// set is of the listening kind.
pub proof fn lemma_always_listening(s: AdapterView, ok: bool, c: Clock)
    ensures
        sync_step(s, c).1 matches RequestView::SetActivity(p) ==> p.activity_type
            == ActivityKind::Listening,
        resume_step(s, ok, c).1 matches RequestView::SetActivity(p) ==> p.activity_type
            == ActivityKind::Listening,
{
    lemma_activity_shows_song(s, ok, c);
}

/// Synchronising and taking in an outcome never change the settings, the
/// options, the song or whether the presence is enabled.
pub proof fn lemma_steps_keep_settings(s: AdapterView, ok: bool, c: Clock)
    ensures
        sync_step(s, c).0.options == s.options,
        sync_step(s, c).0.data == s.data,
        sync_step(s, c).0.is_enabled == s.is_enabled,
        sync_step(s, c).0.show_when_paused == s.show_when_paused,
        sync_step(s, c).0.display_mode == s.display_mode,
        resume_step(s, ok, c).0.options == s.options,
        resume_step(s, ok, c).0.data == s.data,
        resume_step(s, ok, c).0.is_enabled == s.is_enabled,
        resume_step(s, ok, c).0.show_when_paused == s.show_when_paused,
        resume_step(s, ok, c).0.display_mode == s.display_mode,
{
}

/// A configuration sets whether paused songs are shown, sets the display
/// mode when it names one and keeps the display mode otherwise, and the
/// activity it sends again is shown in that mode.
pub proof fn lemma_config_applied(s: AdapterView, p: DiscordConfigPayload, c: Clock)
    ensures
        ({
            let mode = match p.display_mode {
                Some(m) => m,
                None => s.display_mode,
            };
            let r = sync_step(after_config(s, p), c);
            &&& r.0.show_when_paused == p.show_when_paused
            &&& r.0.display_mode == mode
            &&& r.0.options == s.options
            &&& r.0.data == s.data
            &&& r.0.is_enabled == s.is_enabled
            &&& r.1 matches RequestView::SetActivity(a) ==> a.status_display_type == mode
        }),
{
}

/// A new song replaces the old one at its start, keeps the playback status
/// (a first song starts paused), and shows its cover processed with the
/// default icon of the options.
pub proof fn lemma_new_song_shown(s: AdapterView, m: MetadataView, c: Clock)
    ensures
        ({
            let r = sync_step(after_metadata(s, m), c).0;
            &&& r.data matches Some(d) && {
                &&& d.metadata == m
                &&& d.current_time == 0
                &&& d.status == match s.data {
                    Some(old) => old.status,
                    None => PlaybackStatus::Paused,
                }
                &&& d.cached_cover_url == cover_url(
                    m.original_cover_url,
                    match s.options {
                        Some(o) => o.default_icon_asset_key,
                        None => ""@,
                    },
                )
            }
            &&& r.display_mode == s.display_mode
            &&& r.show_when_paused == s.show_when_paused
        }),
{
}

/// A new playback status is recorded for the song, whose name and position
/// stay.
pub proof fn lemma_play_state_recorded(s: AdapterView, p: PlayStatePayload, c: Clock)
    requires
        s.data is Some,
    ensures
        ({
            let r = sync_step(after_play_state(s, p), c).0;
            &&& r.data matches Some(d) && {
                &&& d.status == p.status
                &&& d.metadata == s.data->0.metadata
                &&& d.current_time == s.data->0.current_time
            }
        }),
{
}

/// A new position is recorded for the song, whose name and status stay.
pub proof fn lemma_position_recorded(s: AdapterView, p: TimelinePayload, c: Clock)
    requires
        s.data is Some,
    ensures
        ({
            let r = sync_step(after_timeline(s, p), c).0;
            &&& r.data matches Some(d) && {
                &&& d.current_time == p.current_time
                &&& d.metadata == s.data->0.metadata
                &&& d.status == s.data->0.status
            }
        }),
{
}

/// A playing song with a known positive length is sent exactly when its
/// bar end moved by 100 ms or more since the last one sent, or none was
/// sent; the new end is then what will be remembered once it is set, and
/// otherwise nothing is asked and nothing changes.
pub proof fn lemma_bar_sent_iff_moved(s: AdapterView, c: Clock)
    requires
        s.is_enabled,
        s.options is Some,
        s.connected,
        s.data matches Some(d) && d.status == PlaybackStatus::Playing,
        s.data->0.metadata.duration matches Some(x) && x > 0,
    ensures
        ({
            let d = s.data->0;
            let cur = d.current_time as int;
            let dur = d.metadata.duration->0 as int;
            let end = if cur < dur {
                c.unix_ms + dur - cur
            } else {
                0
            };
            let moved = match s.last_sent_end_timestamp {
                Some(le) => le - end >= 100 || end - le >= 100,
                None => true,
            };
            &&& (sync_step(s, c).1 is SetActivity <==> moved)
            &&& moved ==> sync_step(s, c).0.pending == Pending::Update {
                last_sent_after: Some(end as i64),
            }
            &&& !moved ==> sync_step(s, c) == idle(s)
        }),
{
}

/// A paused song is sent whenever paused songs are shown (no debouncing),
/// and no end timestamp is remembered for it.
pub proof fn lemma_paused_song_sent(s: AdapterView, ok: bool, c: Clock)
    requires
        s.is_enabled,
        s.options is Some,
        s.connected,
        s.data matches Some(d) && d.status == PlaybackStatus::Paused,
        s.show_when_paused,
    ensures
        sync_step(s, c).1 is SetActivity,
        sync_step(s, c).0.last_sent_end_timestamp is None,
        resume_step(sync_step(s, c).0, ok, c).0.last_sent_end_timestamp is None,
{
}

/// Without a song, a connected adapter clears the activity and forgets the
/// last sent end; one without a client asks nothing.
pub proof fn lemma_no_song_clears(s: AdapterView, c: Clock)
    requires
        s.is_enabled,
        s.options is Some,
        s.data is None,
    ensures
        s.connected ==> sync_step(s, c).1 is ClearActivity,
        s.connected ==> sync_step(s, c).0.last_sent_end_timestamp is None,
        !s.connected ==> sync_step(s, c) == idle(s),
{
}

/// Disconnecting closes the client when there is one and asks nothing
/// otherwise; afterwards there is no client, nothing is awaited, no end is
/// remembered, and the settings, options and song stay.
pub proof fn lemma_disconnect_closes_client(s: AdapterView)
    ensures
        disconnect_step(s).1 == if s.connected {
            RequestView::Close
        } else {
            RequestView::Idle
        },
        !disconnect_step(s).0.connected,
        disconnect_step(s).0.pending == Pending::Nothing,
        disconnect_step(s).0.last_sent_end_timestamp is None,
        disconnect_step(s).0.options == s.options,
        disconnect_step(s).0.data == s.data,
        disconnect_step(s).0.is_enabled == s.is_enabled,
        disconnect_step(s).0.next_retry_time == s.next_retry_time,
{
}

/// A song that starts playing, or a new song while playing, with a known
/// positive length is sent at once, whatever was sent before.
pub proof fn lemma_started_song_sent(s: AdapterView, p: PlayStatePayload, m: MetadataView, c: Clock)
    requires
        s.is_enabled,
        s.options is Some,
        s.connected,
    ensures
        s.data is Some && s.data->0.status != PlaybackStatus::Playing && p.status
            == PlaybackStatus::Playing && s.data->0.metadata.duration is Some
            && s.data->0.metadata.duration->0 > 0 ==> sync_step(after_play_state(s, p), c).1 is SetActivity,
        s.data is Some && s.data->0.status == PlaybackStatus::Playing && m.duration is Some
            && m.duration->0 > 0 ==> sync_step(after_metadata(s, m), c).1 is SetActivity,
{
}

/// Enabling cancels the cooldown: an adapter with options and a song but no
/// client asks at once to connect with the options' application id.
pub proof fn lemma_enable_connects_at_once(s: AdapterView, c: Clock)
    requires
        s.options is Some,
        s.data is Some,
        !s.connected,
    ensures
        sync_step(after_enable(s), c).1 == RequestView::Connect(s.options->0.app_id),
        sync_step(after_enable(s), c).0.is_enabled,
{
}

/// A failure, of a connection or of an update, makes the adapter wait
/// 5000 ms of monotonic time before it connects again.
pub proof fn lemma_cooldown_is_five_seconds(s: AdapterView, c: Clock)
    requires
        !(s.pending is Nothing),
    ensures
        resume_step(s, false, c).0.next_retry_time == Some((c.monotonic_ms + 5000) as u64),
{
}

/// An enabled adapter with options and a song but no client asks to connect
/// with the options' application id once no cooldown is running.
pub proof fn lemma_connects_after_cooldown(s: AdapterView, c: Clock)
    requires
        s.is_enabled,
        s.options is Some,
        s.data is Some,
        !s.connected,
        s.next_retry_time matches Some(t) ==> c.monotonic_ms >= t,
    ensures
        sync_step(s, c).1 == RequestView::Connect(s.options->0.app_id),
        sync_step(s, c).0.pending == Pending::Connection,
{
}

/// The cover of a song without a cover URL, or whose URL does not start
/// with `http`, is the default icon.
pub proof fn lemma_cover_falls_back_to_icon(u: Seq<char>, default_icon: Seq<char>)
    ensures
        cover_url(None, default_icon) == default_icon,
        !has_prefix(u, "http"@) ==> cover_url(Some(u), default_icon) == default_icon,
{
}

/// A web cover (one that starts with `http`) is shown with every `http://`
/// made `https://`, so that none is left; one without `http://` is shown as
/// it is.
pub proof fn lemma_cover_made_secure(u: Seq<char>, default_icon: Seq<char>)
    requires
        has_prefix(u, "http"@),
    ensures
        forall|i: int| !occurs_at(cover_url(Some(u), default_icon), "http://"@, i),
        (forall|i: int| !occurs_at(u, "http://"@, i)) ==> cover_url(Some(u), default_icon) == u,
{
    assert(cover_url(Some(u), default_icon) == upgrade(u));
    lemma_upgrade_leaves_no_http(u);
    if forall|i: int| !occurs_at(u, "http://"@, i) {
        lemma_upgrade_without_http(u);
    }
}

/// A new adapter keeps its options, is disabled, has no client, no song, no
/// cooldown and no remembered end, hides paused songs, shows the song's name,
/// and asks nothing when synchronised.
pub proof fn lemma_new_adapter_is_quiet(o: Option<DiscordOptionsView>, c: Clock)
    ensures
        initial_view(o).options == o,
        !initial_view(o).is_enabled,
        !initial_view(o).connected,
        initial_view(o).data is None,
        initial_view(o).next_retry_time is None,
        initial_view(o).last_sent_end_timestamp is None,
        !initial_view(o).show_when_paused,
        initial_view(o).display_mode == DiscordDisplayMode::Name,
        initial_view(o).pending == Pending::Nothing,
        sync_step(initial_view(o), c).1 is Idle,
{
}

} // verus!
