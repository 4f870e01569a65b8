//! The commands a session sends to its worker, and how each is dispatched
//! between the Discord presence and the system media controls.
use crate::discord::activity::{IpcRequest, RequestView};
use crate::discord::{
    AdapterView,
    Clock,
    DiscordAdapter,
    after_config,
    after_enable,
    after_metadata,
    after_play_state,
    after_timeline,
    disconnect_step,
    idle,
    sync_in_range,
    sync_step,
};
use crate::model::{
    DiscordConfigPayload,
    MetadataPayload,
    PlayModePayload,
    PlayStatePayload,
    TimelinePayload,
};
use vstd::prelude::*;

verus! {

/// A command for the worker. Rates and volumes are carried as the bit
/// patterns of the caller's floating-point values; the worker passes them on
/// untouched.
#[derive(Debug)]
pub enum Command {
    UpdateMetadata(MetadataPayload),
    UpdatePlayState(PlayStatePayload),
    UpdatePlaybackRate(u64),
    UpdateVolume(u64),
    UpdateTimeline(TimelinePayload),
    UpdatePlayMode(PlayModePayload),
    EnableDiscord,
    DisableDiscord,
    UpdateDiscordConfig(DiscordConfigPayload),
    EnableSystemMedia,
    DisableSystemMedia,
    Shutdown,
}

/// A call to make on the system media controls.
#[derive(Debug)]
pub enum MediaCall {
    Enable,
    Disable,
    UpdateMetadata(MetadataPayload),
    UpdatePlayState(PlayStatePayload),
    UpdatePlaybackRate(u64),
    UpdateVolume(u64),
    UpdateTimeline(TimelinePayload),
    UpdatePlayMode(PlayModePayload),
}

/// What the worker does for one command: carry out `discord` (and the
/// requests that follow it), then make `media`, then stop if `stop`.
#[derive(Debug)]
pub struct CommandOutcome {
    pub discord: IpcRequest,
    pub media: Option<MediaCall>,
    pub stop: bool,
}

/// The Discord adapter is left as it was and asked nothing.
pub open spec fn discord_untouched(before: AdapterView, after: AdapterView, r: RequestView) -> bool {
    after == before && r is Idle
}

/// The command's arithmetic on the Discord side stays in range.
pub open spec fn command_in_range(s: AdapterView, cmd: Command, c: Clock) -> bool {
    match cmd {
        Command::UpdateMetadata(p) => sync_in_range(after_metadata(s, p@), c),
        Command::UpdatePlayState(p) => s.data is Some ==> sync_in_range(after_play_state(s, p), c),
        Command::UpdateTimeline(p) => s.data is Some ==> sync_in_range(after_timeline(s, p), c),
        Command::EnableDiscord => sync_in_range(after_enable(s), c),
        Command::UpdateDiscordConfig(p) => sync_in_range(after_config(s, p), c),
        _ => true,
    }
}

/// Decides [`command_in_range`].
pub fn command_fits(discord: &DiscordAdapter, cmd: &Command, clock: Clock) -> (r: bool)
    ensures
        r == command_in_range(discord@, *cmd, clock),
{
    match cmd {
        Command::UpdateMetadata(p) => discord.metadata_fits(p, clock),
        Command::UpdatePlayState(p) => discord.play_state_fits(*p, clock),
        Command::UpdateTimeline(p) => discord.timeline_fits(*p, clock),
        Command::EnableDiscord => discord.enable_fits(clock),
        Command::UpdateDiscordConfig(p) => discord.config_fits(*p, clock),
        _ => true,
    }
}

/// Whether a command stops the worker: only `Shutdown` does.
pub fn stops(cmd: &Command) -> (r: bool)
    ensures
        r == (*cmd is Shutdown),
{
    match cmd {
        Command::Shutdown => true,
        _ => false,
    }
}

/// Dispatches one command. Discord commands go to the adapter; media
/// commands become a call on the media controls; song, status and position
/// go to both, the adapter first; `Shutdown` stops the worker.
pub fn handle_command(cmd: Command, discord: &mut DiscordAdapter, clock: Clock) -> (r:
    CommandOutcome)
    requires
        command_in_range(old(discord)@, cmd, clock),
    ensures
        r.stop == (cmd is Shutdown),
        match cmd {
            Command::UpdateMetadata(p) => {
                &&& (final(discord)@, r.discord@) == sync_step(
                    after_metadata(old(discord)@, p@),
                    clock,
                )
                &&& r.media matches Some(MediaCall::UpdateMetadata(q)) && q@ == p@
            },
            Command::UpdatePlayState(p) => {
                &&& (final(discord)@, r.discord@) == if old(discord)@.data is Some {
                    sync_step(after_play_state(old(discord)@, p), clock)
                } else {
                    idle(old(discord)@)
                }
                &&& r.media == Some(MediaCall::UpdatePlayState(p))
            },
            Command::UpdateTimeline(p) => {
                &&& (final(discord)@, r.discord@) == if old(discord)@.data is Some {
                    sync_step(after_timeline(old(discord)@, p), clock)
                } else {
                    idle(old(discord)@)
                }
                &&& r.media == Some(MediaCall::UpdateTimeline(p))
            },
            Command::UpdatePlaybackRate(rate) => {
                &&& discord_untouched(old(discord)@, final(discord)@, r.discord@)
                &&& r.media == Some(MediaCall::UpdatePlaybackRate(rate))
            },
            Command::UpdateVolume(volume) => {
                &&& discord_untouched(old(discord)@, final(discord)@, r.discord@)
                &&& r.media == Some(MediaCall::UpdateVolume(volume))
            },
            Command::UpdatePlayMode(p) => {
                &&& discord_untouched(old(discord)@, final(discord)@, r.discord@)
                &&& r.media == Some(MediaCall::UpdatePlayMode(p))
            },
            Command::EnableDiscord => {
                &&& (final(discord)@, r.discord@) == sync_step(after_enable(old(discord)@), clock)
                &&& r.media is None
            },
            Command::DisableDiscord => {
                &&& (final(discord)@, r.discord@) == disconnect_step(
                    AdapterView { is_enabled: false, ..old(discord)@ },
                )
                &&& r.media is None
            },
            Command::UpdateDiscordConfig(p) => {
                &&& (final(discord)@, r.discord@) == sync_step(
                    after_config(old(discord)@, p),
                    clock,
                )
                &&& r.media is None
            },
            Command::EnableSystemMedia => {
                &&& discord_untouched(old(discord)@, final(discord)@, r.discord@)
                &&& r.media == Some(MediaCall::Enable)
            },
            Command::DisableSystemMedia => {
                &&& discord_untouched(old(discord)@, final(discord)@, r.discord@)
                &&& r.media == Some(MediaCall::Disable)
            },
            Command::Shutdown => {
                &&& discord_untouched(old(discord)@, final(discord)@, r.discord@)
                &&& r.media is None
            },
        },
{
    let stop = stops(&cmd);
    match cmd {
        Command::EnableSystemMedia => CommandOutcome {
            discord: IpcRequest::Idle,
            media: Some(MediaCall::Enable),
            stop,
        },
        Command::DisableSystemMedia => CommandOutcome {
            discord: IpcRequest::Idle,
            media: Some(MediaCall::Disable),
            stop,
        },
        Command::UpdateMetadata(payload) => {
            let copy = payload.duplicate();
            let request = discord.update_metadata(copy, clock);
            CommandOutcome {
                discord: request,
                media: Some(MediaCall::UpdateMetadata(payload)),
                stop,
            }
        },
        Command::UpdatePlayState(payload) => {
            let request = discord.update_play_state(payload, clock);
            CommandOutcome {
                discord: request,
                media: Some(MediaCall::UpdatePlayState(payload)),
                stop,
            }
        },
        Command::UpdateTimeline(payload) => {
            let request = discord.update_timeline(payload, clock);
            CommandOutcome {
                discord: request,
                media: Some(MediaCall::UpdateTimeline(payload)),
                stop,
            }
        },
        Command::UpdatePlaybackRate(rate) => CommandOutcome {
            discord: IpcRequest::Idle,
            media: Some(MediaCall::UpdatePlaybackRate(rate)),
            stop,
        },
        Command::UpdateVolume(volume) => CommandOutcome {
            discord: IpcRequest::Idle,
            media: Some(MediaCall::UpdateVolume(volume)),
            stop,
        },
        Command::UpdatePlayMode(payload) => CommandOutcome {
            discord: IpcRequest::Idle,
            media: Some(MediaCall::UpdatePlayMode(payload)),
            stop,
        },
        Command::EnableDiscord => CommandOutcome {
            discord: discord.enable(clock),
            media: None,
            stop,
        },
        Command::DisableDiscord => CommandOutcome {
            discord: discord.disable(),
            media: None,
            stop,
        },
        Command::UpdateDiscordConfig(payload) => CommandOutcome {
            discord: discord.update_config(payload, clock),
            media: None,
            stop,
        },
        Command::Shutdown => CommandOutcome { discord: IpcRequest::Idle, media: None, stop },
    }
}

} // verus!
