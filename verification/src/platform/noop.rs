//! Media controls for platforms that have none: every call succeeds and does
//! nothing.
use crate::model::{MetadataPayload, PlayModePayload, PlayStatePayload, TimelinePayload};
use crate::platform::PlatformError;
use vstd::prelude::*;

verus! {

/// The media controls of a platform without any.
#[derive(Debug)]
pub struct NoOpImpl;

impl NoOpImpl {
    /// Always succeeds; the window and the callback are not used.
    pub fn new<C>(_hwnd: Option<isize>, _callback: C) -> (r: Result<Self, PlatformError>)
        ensures
            r is Ok,
    {
        Ok(NoOpImpl)
    }

    /// Always succeeds.
    pub fn enable(&self) -> (r: Result<(), PlatformError>)
        ensures
            r is Ok,
    {
        Ok(())
    }

    /// Always succeeds.
    pub fn disable(&self) -> (r: Result<(), PlatformError>)
        ensures
            r is Ok,
    {
        Ok(())
    }

    /// Always succeeds.
    pub fn update_metadata(&self, _payload: MetadataPayload) -> (r: Result<(), PlatformError>)
        ensures
            r is Ok,
    {
        Ok(())
    }

    /// Always succeeds.
    pub fn update_play_state(&self, _payload: PlayStatePayload) -> (r: Result<(), PlatformError>)
        ensures
            r is Ok,
    {
        Ok(())
    }

    /// Always succeeds; `_rate` is the bit pattern of the rate.
    pub fn update_playback_rate(&self, _rate: u64) -> (r: Result<(), PlatformError>)
        ensures
            r is Ok,
    {
        Ok(())
    }

    /// Always succeeds; `_volume` is the bit pattern of the volume.
    pub fn update_volume(&self, _volume: u64) -> (r: Result<(), PlatformError>)
        ensures
            r is Ok,
    {
        Ok(())
    }

    /// Always succeeds.
    pub fn update_timeline(&self, _payload: TimelinePayload) -> (r: Result<(), PlatformError>)
        ensures
            r is Ok,
    {
        Ok(())
    }

    /// Always succeeds.
    pub fn update_play_mode(&self, _payload: PlayModePayload) -> (r: Result<(), PlatformError>)
        ensures
            r is Ok,
    {
        Ok(())
    }

    /// Nothing to release.
    pub fn shutdown(&self) {
    }
}

} // verus!
