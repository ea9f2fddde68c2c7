use vstd::prelude::*;

use super::engine_enums::{EngineState, RepeatMode, ShuffleMode};
use super::engine_status::EngineStatus;
use super::music::Music;
use super::AudioEngine;

verus! {

impl AudioEngine {
    /// The position of the current track in the play order.
    pub fn current_track(&self) -> (r: &usize)
        ensures
            *r == self@.current_track,
    {
        &self.status.current_track
    }

    pub fn state(&self) -> (r: &EngineState)
        ensures
            *r == self@.state,
    {
        &self.status.state
    }

    pub fn repeat(&self) -> (r: &RepeatMode)
        ensures
            *r == self@.repeat,
    {
        &self.status.repeat
    }

    pub fn shuffle(&self) -> (r: &ShuffleMode)
        ensures
            *r == self@.shuffle,
    {
        &self.status.shuffle
    }

    pub fn playlist(&self) -> (r: &Vec<Music>)
        ensures
            r@ == self@.playlist,
    {
        &self.status.playlist
    }

    pub fn playlist_order(&self) -> (r: &Vec<usize>)
        ensures
            r@ == self@.playlist_order,
    {
        &self.status.playlist_order
    }

    /// The whole status, as it is reported to the window.
    pub fn status(&self) -> (r: &EngineStatus)
        ensures
            r@ == self@,
    {
        &self.status
    }
}

} // verus!
