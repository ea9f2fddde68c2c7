pub mod engine_commands;
pub mod engine_enums;
pub mod engine_status;
pub mod enums;
pub mod behaviour;
pub mod laws;
pub mod music;
pub mod music_data;
pub mod steps;

mod engine_helpers;

use vstd::prelude::*;

use engine_enums::PlayerCommands;
use engine_status::{EngineStatus, StatusModel};

verus! {

/// The playlist engine: it keeps the status and decides, for each command,
/// what changes and what the audio output is to do. The caller performs the
/// audio output and the file reads, and hands their outcomes back.
pub struct AudioEngine {
    status: EngineStatus,
}

impl View for AudioEngine {
    type V = StatusModel;

    closed spec fn view(&self) -> StatusModel {
        self.status@
    }
}

impl AudioEngine {
    /// An engine with an empty status.
    pub fn new() -> (engine: AudioEngine)
        ensures
            engine@ == StatusModel::initial(),
            engine@.well_formed(),
    {
        AudioEngine { status: EngineStatus::new() }
    }
}

/// The commands of a batch that are handled in turn: all but the seeks, in
/// the order they came.
pub open spec fn commands_to_run(cmds: Seq<PlayerCommands>) -> Seq<PlayerCommands>
    decreases cmds.len(),
{
    if cmds.len() == 0 {
        Seq::empty()
    } else {
        let rest = commands_to_run(cmds.drop_last());
        if cmds.last() is Seek {
            rest
        } else {
            rest.push(cmds.last())
        }
    }
}

/// The position of the last seek of a batch, if it holds one.
pub open spec fn last_seek(cmds: Seq<PlayerCommands>) -> Option<u64>
    decreases cmds.len(),
{
    if cmds.len() == 0 {
        None
    } else {
        match cmds.last() {
            PlayerCommands::Seek(pos) => Some(pos),
            _ => last_seek(cmds.drop_last()),
        }
    }
}

/// Splits a batch of pending commands into those handled in turn and the one
/// seek that is handled after them: only the last seek of a batch counts.
pub fn schedule_commands(cmds: Vec<PlayerCommands>) -> (plan: (Vec<PlayerCommands>, Option<u64>))
    ensures
        plan.0@ == commands_to_run(cmds@),
        plan.1 == last_seek(cmds@),
{
    let ghost all = cmds@;
    let mut rest = cmds;
    let mut run: Vec<PlayerCommands> = Vec::new();
    let mut seek: Option<u64> = None;
    let ghost mut k: int = 0;
    while rest.len() > 0
        invariant
            0 <= k <= all.len(),
            rest@ == all.subrange(k, all.len() as int),
            run@ == commands_to_run(all.take(k)),
            seek == last_seek(all.take(k)),
        decreases rest@.len(),
    {
        let cmd = rest.remove(0);
        proof {
            assert(all.take(k + 1).drop_last() == all.take(k));
            assert(all.take(k + 1).last() == cmd);
        }
        match cmd {
            PlayerCommands::Seek(pos) => {
                seek = Some(pos);
            },
            other => {
                run.push(other);
            },
        }
        proof {
            k = k + 1;
        }
    }
    proof {
        assert(all.take(all.len() as int) == all);
    }
    (run, seek)
}

} // verus!
