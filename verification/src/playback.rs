//! Players and the commands that start playback on them.

use crate::asset::ClipHandle;
use vstd::prelude::*;

verus! {

/// Identifies one animation-player component of the scene.
#[derive(Clone, Copy, Debug, PartialEq, Eq, Structural, Hash)]
pub struct PlayerId {
    pub id: u64,
}

/// How often a clip is played.
#[derive(Clone, Copy, Debug, PartialEq, Eq, Structural)]
pub enum PlaybackMode {
    /// Play the clip once and stop.
    Once,
    /// Start over whenever the clip ends.
    Loop,
}

/// An order to the host: start playing `clip` on `player`. The clip is
/// named, not owned: the command keeps no asset alive.
#[derive(Clone, Copy, Debug, PartialEq, Eq, Structural)]
pub struct PlayCommand {
    pub player: PlayerId,
    pub clip: ClipHandle,
    pub mode: PlaybackMode,
}

impl PlayerId {
    pub fn new(id: u64) -> (player: Self)
        ensures
            player.id == id,
    {
        PlayerId { id }
    }
}

/// The command that starts looping playback of `clip` on `player`.
pub open spec fn looping(player: PlayerId, clip: ClipHandle) -> PlayCommand {
    PlayCommand { player, clip, mode: PlaybackMode::Loop }
}

/// One looping command for each player of `added`, in the same order.
pub open spec fn looping_commands(added: Seq<PlayerId>, clip: ClipHandle) -> Seq<PlayCommand> {
    Seq::new(added.len(), |i: int| looping(added[i], clip))
}

/// Builds the looping commands for a list of players.
pub fn start_looping(added: &Vec<PlayerId>, clip: ClipHandle) -> (commands: Vec<PlayCommand>)
    ensures
        commands@ == looping_commands(added@, clip),
{
    let mut commands: Vec<PlayCommand> = Vec::new();
    let mut i: usize = 0;
    while i < added.len()
        invariant
            i <= added.len(),
            commands@.len() == i,
            forall|j: int| 0 <= j < i ==> commands@[j] == looping(added@[j], clip),
        decreases added.len() - i,
    {
        commands.push(PlayCommand { player: added[i], clip, mode: PlaybackMode::Loop });
        i = i + 1;
    }
    assert(commands@ =~= looping_commands(added@, clip));
    commands
}

} // verus!
