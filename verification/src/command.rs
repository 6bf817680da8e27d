//! Commands for players.

use crate::text::copy_text;
use vstd::prelude::*;

verus! {

/// What a player is asked to do.
#[derive(Debug, Clone, Copy, PartialEq, Eq, Structural)]
pub enum CommandData {
    Play,
    Pause,
    PlayPause,
    NextTrack,
    PreviousTrack,
    /// A position in milliseconds.
    SeekTo(u32),
    /// A volume from 0 to 100.
    SetVolume(u8),
    SetShuffle(bool),
}

/// A command and the device that it is meant for.
#[derive(Debug, PartialEq, Eq)]
pub struct Command {
    /// The device to send the command to; all devices where there is none.
    pub to: Option<String>,
    pub data: CommandData,
}

/// A command, with the device as a sequence of characters.
pub struct CommandView {
    pub to: Option<Seq<char>>,
    pub data: CommandData,
}

impl View for Command {
    type V = CommandView;

    open spec fn view(&self) -> CommandView {
        CommandView { to: self.to.deep_view(), data: self.data }
    }
}

impl Clone for Command {
    fn clone(&self) -> (res: Command)
        ensures
            res == *self,
    {
        Command { to: copy_text(&self.to), data: self.data }
    }
}

/// What a command is in mathematical terms tells its device and what is asked.
pub proof fn view_tells_device_and_data(command: Command)
    ensures
        command@.data == command.data,
        match (command.to, command@.to) {
            (Some(device), Some(seen)) => seen == device@,
            (None, None) => true,
            _ => false,
        },
{
}

} // verus!
