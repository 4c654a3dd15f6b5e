//! Commands sent to the swarm controller: either a direct command (a bare
//! word) or a remote procedure call addressed to a named port.

pub mod argument;
pub mod direct;
pub mod enums;
pub mod rpc;

use vstd::prelude::*;

use crate::command::direct::{DirectCommandView, FtSwarmDirectCommand};
use crate::command::rpc::{FtSwarmRPCCommand, RpcCommandView};
use crate::text::find_char_spec;
use crate::{Deserialized, Serialized};

verus! {

/// Mathematical model of a command.
pub enum CommandView {
    RPC(RpcCommandView),
    Direct(DirectCommandView),
}

#[derive(Debug)]
pub enum FtSwarmCommand {
    RPC(FtSwarmRPCCommand),
    Direct(FtSwarmDirectCommand),
}

impl View for FtSwarmCommand {
    type V = CommandView;

    open spec fn view(&self) -> CommandView {
        match self {
            FtSwarmCommand::RPC(cmd) => CommandView::RPC(cmd@),
            FtSwarmCommand::Direct(cmd) => CommandView::Direct(cmd@),
        }
    }
}

impl DeepView for FtSwarmCommand {
    type V = CommandView;

    open spec fn deep_view(&self) -> CommandView {
        self.view()
    }
}

/// Wire text of a command: one line, without the line terminator.
pub open spec fn spec_serialize_command(c: CommandView) -> Seq<char> {
    match c {
        CommandView::RPC(cmd) => rpc::spec_serialize_rpc(cmd),
        CommandView::Direct(cmd) => direct::spec_direct_name(cmd),
    }
}

/// A line with a dot is read as an RPC command, any other as a direct one.
pub open spec fn spec_deserialize_command(s: Seq<char>) -> Result<CommandView, Seq<char>> {
    if find_char_spec(s, '.') >= 0 {
        match rpc::spec_deserialize_rpc(s) {
            Ok(cmd) => Ok(CommandView::RPC(cmd)),
            Err(e) => Err(e),
        }
    } else {
        match direct::spec_deserialize_direct(s) {
            Ok(cmd) => Ok(CommandView::Direct(cmd)),
            Err(e) => Err(e),
        }
    }
}

impl Serialized for FtSwarmCommand {
    open spec fn spec_serialize(&self) -> Seq<char> {
        spec_serialize_command(self@)
    }

    fn serialize(&self) -> (r: String) {
        match self {
            FtSwarmCommand::RPC(cmd) => cmd.serialize(),
            FtSwarmCommand::Direct(cmd) => cmd.serialize(),
        }
    }
}

impl Deserialized for FtSwarmCommand {
    open spec fn spec_deserialize(s: Seq<char>) -> Result<CommandView, Seq<char>> {
        spec_deserialize_command(s)
    }

    fn deserialize(value: &String) -> (r: Result<FtSwarmCommand, String>) {
        let has_dot = crate::text::find_char(value.as_str(), '.').is_some();
        proof {
            crate::text::lemma_find_char(value@, '.');
        }
        if has_dot {
            match FtSwarmRPCCommand::deserialize(value) {
                Ok(cmd) => Ok(FtSwarmCommand::RPC(cmd)),
                Err(e) => Err(e),
            }
        } else {
            match FtSwarmDirectCommand::deserialize(value) {
                Ok(cmd) => Ok(FtSwarmCommand::Direct(cmd)),
                Err(e) => Err(e),
            }
        }
    }
}

} // verus!
