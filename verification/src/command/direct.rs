//! Direct commands: bare lowercase words understood by the controller
//! itself, plus an escape hatch for custom text.

use vstd::prelude::*;
use vstd::string::StringExecFns;

use crate::text::str_eq;
use crate::{Deserialized, NameOf, Serialized};

verus! {

/// Mathematical model of a direct command.
pub enum DirectCommandView {
    Help,
    Setup,
    Halt,
    Whoami,
    Uptime,
    StartCli,
    Custom(Seq<char>),
}

#[derive(Debug, Clone)]
pub enum FtSwarmDirectCommand {
    Help,
    Setup,
    Halt,
    Whoami,
    Uptime,
    StartCli,
    Custom(String),
}

impl View for FtSwarmDirectCommand {
    type V = DirectCommandView;

    open spec fn view(&self) -> DirectCommandView {
        match self {
            FtSwarmDirectCommand::Help => DirectCommandView::Help,
            FtSwarmDirectCommand::Setup => DirectCommandView::Setup,
            FtSwarmDirectCommand::Halt => DirectCommandView::Halt,
            FtSwarmDirectCommand::Whoami => DirectCommandView::Whoami,
            FtSwarmDirectCommand::Uptime => DirectCommandView::Uptime,
            FtSwarmDirectCommand::StartCli => DirectCommandView::StartCli,
            FtSwarmDirectCommand::Custom(name) => DirectCommandView::Custom(name@),
        }
    }
}

/// The wire word of each direct command.
pub open spec fn spec_direct_name(d: DirectCommandView) -> Seq<char> {
    match d {
        DirectCommandView::Help => "help"@,
        DirectCommandView::Setup => "setup"@,
        DirectCommandView::Halt => "halt"@,
        DirectCommandView::Whoami => "whoami"@,
        DirectCommandView::Uptime => "uptime"@,
        DirectCommandView::StartCli => "startCLI"@,
        DirectCommandView::Custom(name) => name,
    }
}

/// The direct command a wire word denotes; custom text is not recognized.
pub open spec fn spec_deserialize_direct(s: Seq<char>) -> Result<DirectCommandView, Seq<char>> {
    if s == "help"@ {
        Ok(DirectCommandView::Help)
    } else if s == "setup"@ {
        Ok(DirectCommandView::Setup)
    } else if s == "halt"@ {
        Ok(DirectCommandView::Halt)
    } else if s == "whoami"@ {
        Ok(DirectCommandView::Whoami)
    } else if s == "uptime"@ {
        Ok(DirectCommandView::Uptime)
    } else if s == "startCLI"@ {
        Ok(DirectCommandView::StartCli)
    } else {
        Err("Unknown command: "@ + s)
    }
}

impl NameOf for FtSwarmDirectCommand {
    open spec fn spec_name(&self) -> Seq<char> {
        spec_direct_name(self@)
    }

    fn name(&self) -> (r: String) {
        match self {
            FtSwarmDirectCommand::Help => "help".to_owned(),
            FtSwarmDirectCommand::Setup => "setup".to_owned(),
            FtSwarmDirectCommand::Halt => "halt".to_owned(),
            FtSwarmDirectCommand::Whoami => "whoami".to_owned(),
            FtSwarmDirectCommand::Uptime => "uptime".to_owned(),
            FtSwarmDirectCommand::StartCli => "startCLI".to_owned(),
            FtSwarmDirectCommand::Custom(name) => name.clone(),
        }
    }
}

impl Serialized for FtSwarmDirectCommand {
    open spec fn spec_serialize(&self) -> Seq<char> {
        spec_direct_name(self@)
    }

    fn serialize(&self) -> (r: String) {
        self.name()
    }
}

impl Deserialized for FtSwarmDirectCommand {
    open spec fn spec_deserialize(s: Seq<char>) -> Result<DirectCommandView, Seq<char>> {
        spec_deserialize_direct(s)
    }

    fn deserialize(value: &String) -> (r: Result<FtSwarmDirectCommand, String>) {
        let v = value.as_str();
        if str_eq(v, "help") {
            Ok(FtSwarmDirectCommand::Help)
        } else if str_eq(v, "setup") {
            Ok(FtSwarmDirectCommand::Setup)
        } else if str_eq(v, "halt") {
            Ok(FtSwarmDirectCommand::Halt)
        } else if str_eq(v, "whoami") {
            Ok(FtSwarmDirectCommand::Whoami)
        } else if str_eq(v, "uptime") {
            Ok(FtSwarmDirectCommand::Uptime)
        } else if str_eq(v, "startCLI") {
            Ok(FtSwarmDirectCommand::StartCli)
        } else {
            let mut e = "Unknown command: ".to_owned();
            e.append(value.as_str());
            Err(e)
        }
    }
}

} // verus!
