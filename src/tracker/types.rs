//! Commands addressed to the antenna tracker.
use vstd::prelude::*;

use crate::time::Instant;

verus! {

#[derive(Debug, Clone, PartialEq)]
pub struct Frequencies {
    pub uplink: String,
    pub downlink: String,
}

#[derive(Debug, Clone, PartialEq)]
pub struct RadioConfig {
    pub device: String,
    pub frequencies: Frequencies,
}

#[derive(Debug, Clone, PartialEq)]
pub struct RunCommand {
    pub tle: String,
    pub end: Option<Instant>,
    pub rotator: Option<String>,
    pub radio: Option<RadioConfig>,
}

#[derive(Debug, Clone, PartialEq)]
pub enum Command {
    RotatorPark { rotator: String },
    Run(RunCommand),
    Stop,
}

pub struct RadioConfigView {
    pub device: Seq<char>,
    pub uplink: Seq<char>,
    pub downlink: Seq<char>,
}

pub struct RunCommandView {
    pub tle: Seq<char>,
    pub end: Option<Instant>,
    pub rotator: Option<Seq<char>>,
    pub radio: Option<RadioConfigView>,
}

pub enum CommandView {
    RotatorPark { rotator: Seq<char> },
    Run(RunCommandView),
    Stop,
}

impl View for RadioConfig {
    type V = RadioConfigView;

    open spec fn view(&self) -> RadioConfigView {
        RadioConfigView {
            device: self.device@,
            uplink: self.frequencies.uplink@,
            downlink: self.frequencies.downlink@,
        }
    }
}

impl View for RunCommand {
    type V = RunCommandView;

    open spec fn view(&self) -> RunCommandView {
        RunCommandView {
            tle: self.tle@,
            end: self.end,
            rotator: match self.rotator {
                Some(r) => Some(r@),
                None => None,
            },
            radio: match self.radio {
                Some(r) => Some(r@),
                None => None,
            },
        }
    }
}

impl View for Command {
    type V = CommandView;

    open spec fn view(&self) -> CommandView {
        match self {
            Command::RotatorPark { rotator } => CommandView::RotatorPark { rotator: rotator@ },
            Command::Run(r) => CommandView::Run(r@),
            Command::Stop => CommandView::Stop,
        }
    }
}

} // verus!
