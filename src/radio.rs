//! Commands addressed to the radio subsystem, which runs outside this library.
use vstd::prelude::*;

verus! {

#[derive(Debug, Clone, PartialEq)]
pub struct UdpOutput {
    pub send: String,
    pub format: String,
}

#[derive(Debug, Clone, PartialEq)]
pub struct Output {
    pub udp: Option<UdpOutput>,
}

#[derive(Debug, Clone, PartialEq)]
pub enum Command {
    Run { radio: String, bandwidth: String, out: Option<Output>, web_fft: bool },
    Stop,
}

pub struct UdpOutputView {
    pub send: Seq<char>,
    pub format: Seq<char>,
}

pub enum CommandView {
    Run { radio: Seq<char>, bandwidth: Seq<char>, out: Option<Option<UdpOutputView>>, web_fft: bool },
    Stop,
}

impl View for UdpOutput {
    type V = UdpOutputView;

    open spec fn view(&self) -> UdpOutputView {
        UdpOutputView { send: self.send@, format: self.format@ }
    }
}

/// An output block, seen as the UDP target it may name.
pub open spec fn output_view(o: Output) -> Option<UdpOutputView> {
    match o.udp {
        Some(u) => Some(u@),
        None => None,
    }
}

impl View for Command {
    type V = CommandView;

    open spec fn view(&self) -> CommandView {
        match self {
            Command::Run { radio, bandwidth, out, web_fft } => CommandView::Run {
                radio: radio@,
                bandwidth: bandwidth@,
                out: match out {
                    Some(o) => Some(output_view(*o)),
                    None => None,
                },
                web_fft: *web_fft,
            },
            Command::Stop => CommandView::Stop,
        }
    }
}

} // verus!
