//! Schedule documents: variables, time expressions and steps.
use vstd::prelude::*;

use crate::executor;
use crate::radio;
use crate::text::{same_text, slice_chars, string_of, trim, trim_chars, trimmed};
use crate::time::{
    duration_nanos, parse_duration, parse_instant, rfc3339_instant, Instant, MAX_OFFSET_NANOS,
};
use crate::tracker;
use crate::yaml::{
    bool_at, bool_value, dict_at, dict_value, find_key, is_key, key_is, lookup, null_at, null_value,
    parse_document, text_at, text_value, yaml_document_of, YamlNode,
};

verus! {

/// When a step runs: an offset from the schedule's start, or a fixed instant.
#[derive(Debug, Clone, Copy, PartialEq, Eq, Structural)]
pub enum TimeExpr {
    /// Nanoseconds after (or, when negative, before) the schedule's start.
    Relative(i128),
    Absolute(Instant),
}

impl TimeExpr {
    /// The instant this expression names for a schedule starting at `start`.
    pub open spec fn resolved(self, start: Instant) -> int {
        match self {
            TimeExpr::Relative(d) => start.unix_nanos + d,
            TimeExpr::Absolute(t) => t.unix_nanos as int,
        }
    }

    pub fn resolve(&self, start: Instant) -> (r: Instant)
        requires
            i128::MIN <= self.resolved(start) <= i128::MAX,
        ensures
            r.unix_nanos == self.resolved(start),
    {
        match self {
            TimeExpr::Relative(d) => Instant { unix_nanos: start.unix_nanos + *d },
            TimeExpr::Absolute(t) => *t,
        }
    }
}

#[derive(Debug, Clone, PartialEq)]
pub enum Command {
    Tracker(tracker::Command),
    Executor(executor::Command),
    Radio(radio::Command),
}

pub enum CommandView {
    Tracker(tracker::types::CommandView),
    Executor(executor::CommandView),
    Radio(radio::CommandView),
}

impl View for Command {
    type V = CommandView;

    open spec fn view(&self) -> CommandView {
        match self {
            Command::Tracker(c) => CommandView::Tracker(c@),
            Command::Executor(c) => CommandView::Executor(c@),
            Command::Radio(c) => CommandView::Radio(c@),
        }
    }
}

#[derive(Debug, Clone, PartialEq)]
pub struct Step {
    pub time: Option<TimeExpr>,
    pub command: Command,
}

pub struct StepView {
    pub time: Option<TimeExpr>,
    pub command: CommandView,
}

impl View for Step {
    type V = StepView;

    open spec fn view(&self) -> StepView {
        StepView { time: self.time, command: self.command@ }
    }
}

/// A parsed schedule document.
#[derive(Debug)]
pub struct Schedule {
    pub start: Instant,
    pub end: Instant,
    /// The entries of the document's `variables` mapping; every key is a string.
    pub variables: Vec<(YamlNode, YamlNode)>,
    pub steps: Vec<Step>,
}

#[derive(Debug, Clone, PartialEq)]
pub enum ParseError {
    Yaml(String),
    Step(usize, String),
    Validation(String),
}

/// Which of the errors a document fails with.
pub enum ParseFailure {
    Yaml,
    Step(int),
    Validation,
}

pub open spec fn failure_of(e: ParseError) -> ParseFailure {
    match e {
        ParseError::Yaml(_) => ParseFailure::Yaml,
        ParseError::Step(i, _) => ParseFailure::Step(i as int),
        ParseError::Validation(_) => ParseFailure::Validation,
    }
}

pub struct ScheduleView {
    pub start: Instant,
    pub end: Instant,
    pub steps: Seq<StepView>,
}

impl View for Schedule {
    type V = ScheduleView;

    open spec fn view(&self) -> ScheduleView {
        ScheduleView {
            start: self.start,
            end: self.end,
            steps: self.steps@.map_values(|s: Step| s@),
        }
    }
}

// ---------------------------------------------------------------------------------------
// Time expressions
// ---------------------------------------------------------------------------------------

/// A leading `-` or `+` taken off: whether it was `-`, and the rest.
pub open spec fn sign_split(s: Seq<char>) -> (bool, Seq<char>) {
    if s.len() > 0 && s[0] == '-' {
        (true, s.drop_first())
    } else if s.len() > 0 && s[0] == '+' {
        (false, s.drop_first())
    } else {
        (false, s)
    }
}

pub open spec fn signed(neg: bool, d: i128) -> int {
    if neg {
        -d
    } else {
        d as int
    }
}

/// The position of the last `+` or `-` in `s`.
pub open spec fn last_sign(s: Seq<char>) -> Option<int>
    decreases s.len(),
{
    if s.len() == 0 {
        None
    } else if s.last() == '+' || s.last() == '-' {
        Some(s.len() - 1)
    } else {
        last_sign(s.drop_last())
    }
}

/// The form `<rfc3339> (+|-) <duration>`: the base instant and the position of the sign.
pub open spec fn offset_base(t: Seq<char>) -> Option<(Instant, int)> {
    match last_sign(t) {
        Some(idx) => if idx > 10 {
            match rfc3339_instant(trim(t.subrange(0, idx))) {
                Some(b) => Some((b, idx)),
                None => None,
            }
        } else {
            None
        },
        None => None,
    }
}

/// The time expression a text states: `T+10s` (relative), `2026-01-12T10:00:00Z - 10s`
/// (absolute with an offset) or a plain RFC 3339 instant.
pub open spec fn time_expr_of(s: Seq<char>) -> Option<TimeExpr> {
    let t = trim(s);
    if t.len() > 0 && (t[0] == 't' || t[0] == 'T') {
        let (neg, rest) = sign_split(t.drop_first());
        match duration_nanos(trim(rest)) {
            Some(d) => Some(TimeExpr::Relative(signed(neg, d) as i128)),
            None => None,
        }
    } else {
        match offset_base(t) {
            Some((base, idx)) => {
                let (neg, rest) = sign_split(t.subrange(idx, t.len() as int));
                match duration_nanos(trim(rest)) {
                    Some(d) => Some(
                        TimeExpr::Absolute(
                            Instant { unix_nanos: (base.unix_nanos + signed(neg, d)) as i128 },
                        ),
                    ),
                    None => None,
                }
            },
            None => match rfc3339_instant(t) {
                Some(i) => Some(TimeExpr::Absolute(i)),
                None => None,
            },
        }
    }
}

proof fn lemma_rfc3339_range(s: Seq<char>)
    ensures
        rfc3339_instant(s) matches Some(i) ==> -10_000_000_000_000_000_000_000_000_000
            <= i.unix_nanos <= 10_000_000_000_000_000_000_000_000_000,
{
    match crate::time::rfc3339_of(s) {
        Some(p) => {
            let secs = p.0 as int;
            assert(-10_000_000_000_000_000_000_000_000_000 <= secs * 1_000_000_000 + p.1
                <= 10_000_000_000_000_000_000_000_000_000) by (nonlinear_arith)
                requires
                    -0x8000_0000_0000_0000 <= secs < 0x8000_0000_0000_0000,
                    0 <= p.1 < 0x1_0000_0000,
            ;
        },
        None => {},
    }
}

fn split_sign(s: &Vec<char>) -> (r: (bool, Vec<char>))
    ensures
        (r.0, r.1@) == sign_split(s@),
{
    if s.len() > 0 && s[0] == '-' {
        let rest = slice_chars(s, 1, s.len());
        assert(rest@ =~= s@.drop_first());
        (true, rest)
    } else if s.len() > 0 && s[0] == '+' {
        let rest = slice_chars(s, 1, s.len());
        assert(rest@ =~= s@.drop_first());
        (false, rest)
    } else {
        let rest = slice_chars(s, 0, s.len());
        assert(rest@ =~= s@);
        (false, rest)
    }
}

fn find_last_sign(s: &Vec<char>) -> (r: Option<usize>)
    ensures
        match r {
            Some(i) => i < s@.len() && last_sign(s@) == Some(i as int),
            None => last_sign(s@) is None,
        },
{
    let mut j: usize = s.len();
    assert(s@.subrange(0, j as int) =~= s@);
    while j > 0
        invariant
            j <= s@.len(),
            last_sign(s@) == last_sign(s@.subrange(0, j as int)),
        decreases j,
    {
        if s[j - 1] == '+' || s[j - 1] == '-' {
            return Some(j - 1);
        }
        assert(s@.subrange(0, j as int).drop_last() =~= s@.subrange(0, j - 1));
        j -= 1;
    }
    None
}

/// The length of the duration text `cs` after trimming.
fn duration_of_chars(cs: &Vec<char>) -> (r: Option<i128>)
    ensures
        r == duration_nanos(trim(cs@)),
{
    let t = trim_chars(cs);
    let s = string_of(&t);
    parse_duration(s.as_str())
}

/// Parses a step's time expression.
pub fn parse_time(s: &str) -> (r: Option<TimeExpr>)
    ensures
        r == time_expr_of(s@),
{
    let t = trimmed(s);
    if t.len() > 0 && (t[0] == 't' || t[0] == 'T') {
        let rest = slice_chars(&t, 1, t.len());
        assert(rest@ =~= t@.drop_first());
        let (neg, body) = split_sign(&rest);
        match duration_of_chars(&body) {
            Some(d) => {
                proof {
                    assert(d <= MAX_OFFSET_NANOS);
                }
                Some(TimeExpr::Relative(if neg { -d } else { d }))
            },
            None => None,
        }
    } else {
        match find_last_sign(&t) {
            Some(idx) => {
                if idx > 10 {
                    let head = slice_chars(&t, 0, idx);
                    let head_text = string_of(&trim_chars(&head));
                    match parse_instant(head_text.as_str()) {
                        Some(base) => {
                            proof {
                                lemma_rfc3339_range(head_text@);
                            }
                            let tail = slice_chars(&t, idx, t.len());
                            let (neg, body) = split_sign(&tail);
                            match duration_of_chars(&body) {
                                Some(d) => {
                                    let off: i128 = if neg {
                                        -d
                                    } else {
                                        d
                                    };
                                    Some(TimeExpr::Absolute(Instant { unix_nanos: base.unix_nanos + off }))
                                },
                                None => None,
                            }
                        },
                        None => {
                            let all = string_of(&t);
                            match parse_instant(all.as_str()) {
                                Some(i) => Some(TimeExpr::Absolute(i)),
                                None => None,
                            }
                        },
                    }
                } else {
                    let all = string_of(&t);
                    match parse_instant(all.as_str()) {
                        Some(i) => Some(TimeExpr::Absolute(i)),
                        None => None,
                    }
                }
            },
            None => {
                let all = string_of(&t);
                match parse_instant(all.as_str()) {
                    Some(i) => Some(TimeExpr::Absolute(i)),
                    None => None,
                }
            },
        }
    }
}

// ---------------------------------------------------------------------------------------
// Fields of a command mapping
// ---------------------------------------------------------------------------------------

pub type Entries = Seq<(YamlNode, YamlNode)>;

/// A required text field; `None` when it is missing or not a string.
pub open spec fn req_text(m: Entries, key: Seq<char>, sub: bool, vars: Entries) -> Option<Seq<char>> {
    match lookup(m, key) {
        Some(v) => text_value(v, sub, vars),
        None => None,
    }
}

/// An optional text field: `Some(None)` when missing or null, `None` when malformed.
pub open spec fn opt_text(m: Entries, key: Seq<char>, sub: bool, vars: Entries) -> Option<
    Option<Seq<char>>,
> {
    match lookup(m, key) {
        None => Some(None),
        Some(v) => if null_value(v, sub, vars) {
            Some(None)
        } else {
            match text_value(v, sub, vars) {
                Some(t) => Some(Some(t)),
                None => None,
            }
        },
    }
}

/// A boolean field that defaults to `false`.
pub open spec fn flag(m: Entries, key: Seq<char>, sub: bool, vars: Entries) -> Option<bool> {
    match lookup(m, key) {
        None => Some(false),
        Some(v) => bool_value(v, sub, vars),
    }
}

/// An optional mapping field: `Some(None)` when missing or null, `None` when not a mapping.
pub open spec fn opt_dict(m: Entries, key: Seq<char>, sub: bool, vars: Entries) -> Option<
    Option<(Entries, bool)>,
> {
    match lookup(m, key) {
        None => Some(None),
        Some(v) => if null_value(v, sub, vars) {
            Some(None)
        } else {
            match dict_value(v, sub, vars) {
                Some(d) => Some(Some(d)),
                None => None,
            }
        },
    }
}

fn req_text_field(m: &Vec<(YamlNode, YamlNode)>, key: &str, sub: bool, vars: &Vec<(YamlNode, YamlNode)>) -> (r: Option<String>)
    ensures
        match r {
            Some(t) => req_text(m@, key@, sub, vars@) == Some(t@),
            None => req_text(m@, key@, sub, vars@) is None,
        },
{
    match find_key(m, key) {
        Some(i) => text_at(&m[i].1, sub, vars),
        None => None,
    }
}

fn opt_text_field(m: &Vec<(YamlNode, YamlNode)>, key: &str, sub: bool, vars: &Vec<(YamlNode, YamlNode)>) -> (r: Option<Option<String>>)
    ensures
        match r {
            Some(Some(t)) => opt_text(m@, key@, sub, vars@) == Some(Some(t@)),
            Some(None) => opt_text(m@, key@, sub, vars@) == Some(None::<Seq<char>>),
            None => opt_text(m@, key@, sub, vars@) is None,
        },
{
    match find_key(m, key) {
        None => Some(None),
        Some(i) => {
            if null_at(&m[i].1, sub, vars) {
                Some(None)
            } else {
                match text_at(&m[i].1, sub, vars) {
                    Some(t) => Some(Some(t)),
                    None => None,
                }
            }
        },
    }
}

fn flag_field(m: &Vec<(YamlNode, YamlNode)>, key: &str, sub: bool, vars: &Vec<(YamlNode, YamlNode)>) -> (r: Option<bool>)
    ensures
        r == flag(m@, key@, sub, vars@),
{
    match find_key(m, key) {
        None => Some(false),
        Some(i) => bool_at(&m[i].1, sub, vars),
    }
}

fn opt_dict_field<'a>(m: &'a Vec<(YamlNode, YamlNode)>, key: &str, sub: bool, vars: &'a Vec<(YamlNode, YamlNode)>) -> (r: Option<Option<(&'a Vec<(YamlNode, YamlNode)>, bool)>>)
    ensures
        match r {
            Some(Some(d)) => opt_dict(m@, key@, sub, vars@) == Some(Some((d.0@, d.1))),
            Some(None) => opt_dict(m@, key@, sub, vars@) == Some(None::<(Entries, bool)>),
            None => opt_dict(m@, key@, sub, vars@) is None,
        },
{
    match find_key(m, key) {
        None => Some(None),
        Some(i) => {
            if null_at(&m[i].1, sub, vars) {
                Some(None)
            } else {
                match dict_at(&m[i].1, sub, vars) {
                    Some(d) => Some(Some(d)),
                    None => None,
                }
            }
        },
    }
}

// ---------------------------------------------------------------------------------------
// Commands of each subsystem, tagged by their `action` field
// ---------------------------------------------------------------------------------------

pub open spec fn on_fail_of(m: Entries, sub: bool, vars: Entries) -> Option<executor::OnFail> {
    match lookup(m, "on_fail"@) {
        None => Some(executor::OnFail::Abort),
        Some(v) => match text_value(v, sub, vars) {
            Some(t) => if t == "abort"@ {
                Some(executor::OnFail::Abort)
            } else if t == "continue"@ {
                Some(executor::OnFail::Continue)
            } else {
                None
            },
            None => None,
        },
    }
}

/// The executor command written at `n`.
pub open spec fn executor_command_of(n: YamlNode, sub: bool, vars: Entries) -> Option<executor::CommandView> {
    match dict_value(n, sub, vars) {
        None => None,
        Some((m, s)) => match req_text(m, "action"@, s, vars) {
            None => None,
            Some(a) => if a == "run_shell"@ {
                match (req_text(m, "cmd"@, s, vars), on_fail_of(m, s, vars)) {
                    (Some(c), Some(f)) => Some(executor::CommandView::RunShell { cmd: c, on_fail: f }),
                    _ => None,
                }
            } else if a == "stop"@ {
                Some(executor::CommandView::Stop)
            } else {
                None
            },
        },
    }
}

/// The UDP target of a radio output block.
pub open spec fn udp_of(m: Entries, sub: bool, vars: Entries) -> Option<Option<radio::UdpOutputView>> {
    match opt_dict(m, "udp"@, sub, vars) {
        None => None,
        Some(None) => Some(None),
        Some(Some((u, s))) => match (req_text(u, "send"@, s, vars), req_text(u, "format"@, s, vars)) {
            (Some(a), Some(b)) => Some(Some(radio::UdpOutputView { send: a, format: b })),
            _ => None,
        },
    }
}

/// The `out` block of a radio command.
pub open spec fn radio_out_of(m: Entries, sub: bool, vars: Entries) -> Option<Option<Option<radio::UdpOutputView>>> {
    match opt_dict(m, "out"@, sub, vars) {
        None => None,
        Some(None) => Some(None),
        Some(Some((o, s))) => match udp_of(o, s, vars) {
            Some(u) => Some(Some(u)),
            None => None,
        },
    }
}

/// The radio command written at `n`.
pub open spec fn radio_command_of(n: YamlNode, sub: bool, vars: Entries) -> Option<radio::CommandView> {
    match dict_value(n, sub, vars) {
        None => None,
        Some((m, s)) => match req_text(m, "action"@, s, vars) {
            None => None,
            Some(a) => if a == "run"@ {
                match (req_text(m, "radio"@, s, vars), req_text(m, "bandwidth"@, s, vars), radio_out_of(m, s, vars), flag(m, "web_fft"@, s, vars)) {
                    (Some(r), Some(b), Some(o), Some(w)) => Some(radio::CommandView::Run { radio: r, bandwidth: b, out: o, web_fft: w }),
                    _ => None,
                }
            } else if a == "stop"@ {
                Some(radio::CommandView::Stop)
            } else {
                None
            },
        },
    }
}

/// The `radio` block of a tracker run.
pub open spec fn radio_config_of(m: Entries, sub: bool, vars: Entries) -> Option<Option<tracker::types::RadioConfigView>> {
    match opt_dict(m, "radio"@, sub, vars) {
        None => None,
        Some(None) => Some(None),
        Some(Some((r, s))) => match (req_text(r, "device"@, s, vars), lookup(r, "frequencies"@)) {
            (Some(d), Some(f)) => match dict_value(f, s, vars) {
                Some((fm, s2)) => match (req_text(fm, "uplink"@, s2, vars), req_text(fm, "downlink"@, s2, vars)) {
                    (Some(u), Some(w)) => Some(Some(tracker::types::RadioConfigView { device: d, uplink: u, downlink: w })),
                    _ => None,
                },
                None => None,
            },
            _ => None,
        },
    }
}

/// The `end` field of a tracker run: absent, null, or an RFC 3339 instant.
pub open spec fn run_end_of(m: Entries, sub: bool, vars: Entries) -> Option<Option<Instant>> {
    match opt_text(m, "end"@, sub, vars) {
        None => None,
        Some(None) => Some(None),
        Some(Some(t)) => match rfc3339_instant(t) {
            Some(i) => Some(Some(i)),
            None => None,
        },
    }
}

/// The tracker command written at `n`.
pub open spec fn tracker_command_of(n: YamlNode, sub: bool, vars: Entries) -> Option<tracker::types::CommandView> {
    match dict_value(n, sub, vars) {
        None => None,
        Some((m, s)) => match req_text(m, "action"@, s, vars) {
            None => None,
            Some(a) => if a == "rotator_park"@ {
                match req_text(m, "rotator"@, s, vars) {
                    Some(r) => Some(tracker::types::CommandView::RotatorPark { rotator: r }),
                    None => None,
                }
            } else if a == "run"@ {
                match (req_text(m, "tle"@, s, vars), run_end_of(m, s, vars), opt_text(m, "rotator"@, s, vars), radio_config_of(m, s, vars)) {
                    (Some(t), Some(e), Some(r), Some(c)) => Some(tracker::types::CommandView::Run(tracker::types::RunCommandView { tle: t, end: e, rotator: r, radio: c })),
                    _ => None,
                }
            } else if a == "stop"@ {
                Some(tracker::types::CommandView::Stop)
            } else {
                None
            },
        },
    }
}

fn decode_executor(n: &YamlNode, sub: bool, vars: &Vec<(YamlNode, YamlNode)>) -> (r: Option<executor::Command>)
    ensures
        match r {
            Some(c) => executor_command_of(*n, sub, vars@) == Some(c@),
            None => executor_command_of(*n, sub, vars@) is None,
        },
{
    let (m, s) = match dict_at(n, sub, vars) {
        Some(d) => d,
        None => return None,
    };
    let a = match req_text_field(m, "action", s, vars) {
        Some(a) => a,
        None => return None,
    };
    if same_text(a.as_str(), "run_shell") {
        let cmd = match req_text_field(m, "cmd", s, vars) {
            Some(c) => c,
            None => return None,
        };
        let on_fail = match find_key(m, "on_fail") {
            None => executor::OnFail::Abort,
            Some(i) => match text_at(&m[i].1, s, vars) {
                Some(t) => {
                    if same_text(t.as_str(), "abort") {
                        executor::OnFail::Abort
                    } else if same_text(t.as_str(), "continue") {
                        executor::OnFail::Continue
                    } else {
                        return None;
                    }
                },
                None => return None,
            },
        };
        Some(executor::Command::RunShell { cmd, on_fail })
    } else if same_text(a.as_str(), "stop") {
        Some(executor::Command::Stop)
    } else {
        None
    }
}

fn decode_radio(n: &YamlNode, sub: bool, vars: &Vec<(YamlNode, YamlNode)>) -> (r: Option<radio::Command>)
    ensures
        match r {
            Some(c) => radio_command_of(*n, sub, vars@) == Some(c@),
            None => radio_command_of(*n, sub, vars@) is None,
        },
{
    let (m, s) = match dict_at(n, sub, vars) {
        Some(d) => d,
        None => return None,
    };
    let a = match req_text_field(m, "action", s, vars) {
        Some(a) => a,
        None => return None,
    };
    if same_text(a.as_str(), "run") {
        let rname = match req_text_field(m, "radio", s, vars) {
            Some(x) => x,
            None => return None,
        };
        let bandwidth = match req_text_field(m, "bandwidth", s, vars) {
            Some(x) => x,
            None => return None,
        };
        let out = match opt_dict_field(m, "out", s, vars) {
            None => return None,
            Some(None) => None,
            Some(Some((o, s2))) => {
                let udp = match opt_dict_field(o, "udp", s2, vars) {
                    None => return None,
                    Some(None) => None,
                    Some(Some((u, s3))) => {
                        let send = match req_text_field(u, "send", s3, vars) {
                            Some(x) => x,
                            None => return None,
                        };
                        let format = match req_text_field(u, "format", s3, vars) {
                            Some(x) => x,
                            None => return None,
                        };
                        Some(radio::UdpOutput { send, format })
                    },
                };
                Some(radio::Output { udp })
            },
        };
        let web_fft = match flag_field(m, "web_fft", s, vars) {
            Some(b) => b,
            None => return None,
        };
        Some(radio::Command::Run { radio: rname, bandwidth, out, web_fft })
    } else if same_text(a.as_str(), "stop") {
        Some(radio::Command::Stop)
    } else {
        None
    }
}

fn decode_radio_config(m: &Vec<(YamlNode, YamlNode)>, sub: bool, vars: &Vec<(YamlNode, YamlNode)>) -> (r: Option<Option<tracker::RadioConfig>>)
    ensures
        match r {
            Some(Some(c)) => radio_config_of(m@, sub, vars@) == Some(Some(c@)),
            Some(None) => radio_config_of(m@, sub, vars@) == Some(None::<tracker::types::RadioConfigView>),
            None => radio_config_of(m@, sub, vars@) is None,
        },
{
    match opt_dict_field(m, "radio", sub, vars) {
        None => None,
        Some(None) => Some(None),
        Some(Some((rm, s))) => {
            let device = match req_text_field(rm, "device", s, vars) {
                Some(x) => x,
                None => return None,
            };
            let fi = match find_key(rm, "frequencies") {
                Some(i) => i,
                None => return None,
            };
            let (fm, s2) = match dict_at(&rm[fi].1, s, vars) {
                Some(d) => d,
                None => return None,
            };
            let uplink = match req_text_field(fm, "uplink", s2, vars) {
                Some(x) => x,
                None => return None,
            };
            let downlink = match req_text_field(fm, "downlink", s2, vars) {
                Some(x) => x,
                None => return None,
            };
            Some(Some(tracker::RadioConfig { device, frequencies: tracker::Frequencies { uplink, downlink } }))
        },
    }
}

fn decode_tracker(n: &YamlNode, sub: bool, vars: &Vec<(YamlNode, YamlNode)>) -> (r: Option<tracker::Command>)
    ensures
        match r {
            Some(c) => tracker_command_of(*n, sub, vars@) == Some(c@),
            None => tracker_command_of(*n, sub, vars@) is None,
        },
{
    let (m, s) = match dict_at(n, sub, vars) {
        Some(d) => d,
        None => return None,
    };
    let a = match req_text_field(m, "action", s, vars) {
        Some(a) => a,
        None => return None,
    };
    if same_text(a.as_str(), "rotator_park") {
        match req_text_field(m, "rotator", s, vars) {
            Some(rotator) => Some(tracker::Command::RotatorPark { rotator }),
            None => None,
        }
    } else if same_text(a.as_str(), "run") {
        let tle = match req_text_field(m, "tle", s, vars) {
            Some(x) => x,
            None => return None,
        };
        let end = match opt_text_field(m, "end", s, vars) {
            None => return None,
            Some(None) => None,
            Some(Some(t)) => match parse_instant(t.as_str()) {
                Some(i) => Some(i),
                None => return None,
            },
        };
        let rotator = match opt_text_field(m, "rotator", s, vars) {
            None => return None,
            Some(x) => x,
        };
        let radio = match decode_radio_config(m, s, vars) {
            None => return None,
            Some(x) => x,
        };
        let run = tracker::RunCommand { tle, end, rotator, radio };
        assert(run@.rotator == opt_text(m@, "rotator"@, s, vars@)->Some_0);
        Some(tracker::Command::Run(run))
    } else if same_text(a.as_str(), "stop") {
        Some(tracker::Command::Stop)
    } else {
        None
    }
}

// ---------------------------------------------------------------------------------------
// Steps and whole documents
// ---------------------------------------------------------------------------------------

/// The first entry of a step whose key is not the string `time`: the subsystem and its command.
pub open spec fn command_entry(m: Entries) -> Option<(YamlNode, YamlNode)>
    decreases m.len(),
{
    if m.len() == 0 {
        None
    } else if !is_key(m[0].0, "time"@) {
        Some(m[0])
    } else {
        command_entry(m.drop_first())
    }
}

/// A step's time: `Some(None)` when it has none (or it is not a string), `None` when it is
/// not a time expression.
pub open spec fn step_time_of(m: Entries, vars: Entries) -> Option<Option<TimeExpr>> {
    match lookup(m, "time"@) {
        None => Some(None),
        Some(v) => match text_value(v, true, vars) {
            None => Some(None),
            Some(t) => match time_expr_of(t) {
                Some(te) => Some(Some(te)),
                None => None,
            },
        },
    }
}

/// The command addressed to the subsystem named by `key`.
pub open spec fn command_of(key: YamlNode, v: YamlNode, vars: Entries) -> Option<CommandView> {
    match key {
        YamlNode::Str(k) => if k@ == "tracker"@ {
            match tracker_command_of(v, true, vars) {
                Some(c) => Some(CommandView::Tracker(c)),
                None => None,
            }
        } else if k@ == "executor"@ {
            match executor_command_of(v, true, vars) {
                Some(c) => Some(CommandView::Executor(c)),
                None => None,
            }
        } else if k@ == "radio"@ {
            match radio_command_of(v, true, vars) {
                Some(c) => Some(CommandView::Radio(c)),
                None => None,
            }
        } else {
            None
        },
        _ => None,
    }
}

/// The step written at `n`, with variables substituted; `None` when it is malformed.
pub open spec fn step_of(n: YamlNode, vars: Entries) -> Option<StepView> {
    match n {
        YamlNode::Dict(e) => match (step_time_of(e@, vars), command_entry(e@)) {
            (Some(t), Some(kv)) => match command_of(kv.0, kv.1, vars) {
                Some(c) => Some(StepView { time: t, command: c }),
                None => None,
            },
            _ => None,
        },
        _ => None,
    }
}

/// All steps in order, or the position of the first malformed one.
pub open spec fn steps_of(ss: Seq<YamlNode>, vars: Entries) -> Result<Seq<StepView>, int>
    decreases ss.len(),
{
    if ss.len() == 0 {
        Ok(Seq::empty())
    } else {
        match steps_of(ss.drop_last(), vars) {
            Err(i) => Err(i),
            Ok(r) => match step_of(ss.last(), vars) {
                Some(v) => Ok(r.push(v)),
                None => Err(ss.len() - 1),
            },
        }
    }
}

/// The variables a document declares; `None` when `variables` is present but neither null
/// nor a mapping with string keys.
pub open spec fn variables_of(root: YamlNode) -> Option<Entries> {
    match root {
        YamlNode::Dict(e) => match lookup(e@, "variables"@) {
            None => Some(Seq::empty()),
            Some(YamlNode::Null) => Some(Seq::empty()),
            Some(YamlNode::Dict(v)) => if forall|i: int| 0 <= i < v@.len() ==> (#[trigger] v@[i]).0 is Str {
                Some(v@)
            } else {
                None
            },
            Some(_) => None,
        },
        _ => Some(Seq::empty()),
    }
}

/// The instant a variable holds as an RFC 3339 string.
pub open spec fn time_variable(vars: Entries, name: Seq<char>) -> Option<Instant> {
    match lookup(vars, name) {
        Some(YamlNode::Str(s)) => rfc3339_instant(s@),
        _ => None,
    }
}

/// The step list of a document.
pub open spec fn step_nodes(root: YamlNode) -> Option<Seq<YamlNode>> {
    match root {
        YamlNode::Dict(e) => match lookup(e@, "steps"@) {
            Some(YamlNode::List(v)) => Some(v@),
            _ => None,
        },
        _ => None,
    }
}

/// What a schedule document parses to.
pub open spec fn schedule_of(text: Seq<char>) -> Result<ScheduleView, ParseFailure> {
    match yaml_document_of(text) {
        None => Err(ParseFailure::Yaml),
        Some(root) => match variables_of(root) {
            None => Err(ParseFailure::Yaml),
            Some(vars) => match (time_variable(vars, "start"@), time_variable(vars, "end"@)) {
                (Some(st), Some(en)) => if en.unix_nanos <= st.unix_nanos {
                    Err(ParseFailure::Validation)
                } else {
                    match step_nodes(root) {
                        None => Err(ParseFailure::Step(0)),
                        Some(ss) => match steps_of(ss, vars) {
                            Ok(v) => Ok(ScheduleView { start: st, end: en, steps: v }),
                            Err(i) => Err(ParseFailure::Step(i)),
                        },
                    }
                },
                _ => Err(ParseFailure::Validation),
            },
        },
    }
}

/// The message for a `start` or `end` variable that is missing or not an instant.
pub open spec fn variable_message(vars: Entries, name: Seq<char>) -> Seq<char> {
    match lookup(vars, name) {
        Some(YamlNode::Str(t)) => "invalid '"@ + name + "' datetime: "@ + t@,
        _ => "missing mandatory variable '"@ + name + "'"@,
    }
}

/// The message a document's `Validation` error carries, when it has one.
pub open spec fn validation_message(text: Seq<char>) -> Option<Seq<char>> {
    match yaml_document_of(text) {
        Some(root) => match variables_of(root) {
            Some(vars) => match time_variable(vars, "start"@) {
                None => Some(variable_message(vars, "start"@)),
                Some(st) => match time_variable(vars, "end"@) {
                    None => Some(variable_message(vars, "end"@)),
                    Some(en) => if en.unix_nanos <= st.unix_nanos {
                        Some("'end' must be after 'start'"@)
                    } else {
                        None
                    },
                },
            },
            None => None,
        },
        None => None,
    }
}

/// The subsystem a well-formed step names, when it is none of `tracker`, `executor`, `radio`.
pub open spec fn unknown_module(n: YamlNode, vars: Entries) -> Option<Seq<char>> {
    match n {
        YamlNode::Dict(e) => match (step_time_of(e@, vars), command_entry(e@)) {
            (Some(_), Some(kv)) => match kv.0 {
                YamlNode::Str(k) => if k@ != "tracker"@ && k@ != "executor"@ && k@ != "radio"@ {
                    Some(k@)
                } else {
                    None
                },
                _ => None,
            },
            _ => None,
        },
        _ => None,
    }
}

/// The unknown subsystem named by step `i` of a document, if it names one.
pub open spec fn unknown_module_at(text: Seq<char>, i: int) -> Option<Seq<char>> {
    match yaml_document_of(text) {
        Some(root) => match (variables_of(root), step_nodes(root)) {
            (Some(vars), Some(ss)) => if 0 <= i < ss.len() {
                unknown_module(ss[i], vars)
            } else {
                None
            },
            _ => None,
        },
        None => None,
    }
}


/// Whether a step time's offset stays within what a schedule may state.
pub open spec fn time_bounded(t: Option<TimeExpr>) -> bool {
    t matches Some(TimeExpr::Relative(d)) ==> -MAX_OFFSET_NANOS <= d <= MAX_OFFSET_NANOS
}

proof fn lemma_duration_range(s: Seq<char>)
    ensures
        duration_nanos(s) matches Some(n) ==> 0 <= n <= MAX_OFFSET_NANOS,
{
    match crate::time::human_duration_of(s) {
        Some(p) => {
            assert(p.0 * 1_000_000_000 >= 0) by (nonlinear_arith)
                requires
                    p.0 >= 0,
            ;
        },
        None => {},
    }
}

proof fn lemma_time_expr_bounded(s: Seq<char>)
    ensures
        time_bounded(time_expr_of(s)),
{
    let t = trim(s);
    lemma_duration_range(trim(sign_split(t.drop_first()).1));
}

proof fn lemma_step_time_bounded(n: YamlNode, vars: Entries)
    ensures
        step_of(n, vars) matches Some(v) ==> time_bounded(v.time),
{
    match n {
        YamlNode::Dict(e) => match lookup(e@, "time"@) {
            Some(x) => match text_value(x, true, vars) {
                Some(t) => lemma_time_expr_bounded(t),
                None => {},
            },
            None => {},
        },
        _ => {},
    }
}

proof fn lemma_steps_bounded(ss: Seq<YamlNode>, vars: Entries)
    ensures
        steps_of(ss, vars) matches Ok(vs) ==> forall|k: int| 0 <= k < vs.len() ==> time_bounded(#[trigger] vs[k].time),
    decreases ss.len(),
{
    if ss.len() > 0 {
        lemma_steps_bounded(ss.drop_last(), vars);
        lemma_step_time_bounded(ss.last(), vars);
    }
}

proof fn lemma_time_variable_range(vars: Entries, name: Seq<char>)
    ensures
        time_variable(vars, name) matches Some(i) ==> -10_000_000_000_000_000_000_000_000_000 <= i.unix_nanos
            <= 10_000_000_000_000_000_000_000_000_000,
{
    match lookup(vars, name) {
        Some(YamlNode::Str(s)) => lemma_rfc3339_range(s@),
        _ => {},
    }
}


proof fn lemma_steps_error_stays(ss: Seq<YamlNode>, vars: Entries, k: int)
    requires
        0 <= k <= ss.len(),
        steps_of(ss.subrange(0, k), vars) is Err,
    ensures
        steps_of(ss, vars) == steps_of(ss.subrange(0, k), vars),
    decreases ss.len() - k,
{
    if k < ss.len() {
        assert(ss.subrange(0, k + 1).drop_last() =~= ss.subrange(0, k));
        lemma_steps_error_stays(ss, vars, k + 1);
    } else {
        assert(ss.subrange(0, k) =~= ss);
    }
}

/// The parts joined into one message.
fn message(parts: &[&str]) -> String {
    let mut out = String::new();
    let mut i: usize = 0;
    while i < parts.len()
        invariant
            i <= parts@.len(),
        decreases parts@.len() - i,
    {
        out.append(parts[i]);
        i += 1;
    }
    out
}

fn first_command_entry(m: &Vec<(YamlNode, YamlNode)>) -> (r: Option<usize>)
    ensures
        match r {
            Some(i) => i < m@.len() && command_entry(m@) == Some(m@[i as int]),
            None => command_entry(m@) is None,
        },
{
    let n = m.len();
    let mut i: usize = 0;
    assert(m@.subrange(0, n as int) =~= m@);
    while i < n
        invariant
            n == m@.len(),
            i <= n,
            command_entry(m@) == command_entry(m@.subrange(i as int, n as int)),
        decreases n - i,
    {
        if !key_is(&m[i].0, "time") {
            return Some(i);
        }
        assert(m@.subrange(i as int, n as int).drop_first() =~= m@.subrange(i + 1, n as int));
        i += 1;
    }
    None
}

fn parse_step(i: usize, n: &YamlNode, vars: &Vec<(YamlNode, YamlNode)>) -> (r: Result<Step, ParseError>)
    ensures
        match r {
            Ok(st) => step_of(*n, vars@) == Some(st@),
            Err(e) => step_of(*n, vars@) is None && (e matches ParseError::Step(j, _) && j == i),
        },
        unknown_module(*n, vars@) matches Some(k) ==> (r matches Err(ParseError::Step(_, m)) && m@
            == "unknown module: "@ + k),
{
    let m = match n {
        YamlNode::Dict(e) => e,
        _ => return Err(ParseError::Step(i, message(&["expected mapping"]))),
    };
    let time = match find_key(m, "time") {
        None => None,
        Some(k) => match text_at(&m[k].1, true, vars) {
            None => None,
            Some(t) => match parse_time(t.as_str()) {
                Some(te) => Some(te),
                None => return Err(ParseError::Step(i, message(&["invalid time expression: ", t.as_str()]))),
            },
        },
    };
    let ci = match first_command_entry(m) {
        Some(c) => c,
        None => return Err(ParseError::Step(i, message(&["no command found"]))),
    };
    let module = match &m[ci].0 {
        YamlNode::Str(s) => s,
        _ => return Err(ParseError::Step(i, message(&["command must be string"]))),
    };
    let v = &m[ci].1;
    let command = if same_text(module.as_str(), "tracker") {
        match decode_tracker(v, true, vars) {
            Some(c) => Command::Tracker(c),
            None => return Err(ParseError::Step(i, message(&["invalid tracker command"]))),
        }
    } else if same_text(module.as_str(), "executor") {
        match decode_executor(v, true, vars) {
            Some(c) => Command::Executor(c),
            None => return Err(ParseError::Step(i, message(&["invalid executor command"]))),
        }
    } else if same_text(module.as_str(), "radio") {
        match decode_radio(v, true, vars) {
            Some(c) => Command::Radio(c),
            None => return Err(ParseError::Step(i, message(&["invalid radio command"]))),
        }
    } else {
        let mut text = String::from_str("unknown module: ");
        text.append(module.as_str());
        return Err(ParseError::Step(i, text));
    };
    Ok(Step { time, command })
}

fn all_keys_text(v: &Vec<(YamlNode, YamlNode)>) -> (r: bool)
    ensures
        r == forall|i: int| 0 <= i < v@.len() ==> (#[trigger] v@[i]).0 is Str,
{
    let mut i: usize = 0;
    while i < v.len()
        invariant
            i <= v@.len(),
            forall|k: int| 0 <= k < i ==> (#[trigger] v@[k]).0 is Str,
        decreases v@.len() - i,
    {
        match &v[i].0 {
            YamlNode::Str(_) => {},
            _ => return false,
        }
        i += 1;
    }
    true
}

fn time_variable_of(vars: &Vec<(YamlNode, YamlNode)>, name: &str) -> (r: Result<Instant, ParseError>)
    ensures
        match r {
            Ok(t) => time_variable(vars@, name@) == Some(t),
            Err(e) => time_variable(vars@, name@) is None && (e matches ParseError::Validation(m) && m@
                == variable_message(vars@, name@)),
        },
{
    let mut missing = String::from_str("missing mandatory variable '");
    missing.append(name);
    missing.append("'");
    let text = match find_key(vars, name) {
        Some(i) => match &vars[i].1 {
            YamlNode::Str(s) => s,
            _ => return Err(ParseError::Validation(missing)),
        },
        None => return Err(ParseError::Validation(missing)),
    };
    match parse_instant(text.as_str()) {
        Some(t) => Ok(t),
        None => {
            let mut invalid = String::from_str("invalid '");
            invalid.append(name);
            invalid.append("' datetime: ");
            invalid.append(text.as_str());
            Err(ParseError::Validation(invalid))
        },
    }
}

impl Schedule {
    /// Parses a schedule document.
    pub fn from_str(yaml: &str) -> (r: Result<Schedule, ParseError>)
        ensures
            match r {
                Ok(s) => schedule_of(yaml@) == Ok::<ScheduleView, ParseFailure>(s@)
                    && variables_of(yaml_document_of(yaml@)->Some_0) == Some(s.variables@),
                Err(e) => schedule_of(yaml@) == Err::<ScheduleView, ParseFailure>(failure_of(e)),
            },
            r matches Ok(s) ==> s.end.unix_nanos > s.start.unix_nanos,
            r matches Ok(s) ==> times_resolvable(s@),
            validation_message(yaml@) matches Some(v) ==> (r matches Err(ParseError::Validation(m)) && m@
                == v),
            r matches Err(ParseError::Step(i, m)) ==> (unknown_module_at(yaml@, i as int) matches Some(k)
                ==> m@ == "unknown module: "@ + k),
    {
        let root = match parse_document(yaml) {
            Ok(n) => n,
            Err(e) => return Err(ParseError::Yaml(e)),
        };
        let empty: Vec<(YamlNode, YamlNode)> = Vec::new();
        let var_idx: Option<usize> = match &root {
            YamlNode::Dict(e) => find_key(e, "variables"),
            _ => None,
        };
        let vars: &Vec<(YamlNode, YamlNode)> = match &root {
            YamlNode::Dict(e) => match var_idx {
                Some(i) => match &e[i].1 {
                    YamlNode::Null => &empty,
                    YamlNode::Dict(v) => {
                        if !all_keys_text(v) {
                            return Err(ParseError::Yaml(message(&["variables: every name must be a string"])));
                        }
                        v
                    },
                    _ => return Err(ParseError::Yaml(message(&["variables: expected a mapping"]))),
                },
                None => &empty,
            },
            _ => &empty,
        };
        assert(variables_of(root) == Some(vars@));
        let start = match time_variable_of(vars, "start") {
            Ok(t) => t,
            Err(e) => return Err(e),
        };
        let end = match time_variable_of(vars, "end") {
            Ok(t) => t,
            Err(e) => return Err(e),
        };
        if end.unix_nanos <= start.unix_nanos {
            return Err(ParseError::Validation(String::from_str("'end' must be after 'start'")));
        }
        let items: &Vec<YamlNode> = match &root {
            YamlNode::Dict(e) => match find_key(e, "steps") {
                Some(k) => match &e[k].1 {
                    YamlNode::List(v) => v,
                    _ => return Err(ParseError::Step(0, message(&["missing 'steps'"]))),
                },
                None => return Err(ParseError::Step(0, message(&["missing 'steps'"]))),
            },
            _ => return Err(ParseError::Step(0, message(&["missing 'steps'"]))),
        };
        let mut steps: Vec<Step> = Vec::new();
        let mut i: usize = 0;
        assert(items@.subrange(0, 0) =~= Seq::<YamlNode>::empty());
        assert(steps@.map_values(|s: Step| s@) =~= Seq::<StepView>::empty());
        while i < items.len()
            invariant
                i <= items@.len(),
                yaml_document_of(yaml@) == Some(root),
                variables_of(root) == Some(vars@),
                time_variable(vars@, "start"@) == Some(start),
                time_variable(vars@, "end"@) == Some(end),
                end.unix_nanos > start.unix_nanos,
                step_nodes(root) == Some(items@),
                steps_of(items@.subrange(0, i as int), vars@) == Ok::<Seq<StepView>, int>(
                    steps@.map_values(|s: Step| s@),
                ),
            decreases items@.len() - i,
        {
            assert(items@.subrange(0, i + 1).drop_last() =~= items@.subrange(0, i as int));
            let st = match parse_step(i, &items[i], vars) {
                Ok(st) => st,
                Err(e) => {
                    proof {
                        lemma_steps_error_stays(items@, vars@, i + 1);
                    }
                    return Err(e);
                },
            };
            let ghost prev = steps@.map_values(|s: Step| s@);
            let ghost sv = st@;
            steps.push(st);
            assert(steps@.map_values(|s: Step| s@) =~= prev.push(sv));
            i += 1;
        }
        assert(items@.subrange(0, items@.len() as int) =~= items@);
        proof {
            lemma_steps_bounded(items@, vars@);
            lemma_time_variable_range(vars@, "start"@);
            let vs = steps@.map_values(|s: Step| s@);
            assert forall|k: int| 0 <= k < vs.len() implies ((#[trigger] vs[k]).time matches Some(te) ==> i128::MIN
                <= te.resolved(start) <= i128::MAX) by {
                assert(time_bounded(vs[k].time));
            }
        }
        let variables: Vec<(YamlNode, YamlNode)> = match root {
            YamlNode::Dict(mut e) => match var_idx {
                Some(i) => {
                    let (_, v) = e.remove(i);
                    match v {
                        YamlNode::Dict(vv) => vv,
                        _ => Vec::new(),
                    }
                },
                None => Vec::new(),
            },
            _ => Vec::new(),
        };
        Ok(Schedule { start, end, variables, steps })
    }
}

/// The subsystem and action a command names, such as `executor.run_shell`.
pub open spec fn command_label(c: CommandView) -> Seq<char> {
    match c {
        CommandView::Tracker(tracker::types::CommandView::RotatorPark { .. }) => "tracker.rotator_park"@,
        CommandView::Tracker(tracker::types::CommandView::Run(_)) => "tracker.run"@,
        CommandView::Tracker(tracker::types::CommandView::Stop) => "tracker.stop"@,
        CommandView::Executor(executor::CommandView::RunShell { .. }) => "executor.run_shell"@,
        CommandView::Executor(executor::CommandView::Stop) => "executor.stop"@,
        CommandView::Radio(radio::CommandView::Run { .. }) => "radio.run"@,
        CommandView::Radio(radio::CommandView::Stop) => "radio.stop"@,
    }
}

pub fn command_name(cmd: &Command) -> (r: &'static str)
    ensures
        r@ == command_label(cmd@),
{
    match cmd {
        Command::Tracker(tracker::Command::RotatorPark { .. }) => "tracker.rotator_park",
        Command::Tracker(tracker::Command::Run(_)) => "tracker.run",
        Command::Tracker(tracker::Command::Stop) => "tracker.stop",
        Command::Executor(executor::Command::RunShell { .. }) => "executor.run_shell",
        Command::Executor(executor::Command::Stop) => "executor.stop",
        Command::Radio(radio::Command::Run { .. }) => "radio.run",
        Command::Radio(radio::Command::Stop) => "radio.stop",
    }
}

/// Whether every step's time resolves to an instant that `Instant` can hold.
pub open spec fn times_resolvable(s: ScheduleView) -> bool {
    forall|k: int| 0 <= k < s.steps.len() ==> ((#[trigger] s.steps[k]).time matches Some(te) ==> i128::MIN
        <= te.resolved(s.start) <= i128::MAX)
}

impl Schedule {
    /// Whether every step's time resolves to an instant that `Instant` can hold.
    pub fn times_resolvable(&self) -> (r: bool)
        ensures
            r == times_resolvable(self@),
    {
        let mut k: usize = 0;
        while k < self.steps.len()
            invariant
                k <= self.steps@.len(),
                forall|j: int| 0 <= j < k ==> ((#[trigger] self@.steps[j]).time matches Some(te) ==> i128::MIN
                    <= te.resolved(self.start) <= i128::MAX),
            decreases self.steps@.len() - k,
        {
            match self.steps[k].time {
                Some(TimeExpr::Relative(d)) => {
                    let s = self.start.unix_nanos;
                    if (d > 0 && s > i128::MAX - d) || (d < 0 && s < i128::MIN - d) {
                        assert(!(i128::MIN <= self@.steps[k as int].time->Some_0.resolved(self.start) <= i128::MAX));
                        return false;
                    }
                },
                _ => {},
            }
            k += 1;
        }
        true
    }
}

} // verus!
