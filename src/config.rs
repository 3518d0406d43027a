//! Startup configuration: the broadcast target, what verbose mode reports,
//! and the range checks on numeric options.
use vstd::prelude::*;

verus! {

pub const DEFAULT_EVENT_NAME: &'static str = "update";

pub const MIN_EVENT_PORT: u16 = 1024;

pub const MAX_EVENT_PORT: u16 = 65535;

pub const DEFAULT_EVENT_PORT: u16 = 2133;

pub const MIN_NOTIFY_PERIOD: u64 = 100;

pub const MAX_NOTIFY_PERIOD: u64 = 3600000;

pub const DEFAULT_NOTIFY_PERIOD: u64 = 1000;

pub open spec fn is_digit(c: char) -> bool {
    '0' <= c && c <= '9'
}

/// The value of a run of decimal digits.
pub open spec fn digits_value(s: Seq<char>) -> int
    decreases s.len(),
{
    if s.len() == 0 {
        0
    } else {
        digits_value(s.drop_last()) * 10 + (s.last() as int - '0' as int)
    }
}

/// The digits of a decimal numeral: what follows an optional leading `+`.
pub open spec fn unsigned_digits(s: Seq<char>) -> Seq<char> {
    if s.len() > 0 && s[0] == '+' {
        s.drop_first()
    } else {
        s
    }
}

/// Whether `s` is a decimal numeral whose value fits in a `u64`.
pub open spec fn is_u64_numeral(s: Seq<char>) -> bool {
    let d = unsigned_digits(s);
    d.len() > 0 && (forall|i: int| 0 <= i < d.len() ==> is_digit(#[trigger] d[i])) && digits_value(
        d,
    ) <= u64::MAX
}

/// Relies on `str::parse::<u64>`, which accepts exactly an optional `+`
/// followed by one or more ASCII digits whose value fits in a `u64`.
#[verifier::external_body]
fn parse_u64(s: &str) -> (r: Option<u64>)
    ensures
        r is Some <==> is_u64_numeral(s@),
        r is Some ==> r->0 as int == digits_value(unsigned_digits(s@)),
{
    s.parse::<u64>().ok()
}

/// Accepts `arg` when it is a decimal numeral whose value lies in
/// `min..=max`; otherwise fails with `err_msg`.
pub fn validate_minmax(arg: String, min: u64, max: u64, err_msg: String) -> (r: Result<(), String>)
    ensures
        r is Ok <==> (is_u64_numeral(arg@) && min <= digits_value(unsigned_digits(arg@))
            <= max),
        r is Err ==> r->Err_0 == err_msg,
{
    if let Some(v) = parse_u64(arg.as_str()) {
        if v >= min && v <= max {
            return Ok(());
        }
    }
    Err(err_msg)
}

/// A Server-Sent Event: its name and the port it is broadcast on.
#[derive(Clone, Debug)]
pub struct Event {
    name: String,
    port: u16,
}

impl Event {
    pub closed spec fn spec_name(&self) -> Seq<char> {
        self.name@
    }

    pub closed spec fn spec_port(&self) -> u16 {
        self.port
    }

    pub fn new(name: String, port: u16) -> (e: Event)
        ensures
            e.spec_name() == name@,
            e.spec_port() == port,
    {
        Event { name, port }
    }

    pub fn name(&self) -> (r: &String)
        ensures
            r@ == self.spec_name(),
    {
        &self.name
    }

    pub fn port(&self) -> (r: u16)
        ensures
            r == self.spec_port(),
    {
        self.port
    }
}

/// The broadcast target given the options: none without the signal flag;
/// otherwise the given name and port, each defaulting when absent.
pub fn event_out(signal: bool, name: Option<String>, port: Option<u16>) -> (r: Option<Event>)
    ensures
        !signal ==> r is None,
        signal ==> r is Some,
        signal ==> r->0.spec_name() == (match name {
            Some(n) => n@,
            None => "update"@,
        }),
        signal ==> r->0.spec_port() == (match port {
            Some(p) => p,
            None => 2133u16,
        }),
{
    if !signal {
        return None;
    }
    let name = match name {
        Some(n) => n,
        None => String::from_str("update"),
    };
    let port = match port {
        Some(p) => p,
        None => DEFAULT_EVENT_PORT,
    };
    Some(Event::new(name, port))
}

/// The notification period given the option, defaulting when absent.
pub fn notify_period(period: Option<u64>) -> (r: u64)
    ensures
        r == (match period {
            Some(p) => p,
            None => 1000u64,
        }),
{
    match period {
        Some(p) => p,
        None => DEFAULT_NOTIFY_PERIOD,
    }
}

/// The words of `words` joined by single spaces.
pub open spec fn joined(words: Seq<Seq<char>>) -> Seq<char>
    decreases words.len(),
{
    if words.len() == 0 {
        Seq::empty()
    } else if words.len() == 1 {
        words[0]
    } else {
        joined(words.drop_last()) + " "@ + words.last()
    }
}

pub open spec fn views(v: Seq<String>) -> Seq<Seq<char>> {
    v.map_values(|s: String| s@)
}

/// Joins the words with single spaces.
pub fn join_words(words: &Vec<String>) -> (r: String)
    ensures
        r@ == joined(views(words@)),
{
    let mut out = String::new();
    let mut i: usize = 0;
    while i < words.len()
        invariant
            0 <= i <= words@.len(),
            out@ == joined(views(words@.subrange(0, i as int))),
        decreases words@.len() - i,
    {
        proof {
            assert(views(words@.subrange(0, i + 1)).drop_last() == views(
                words@.subrange(0, i as int),
            ));
            assert(views(words@.subrange(0, i + 1)).last() == words@[i as int]@);
        }
        if i > 0 {
            out.append(" ");
        }
        out.append(words[i].as_str());
        i = i + 1;
    }
    proof {
        assert(words@.subrange(0, words@.len() as int) == words@);
    }
    out
}

/// What verbose mode reports on each update.
#[derive(Clone, Debug)]
pub struct VerboseInfo {
    event_out: Option<Event>,
    sub_cmd_repr: Option<String>,
}

impl VerboseInfo {
    pub closed spec fn spec_event_out(&self) -> Option<Event> {
        self.event_out
    }

    pub closed spec fn spec_sub_cmd_repr(&self) -> Option<Seq<char>> {
        match self.sub_cmd_repr {
            Some(s) => Some(s@),
            None => None,
        }
    }

    /// The report when `verbose` is set: the broadcast target, if any, and
    /// the command line joined by spaces, if there is one. Nothing otherwise.
    pub fn new(event_out: &Option<Event>, verbose: bool, sub_cmd_args: &Vec<String>) -> (v:
        VerboseInfo)
        ensures
            v.spec_event_out() == (if verbose {
                *event_out
            } else {
                None
            }),
            v.spec_sub_cmd_repr() == (if verbose && sub_cmd_args@.len() > 0 {
                Some(joined(views(sub_cmd_args@)))
            } else {
                None
            }),
    {
        let event_out = if verbose {
            match event_out {
                Some(e) => Some(Event { name: e.name.clone(), port: e.port }),
                None => None,
            }
        } else {
            None
        };
        let sub_cmd_repr = if verbose && sub_cmd_args.len() > 0 {
            Some(join_words(sub_cmd_args))
        } else {
            None
        };
        VerboseInfo { event_out, sub_cmd_repr }
    }

    pub fn event_out(&self) -> (r: &Option<Event>)
        ensures
            *r == self.spec_event_out(),
    {
        &self.event_out
    }

    pub fn sub_cmd_repr(&self) -> (r: &Option<String>)
        ensures
            r is Some <==> self.spec_sub_cmd_repr() is Some,
            r is Some ==> r->0@ == self.spec_sub_cmd_repr()->0,
    {
        &self.sub_cmd_repr
    }
}

} // verus!
