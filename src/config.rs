//! Startup configuration: the positional arguments, the handler they select,
//! the startup line, and the downstream address.
use vstd::prelude::*;
use url::{ParseError, Url};
use crate::relay::TransferMode;
use crate::text::{decimal, decimal_text, push_decimal};

verus! {

#[verifier::external_type_specification]
#[verifier::external_body]
pub struct ExUrl(Url);

#[verifier::external_type_specification]
#[verifier::external_body]
pub struct ExParseError(ParseError);

/// Which handler serves the single route.
#[derive(Clone, Copy, PartialEq, Eq, Debug, Structural)]
pub enum Handler {
    /// Print each body and answer with an empty reply.
    Sink,
    /// Forward each upload to the destination port in the given mode.
    Forward { destination: u16, mode: TransferMode },
}

/// Why the arguments do not make a configuration.
#[derive(Clone, Copy, PartialEq, Eq, Debug, Structural)]
pub enum ConfigError {
    MissingListenPort,
    InvalidListenPort,
    InvalidDestinationPort,
    /// A destination was given without a mode flag.
    MissingMode,
    /// The mode flag is neither `--buffered` nor `--streaming`.
    InvalidMode,
}

/// The process's configuration.
#[derive(Clone, Copy, PartialEq, Eq, Debug, Structural)]
pub struct ServerConfig {
    pub listen_port: u16,
    pub handler: Handler,
}

pub const BUFFERED_FLAG: &'static str = "--buffered";

pub const STREAMING_FLAG: &'static str = "--streaming";

pub open spec fn is_digit(c: char) -> bool {
    '0' <= c && c <= '9'
}

/// The number that a string of decimal digits writes.
pub open spec fn digits_value(s: Seq<char>) -> nat
    decreases s.len(),
{
    if s.len() == 0 {
        0
    } else {
        digits_value(s.drop_last()) * 10 + (s.last() as u32 - '0' as u32) as nat
    }
}

/// The text without one leading `+`.
pub open spec fn unsigned_part(s: Seq<char>) -> Seq<char> {
    if s.len() > 0 && s[0] == '+' {
        s.drop_first()
    } else {
        s
    }
}

/// The port that a text writes: decimal digits, at least one, after an
/// optional `+`, with a value that fits in 16 bits.
pub open spec fn port_of(s: Seq<char>) -> Option<u16> {
    let d = unsigned_part(s);
    if d.len() > 0 && (forall|i: int| 0 <= i < d.len() ==> is_digit(#[trigger] d[i]))
        && digits_value(d) <= u16::MAX {
        Some(digits_value(d) as u16)
    } else {
        None
    }
}

/// The mode that a flag names.
pub open spec fn mode_of(flag: Seq<char>) -> Option<TransferMode> {
    if flag == BUFFERED_FLAG@ {
        Some(TransferMode::Buffered)
    } else if flag == STREAMING_FLAG@ {
        Some(TransferMode::Streaming)
    } else {
        None
    }
}

/// The handler that a destination and a mode flag select.
pub open spec fn handler_of(destination: Option<u16>, flag: Option<Seq<char>>) -> Result<Handler, ConfigError> {
    match destination {
        None => Ok(Handler::Sink),
        Some(p) => match flag {
            None => Err(ConfigError::MissingMode),
            Some(f) => match mode_of(f) {
                Some(m) => Ok(Handler::Forward { destination: p, mode: m }),
                None => Err(ConfigError::InvalidMode),
            },
        },
    }
}

/// The configuration that the arguments (after the program's name) give:
/// the listening port, then an optional destination port, then the mode flag.
/// Arguments after the third are not read.
pub open spec fn config_of(args: Seq<Seq<char>>) -> Result<ServerConfig, ConfigError> {
    if args.len() == 0 {
        Err(ConfigError::MissingListenPort)
    } else if port_of(args[0]) is None {
        Err(ConfigError::InvalidListenPort)
    } else if args.len() > 1 && port_of(args[1]) is None {
        Err(ConfigError::InvalidDestinationPort)
    } else {
        let destination = if args.len() > 1 { port_of(args[1]) } else { None };
        let flag = if args.len() > 2 { Some(args[2]) } else { None };
        match handler_of(destination, flag) {
            Ok(h) => Ok(ServerConfig { listen_port: port_of(args[0])->0, handler: h }),
            Err(e) => Err(e),
        }
    }
}

proof fn lemma_digits_value_prefix(d: Seq<char>, k: int)
    requires
        0 <= k <= d.len(),
    ensures
        digits_value(d.subrange(0, k)) <= digits_value(d),
    decreases d.len(),
{
    if k < d.len() {
        lemma_digits_value_prefix(d.drop_last(), k);
        assert(d.drop_last().subrange(0, k) =~= d.subrange(0, k));
    } else {
        assert(d.subrange(0, k) =~= d);
    }
}

/// Reads a port number from its decimal text.
pub fn parse_port(text: &str) -> (r: Option<u16>)
    ensures
        r == port_of(text@),
{
    let n = text.unicode_len();
    let mut start: usize = 0;
    if n > 0 && text.get_char(0) == '+' {
        start = 1;
    }
    let ghost d = unsigned_part(text@);
    assert(d =~= text@.subrange(start as int, n as int));
    if start == n {
        return None;
    }
    let mut value: u32 = 0;
    let mut i: usize = start;
    while i < n
        invariant
            start <= i <= n,
            n == text@.len(),
            d == text@.subrange(start as int, n as int),
            d == unsigned_part(text@),
            value <= u16::MAX,
            value == digits_value(d.subrange(0, i - start)),
            forall|j: int| 0 <= j < i - start ==> is_digit(#[trigger] d[j]),
        decreases n - i,
    {
        let c = text.get_char(i);
        if !('0' <= c && c <= '9') {
            assert(!is_digit(d[i - start]));
            assert(port_of(text@) is None);
            return None;
        }
        assert(d.subrange(0, i - start + 1).drop_last() =~= d.subrange(0, i - start));
        value = value * 10 + (c as u32 - '0' as u32);
        i = i + 1;
        assert(value == digits_value(d.subrange(0, i - start)));
        if value > 65535 {
            proof {
                lemma_digits_value_prefix(d, i - start);
            }
            assert(digits_value(d) > u16::MAX);
            assert(port_of(text@) is None);
            return None;
        }
    }
    assert(d.subrange(0, i - start) =~= d);
    Some(value as u16)
}

fn same_text(a: &str, b: &str) -> (r: bool)
    ensures
        r == (a@ == b@),
{
    let n = a.unicode_len();
    if n != b.unicode_len() {
        return false;
    }
    let mut i: usize = 0;
    while i < n
        invariant
            i <= n,
            n == a@.len(),
            n == b@.len(),
            forall|j: int| 0 <= j < i ==> a@[j] == b@[j],
        decreases n - i,
    {
        if a.get_char(i) != b.get_char(i) {
            return false;
        }
        i = i + 1;
    }
    assert(a@ =~= b@);
    true
}

/// The mode that a flag names, if it names one.
pub fn mode_from_flag(flag: &str) -> (r: Option<TransferMode>)
    ensures
        r == mode_of(flag@),
{
    if same_text(flag, BUFFERED_FLAG) {
        Some(TransferMode::Buffered)
    } else if same_text(flag, STREAMING_FLAG) {
        Some(TransferMode::Streaming)
    } else {
        None
    }
}

/// Selects the handler: the sink without a destination, else a forwarder in
/// the mode that the flag names.
pub fn select_handler(destination: Option<u16>, flag: Option<&str>) -> (r: Result<Handler, ConfigError>)
    ensures
        r == handler_of(destination, match flag {
            Some(f) => Some(f@),
            None => None,
        }),
{
    match destination {
        None => Ok(Handler::Sink),
        Some(p) => match flag {
            None => Err(ConfigError::MissingMode),
            Some(f) => match mode_from_flag(f) {
                Some(m) => Ok(Handler::Forward { destination: p, mode: m }),
                None => Err(ConfigError::InvalidMode),
            },
        },
    }
}

/// Reads the configuration from the arguments that follow the program's name.
pub fn parse_args(args: &Vec<String>) -> (r: Result<ServerConfig, ConfigError>)
    ensures
        r == config_of(args@.map_values(|a: String| a@)),
{
    let ghost views = args@.map_values(|a: String| a@);
    if args.len() == 0 {
        return Err(ConfigError::MissingListenPort);
    }
    let listen_port = match parse_port(args[0].as_str()) {
        Some(p) => p,
        None => return Err(ConfigError::InvalidListenPort),
    };
    let destination = if args.len() > 1 {
        match parse_port(args[1].as_str()) {
            Some(p) => Some(p),
            None => return Err(ConfigError::InvalidDestinationPort),
        }
    } else {
        None
    };
    let flag = if args.len() > 2 {
        Some(args[2].as_str())
    } else {
        None
    };
    match select_handler(destination, flag) {
        Ok(handler) => Ok(ServerConfig { listen_port, handler }),
        Err(e) => Err(e),
    }
}

/// The line printed once at startup.
pub open spec fn startup_line_of(config: ServerConfig, pid: u32) -> Seq<char> {
    match config.handler {
        Handler::Sink => "listening on "@ + decimal(config.listen_port as nat) + " (PID "@
            + decimal(pid as nat) + ")"@,
        Handler::Forward { destination, .. } => "proxying "@ + decimal(config.listen_port as nat)
            + " -> "@ + decimal(destination as nat) + " (PID "@ + decimal(pid as nat) + ")"@,
    }
}

/// The line printed once at startup, given the process id.
pub fn startup_line(config: ServerConfig, pid: u32) -> (r: String)
    ensures
        r@ == startup_line_of(config, pid),
{
    let mut line = match config.handler {
        Handler::Sink => {
            let mut s = String::from_str("listening on ");
            push_decimal(&mut s, config.listen_port as u32);
            s
        },
        Handler::Forward { destination, .. } => {
            let mut s = String::from_str("proxying ");
            push_decimal(&mut s, config.listen_port as u32);
            s.append(" -> ");
            push_decimal(&mut s, destination as u32);
            s
        },
    };
    line.append(" (PID ");
    push_decimal(&mut line, pid);
    line.append(")");
    proof {
        assert(line@ =~= startup_line_of(config, pid));
    }
    line
}

/// The text of the downstream address for a port.
pub open spec fn destination_text_of(port: u16) -> Seq<char> {
    "http://127.0.0.1:"@ + decimal(port as nat) + "/"@
}

/// Whether `Url::parse` accepts a text.
pub uninterp spec fn url_parses(s: Seq<char>) -> bool;

/// Relies on `url::Url::parse`: whether it accepts the text depends on the
/// text alone.
#[verifier::external_body]
fn parse_url(s: &str) -> (r: Result<Url, ParseError>)
    ensures
        r is Ok == url_parses(s@),
{
    Url::parse(s)
}

/// The text of the downstream address for a port.
pub fn destination_text(port: u16) -> (r: String)
    ensures
        r@ == destination_text_of(port),
{
    let mut s = String::from_str("http://127.0.0.1:");
    push_decimal(&mut s, port as u32);
    s.append("/");
    s
}

/// The downstream address for a port, where the URL parser accepts its text.
pub fn destination_url(port: u16) -> (r: Option<Url>)
    ensures
        r is Some == url_parses(destination_text_of(port)),
{
    let text = destination_text(port);
    match parse_url(text.as_str()) {
        Ok(u) => Some(u),
        Err(_) => None,
    }
}

} // verus!
