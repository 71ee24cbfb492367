use vstd::prelude::*;
use vstd::string::{StrSliceExecFns, StringExecFns};

use crate::utils::text::{lowercase, trim_to_string, trimmed, unicode_lowercase, utf8_to_string};

verus! {

/// The text of a command line: its bytes as UTF-8 (nothing where they are not), trimmed.
pub open spec fn command_text(line: Seq<u8>) -> Seq<char> {
    trimmed(if vstd::utf8::valid_utf8(line) { vstd::utf8::decode_utf8(line) } else { Seq::empty() })
}

/// The host a command dials: where the command in lower case starts with "atdt", the
/// rest of it, trimmed.
pub open spec fn dial_target(lowered: Seq<char>) -> Option<Seq<char>> {
    if lowered.len() >= 4 && lowered.subrange(0, 4) == seq!['a', 't', 'd', 't'] {
        Some(trimmed(lowered.subrange(4, lowered.len() as int)))
    } else {
        None
    }
}

/// What the modem makes of a command: dial a host, or answer that it does not know it.
pub enum ModemCommand {
    Dial(String),
    Unknown,
}

/// The line the modem is reading from the serial line.
pub struct ModemLine {
    pub buf: Vec<u8>,
}

impl ModemLine {
    /// An empty line.
    pub fn new() -> (r: ModemLine)
        ensures
            r.buf@ == Seq::<u8>::empty(),
    {
        ModemLine { buf: Vec::new() }
    }

    /// One byte from the serial line: a line feed or carriage return ends the line (and is
    /// echoed as CR LF where the line is not empty); any other byte is echoed and kept.
    /// Returns what to echo and, at the end of a line, the line.
    pub fn input_byte(&mut self, byte: u8) -> (r: (Vec<u8>, Option<Vec<u8>>))
        ensures
            byte == 10 || byte == 13 ==> final(self).buf@ == Seq::<u8>::empty() && (r.1 matches Some(l) && l@
                == old(self).buf@) && r.0@ == (if old(self).buf@.len() > 0 { seq![13u8, 10u8] } else { Seq::empty() }),
            byte != 10 && byte != 13 ==> final(self).buf@ == old(self).buf@.push(byte) && r.1 is None && r.0@ == seq![
                byte,
            ],
    {
        if byte == 10 || byte == 13 {
            let mut echo: Vec<u8> = Vec::new();
            if self.buf.len() > 0 {
                echo.push(13);
                echo.push(10);
            }
            let line = self.buf.clone();
            self.buf = Vec::new();
            assert(echo@ =~= (if old(self).buf@.len() > 0 { seq![13u8, 10u8] } else { Seq::<u8>::empty() }));
            (echo, Some(line))
        } else {
            self.buf.push(byte);
            let mut echo: Vec<u8> = Vec::new();
            echo.push(byte);
            assert(echo@ =~= seq![byte]);
            (echo, None)
        }
    }
}

/// The host that a command in lower case dials: what follows "atdt", trimmed.
pub fn dial_command(lowered: &str) -> (r: Option<String>)
    ensures
        match dial_target(lowered@) {
            Some(host) => r matches Some(h) && h@ == host,
            None => r is None,
        },
{
    let n = lowered.unicode_len();
    if n >= 4 {
        let a = lowered.get_char(0);
        let b = lowered.get_char(1);
        let c = lowered.get_char(2);
        let d = lowered.get_char(3);
        if a == 'a' && b == 't' && c == 'd' && d == 't' {
            assert(lowered@.subrange(0, 4) =~= seq!['a', 't', 'd', 't']);
            let rest = lowered.substring_char(4, n);
            return Some(trim_to_string(rest));
        }
        assert(lowered@.subrange(0, 4) != seq!['a', 't', 'd', 't']) by {
            if lowered@.subrange(0, 4) == seq!['a', 't', 'd', 't'] {
                assert(lowered@.subrange(0, 4)[0] == lowered@[0]);
                assert(lowered@.subrange(0, 4)[1] == lowered@[1]);
                assert(lowered@.subrange(0, 4)[2] == lowered@[2]);
                assert(lowered@.subrange(0, 4)[3] == lowered@[3]);
            }
        }
    }
    None
}

/// What the modem does with a command line: "ATDT host" (in any case) dials the host.
pub fn parse_command(line: Vec<u8>) -> (r: ModemCommand)
    ensures
        match dial_target(unicode_lowercase(command_text(line@))) {
            Some(host) => r matches ModemCommand::Dial(h) && h@ == host,
            None => r is Unknown,
        },
{
    let text = match utf8_to_string(line) {
        Some(s) => s,
        None => String::new(),
    };
    let t = trim_to_string(text.as_str());
    let lowered = lowercase(t.as_str());
    match dial_command(lowered.as_str()) {
        Some(host) => ModemCommand::Dial(host),
        None => ModemCommand::Unknown,
    }
}

/// How dialling a host went.
pub enum DialOutcome {
    Connected,
    TimedOut,
    Failed(String),
}

/// What the modem answers a command line: to a dial, that it is connecting to the host and,
/// once dialling is over, how it went; to any other command, that it does not know it.
pub fn command_reply(command: &ModemCommand, outcome: Option<&DialOutcome>) -> (r: String)
    ensures
        match *command {
            ModemCommand::Dial(host) => r@ == "Connecting to "@ + host@ + "...\r\n"@ + match outcome {
                Some(DialOutcome::Connected) => "OK: Connected to "@ + host@ + "\r\n"@,
                Some(DialOutcome::TimedOut) => "ERR: Connect timed out.\r\n"@,
                Some(DialOutcome::Failed(e)) => "ERR: Failed to connect: "@ + e@ + "\r\n"@,
                None => Seq::<char>::empty(),
            },
            ModemCommand::Unknown => r@ == "ERR: unknown command\r\n"@,
        },
{
    match command {
        ModemCommand::Dial(host) => {
            let mut r = String::from_str("Connecting to ");
            r.append(host.as_str());
            r.append("...\r\n");
            let ghost head = r@;
            match outcome {
                Some(DialOutcome::Connected) => {
                    r.append("OK: Connected to ");
                    r.append(host.as_str());
                    r.append("\r\n");
                },
                Some(DialOutcome::TimedOut) => {
                    r.append("ERR: Connect timed out.\r\n");
                },
                Some(DialOutcome::Failed(e)) => {
                    r.append("ERR: Failed to connect: ");
                    r.append(e.as_str());
                    r.append("\r\n");
                },
                None => {
                    assert(r@ =~= head + Seq::<char>::empty());
                },
            }
            r
        },
        ModemCommand::Unknown => String::from_str("ERR: unknown command\r\n"),
    }
}

} // verus!
