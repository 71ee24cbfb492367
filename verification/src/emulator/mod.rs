use vstd::prelude::*;
use vstd::string::StrSliceExecFns;

use crate::errors::Error;
use crate::utils::text::{index_of_from, lowercase, str_eq, unicode_lowercase};

verus! {

/// A reset that keeps memory (warm) or clears it (cold).
#[derive(Debug, Clone, Copy, PartialEq, Eq, Structural)]
pub enum ResetType {
    Cold,
    Warm,
}

/// A kind of machine that can be emulated: its display name and its id.
#[derive(Debug, Clone, Copy, PartialEq, Eq)]
pub struct EmulatorTargetType {
    pub name: &'static str,
    pub id: &'static str,
}

/// How the emulator starts: halted, or running.
#[derive(Debug, Clone, Copy, PartialEq, Eq, Structural)]
pub struct Config {
    pub halt_at_start: bool,
}

/// The host's audio output.
#[derive(Debug, Clone, Copy, PartialEq, Eq, Structural)]
pub struct AudioConfig {
    pub sample_rate: u32,
    pub channels: u16,
}

} // verus!

verus! {

/// The value of a digit character in `radix` (10 or 16), if it is one.
pub open spec fn digit_value(c: char, radix: nat) -> Option<nat> {
    let u = c as u32;
    if 48 <= u <= 57 && u - 48 < radix {
        Some((u - 48) as nat)
    } else if radix == 16 && 97 <= u <= 102 {
        Some((u - 87) as nat)
    } else if radix == 16 && 65 <= u <= 70 {
        Some((u - 55) as nat)
    } else {
        None
    }
}

/// The number that digits spell in `radix`, if they are all digits (none for no digits).
pub open spec fn digits_value(ds: Seq<char>, radix: nat) -> Option<nat>
    decreases ds.len(),
{
    if ds.len() == 0 {
        None
    } else {
        match digit_value(ds.last(), radix) {
            None => None,
            Some(d) => if ds.len() == 1 {
                Some(d)
            } else {
                match digits_value(ds.drop_last(), radix) {
                    None => None,
                    Some(v) => Some(v * radix + d),
                }
            },
        }
    }
}

/// What `usize::from_str_radix` gives: the number an optional '+' and digits spell, where it
/// fits in a `usize`.
pub open spec fn from_str_radix_spec(s: Seq<char>, radix: nat) -> Option<usize> {
    let ds = if s.len() > 0 && s[0] == '+' { s.drop_first() } else { s };
    match digits_value(ds, radix) {
        Some(v) => if v <= usize::MAX { Some(v as usize) } else { None },
        None => None,
    }
}

/// `s` without every leading "0x".
pub open spec fn trim_hex_prefixes(s: Seq<char>) -> Seq<char>
    decreases s.len(),
{
    if s.len() >= 2 && s[0] == '0' && s[1] == 'x' {
        trim_hex_prefixes(s.subrange(2, s.len() as int))
    } else {
        s
    }
}

/// The number a debugger argument spells: in lower case, hexadecimal after "0x", else
/// decimal.
pub open spec fn integer_literal_spec(s: Seq<char>) -> Option<usize> {
    lowered_integer_spec(unicode_lowercase(s))
}

/// The number a debugger argument already in lower case spells: hexadecimal after "0x",
/// else decimal.
pub open spec fn lowered_integer_spec(lower: Seq<char>) -> Option<usize> {
    if lower.len() >= 2 && lower[0] == '0' && lower[1] == 'x' {
        from_str_radix_spec(trim_hex_prefixes(lower), 16)
    } else {
        from_str_radix_spec(lower, 10)
    }
}

/// The position of the `k`-th space of `s` (the 0-th is just before the text), or -1 where
/// there are fewer.
pub open spec fn space_position(s: Seq<char>, k: nat) -> int
    decreases k,
{
    if k == 0 {
        -1
    } else {
        let p = space_position(s, (k - 1) as nat);
        if p < -1 || (p == -1 && k > 1) {
            -1
        } else {
            index_of_from(s, ' ', p + 1)
        }
    }
}

/// Word `k` of `s`, the words separated by single spaces, if there are that many.
pub open spec fn word(s: Seq<char>, k: nat) -> Option<Seq<char>> {
    let start = space_position(s, k);
    if k > 0 && start < 0 {
        None
    } else {
        let end = index_of_from(s, ' ', start + 1);
        Some(s.subrange(start + 1, if end < 0 { s.len() as int } else { end }))
    }
}

/// A command of the debugger's command line.
#[derive(Debug, Clone, Copy, PartialEq, Eq, Structural)]
pub enum DebugCommand {
    Quit,
    Info,
    Halt,
    Backtrace,
    /// Disassemble from the address given, or from the program counter.
    Disas(Option<usize>),
    /// Show `count` bytes of memory from `address`.
    Memory { address: usize, count: usize },
    Continue,
    Step,
    MemoryBreak(usize),
    Break(usize),
    Unknown,
}

/// Whether `s` starts with `prefix`.
pub open spec fn starts_with_chars(s: Seq<char>, prefix: Seq<char>) -> bool {
    s.len() >= prefix.len() && s.subrange(0, prefix.len() as int) == prefix
}

/// The argument at word `k` read as a number: missing, unreadable, or its value.
pub open spec fn argument_spec(s: Seq<char>, k: nat) -> Result<usize, Error> {
    match word(s, k) {
        None => Err(Error::MissingArgument),
        Some(w) => match integer_literal_spec(w) {
            None => Err(Error::InvalidInteger),
            Some(v) => Ok(v),
        },
    }
}

/// What a debugger command line means: the command words and their short forms, with
/// their arguments.
pub open spec fn parse_command_spec(c: Seq<char>) -> Result<DebugCommand, Error> {
    if c == seq!['q', 'u', 'i', 't'] || c == seq!['q'] {
        Ok(DebugCommand::Quit)
    } else if c == seq!['i', 'n', 'f', 'o'] || c == seq!['i'] {
        Ok(DebugCommand::Info)
    } else if c == seq!['h', 'a', 'l', 't'] || c == seq!['h'] {
        Ok(DebugCommand::Halt)
    } else if c == seq!['b', 't'] {
        Ok(DebugCommand::Backtrace)
    } else if c == seq!['d', 'i', 's', 'a', 's'] || c == seq!['d'] || starts_with_chars(c, seq!['d', 'i', 's', 'a', 's', ' '])
        || starts_with_chars(c, seq!['d', ' ']) {
        match word(c, 1) {
            None => Ok(DebugCommand::Disas(None)),
            Some(w) => match integer_literal_spec(w) {
                None => Err(Error::InvalidInteger),
                Some(v) => Ok(DebugCommand::Disas(Some(v))),
            },
        }
    } else if starts_with_chars(c, seq!['m', 'e', 'm', ' ']) || starts_with_chars(c, seq!['m', ' ']) {
        if word(c, 1) is None {
            Err(Error::MissingArgument)
        } else {
            let count = match word(c, 2) {
                None => Some(32usize),
                Some(w) => from_str_radix_spec(w, 10),
            };
            match count {
                None => Err(Error::InvalidInteger),
                Some(n) => match argument_spec(c, 1) {
                    Err(e) => Err(e),
                    Ok(a) => Ok(DebugCommand::Memory { address: a, count: n }),
                },
            }
        }
    } else if c == seq!['c', 'o', 'n', 't', 'i', 'n', 'u', 'e'] || c == seq!['c'] {
        Ok(DebugCommand::Continue)
    } else if c == seq!['s', 't', 'e', 'p'] || c == seq!['s'] {
        Ok(DebugCommand::Step)
    } else if starts_with_chars(c, seq!['m', 'e', 'm', 'o', 'r', 'y', 'b', 'r', 'e', 'a', 'k', ' ']) || starts_with_chars(c, seq!['m', 'b', ' ']) {
        match argument_spec(c, 1) {
            Err(e) => Err(e),
            Ok(a) => Ok(DebugCommand::MemoryBreak(a)),
        }
    } else if starts_with_chars(c, seq!['b', 'r', 'e', 'a', 'k', ' ']) || starts_with_chars(c, seq!['b', ' ']) {
        match argument_spec(c, 1) {
            Err(e) => Err(e),
            Ok(a) => Ok(DebugCommand::Break(a)),
        }
    } else {
        Ok(DebugCommand::Unknown)
    }
}

} // verus!

verus! {

proof fn lemma_digits_push(ds: Seq<char>, c: char, radix: nat)
    requires
        radix == 10 || radix == 16,
    ensures
        digits_value(ds.push(c), radix) == (match digit_value(c, radix) {
            None => None,
            Some(d) => if ds.len() == 0 {
                Some(d)
            } else {
                match digits_value(ds, radix) {
                    None => None,
                    Some(v) => Some(v * radix + d),
                }
            },
        }),
{
    assert(ds.push(c).drop_last() =~= ds);
    assert(ds.push(c).last() == c);
}

/// The digit value of `c` in `radix`.
fn digit_of(c: char, radix: u32) -> (r: Option<u32>)
    requires
        radix == 10 || radix == 16,
    ensures
        r matches Some(d) ==> d < radix && digit_value(c, radix as nat) == Some(d as nat),
        r is None ==> digit_value(c, radix as nat) is None,
{
    let u = c as u32;
    if 48 <= u && u <= 57 && u - 48 < radix {
        Some(u - 48)
    } else if radix == 16 && 97 <= u && u <= 102 {
        Some(u - 87)
    } else if radix == 16 && 65 <= u && u <= 70 {
        Some(u - 55)
    } else {
        None
    }
}

/// `usize::from_str_radix` on the characters of `s` from `start` on.
fn from_str_radix_from(s: &str, start: usize, radix: u32) -> (r: Option<usize>)
    requires
        radix == 10 || radix == 16,
        start <= s@.len(),
    ensures
        r == from_str_radix_spec(s@.subrange(start as int, s@.len() as int), radix as nat),
{
    let n = s.unicode_len();
    let ghost t = s@.subrange(start as int, n as int);
    let mut i = start;
    if i < n && s.get_char(i) == '+' {
        i += 1;
    }
    let ghost ds = s@.subrange(i as int, n as int);
    assert(ds =~= (if t.len() > 0 && t[0] == '+' { t.drop_first() } else { t }));
    let first = i;
    let mut v: u128 = 0;
    let mut valid = true;
    let mut overflow = false;
    while i < n
        invariant
            first <= i <= n,
            n == s@.len(),
            radix == 10 || radix == 16,
            ds == s@.subrange(first as int, n as int),
            i > first ==> ({
                let d = digits_value(s@.subrange(first as int, i as int), radix as nat);
                &&& !valid ==> d is None
                &&& valid && !overflow ==> d == Some(v as nat) && v <= usize::MAX
                &&& valid && overflow ==> (d matches Some(x) && x > usize::MAX)
            }),
            i == first ==> valid && !overflow && v == 0,
        decreases n - i,
    {
        let c = s.get_char(i);
        let ghost prefix = s@.subrange(first as int, i as int);
        proof {
            lemma_digits_push(prefix, c, radix as nat);
            assert(s@.subrange(first as int, i + 1) =~= prefix.push(c));
        }
        match digit_of(c, radix) {
            None => {
                valid = false;
            },
            Some(d) => {
                if valid && !overflow {
                    let nv = v * (radix as u128) + d as u128;
                    if nv > usize::MAX as u128 {
                        overflow = true;
                    } else {
                        v = nv;
                    }
                } else if valid && overflow {
                    proof {
                        let x = digits_value(prefix, radix as nat)->Some_0;
                        assert(x * radix + d > usize::MAX) by (nonlinear_arith)
                            requires
                                x > usize::MAX,
                                radix >= 10,
                        ;
                    }
                }
            },
        }
        i += 1;
    }
    if i == first || !valid || overflow {
        None
    } else {
        Some(v as usize)
    }
}

/// The number a debugger argument spells: in lower case, hexadecimal after "0x" (every
/// leading "0x" dropped), else decimal.
pub fn parse_integer_literal(s: &str) -> (r: Result<usize, Error>)
    ensures
        integer_literal_spec(s@) matches Some(v) ==> r == Ok::<usize, Error>(v),
        integer_literal_spec(s@) is None ==> r == Err::<usize, Error>(Error::InvalidInteger),
{
    let lower = lowercase(s);
    parse_lowered_integer(lower.as_str())
}

/// The number a debugger argument in lower case spells: hexadecimal after "0x" (every
/// leading "0x" dropped), else decimal.
pub fn parse_lowered_integer(l: &str) -> (r: Result<usize, Error>)
    ensures
        lowered_integer_spec(l@) matches Some(v) ==> r == Ok::<usize, Error>(v),
        lowered_integer_spec(l@) is None ==> r == Err::<usize, Error>(Error::InvalidInteger),
{
    let n = l.unicode_len();
    let parsed = if n >= 2 && l.get_char(0) == '0' && l.get_char(1) == 'x' {
        let mut i: usize = 0;
        assert(l@.subrange(0, n as int) =~= l@);
        while n - i >= 2 && l.get_char(i) == '0' && l.get_char(i + 1) == 'x'
            invariant
                i <= n,
                n == l@.len(),
                trim_hex_prefixes(l@) == trim_hex_prefixes(l@.subrange(i as int, n as int)),
            decreases n - i,
        {
            proof {
                let rest = l@.subrange(i as int, n as int);
                assert(rest.subrange(2, rest.len() as int) =~= l@.subrange(i + 2, n as int));
            }
            i += 2;
        }
        proof {
            let rest = l@.subrange(i as int, n as int);
            assert(trim_hex_prefixes(rest) == rest);
        }
        from_str_radix_from(l, i, 16)
    } else {
        assert(l@.subrange(0, n as int) =~= l@);
        from_str_radix_from(l, 0, 10)
    };
    match parsed {
        Some(v) => Ok(v),
        None => Err(Error::InvalidInteger),
    }
}

} // verus!

verus! {

/// The position of the first space of `s` from `from` on.
fn index_of_space(s: &str, from: usize) -> (r: Option<usize>)
    ensures
        r matches Some(p) ==> p as int == index_of_from(s@, ' ', from as int) && p < s@.len(),
        r is None ==> index_of_from(s@, ' ', from as int) == -1,
{
    let n = s.unicode_len();
    let mut i = from;
    if i >= n {
        return None;
    }
    while i < n
        invariant
            from <= i <= n,
            n == s@.len(),
            index_of_from(s@, ' ', from as int) == index_of_from(s@, ' ', i as int),
        decreases n - i,
    {
        if s.get_char(i) == ' ' {
            return Some(i);
        }
        i += 1;
    }
    None
}

/// Where word `k` of `s` starts, if there are that many words.
fn word_start(s: &str, k: usize) -> (r: Option<usize>)
    ensures
        k == 0 ==> r == Some(0usize),
        k > 0 && space_position(s@, k as nat) < 0 ==> r is None,
        k > 0 && space_position(s@, k as nat) >= 0 ==> r == Some((space_position(s@, k as nat) + 1) as usize),
{
    if k == 0 {
        return Some(0);
    }
    let n = s.unicode_len();
    assert(space_position(s@, 0) == -1);
    assert(space_position(s@, 1) == index_of_from(s@, ' ', 0));
    let mut j: usize = 1;
    let mut p = match index_of_space(s, 0) {
        Some(p) => p,
        None => {
            proof {
                lemma_space_position_stays(s@, 1, k as nat);
            }
            return None;
        },
    };
    while j < k
        invariant
            1 <= j <= k,
            p as int == space_position(s@, j as nat),
            p < s@.len(),
            n == s@.len(),
        decreases k - j,
    {
        assert(space_position(s@, (j + 1) as nat) == index_of_from(s@, ' ', p + 1));
        match index_of_space(s, p + 1) {
            Some(q) => {
                p = q;
            },
            None => {
                proof {
                    lemma_space_position_stays(s@, (j + 1) as nat, k as nat);
                }
                return None;
            },
        }
        j += 1;
    }
    Some(p + 1)
}

/// Past the last space, every later word is missing too.
proof fn lemma_space_position_stays(s: Seq<char>, j: nat, k: nat)
    requires
        1 <= j <= k,
        space_position(s, j) == -1,
    ensures
        space_position(s, k) == -1,
    decreases k - j,
{
    if j < k {
        lemma_space_position_stays(s, j + 1, k);
    }
}

/// Word `k` of `s`.
fn word_of(s: &str, k: usize) -> (r: Option<String>)
    ensures
        r is Some <==> word(s@, k as nat) is Some,
        r matches Some(w) ==> w@ == word(s@, k as nat)->Some_0,
{
    let n = s.unicode_len();
    match word_start(s, k) {
        None => None,
        Some(start) => {
            proof {
                if k > 0 {
                    lemma_space_position_bound(s@, k as nat);
                }
            }
            let end = match index_of_space(s, start) {
                Some(e) => e,
                None => n,
            };
            proof {
                lemma_index_of_from_bound(s@, ' ', start as int);
            }
            Some(s.substring_char(start, end).to_owned())
        },
    }
}

proof fn lemma_index_of_from_bound(s: Seq<char>, c: char, i: int)
    ensures
        index_of_from(s, c, i) == -1 || (i <= index_of_from(s, c, i) < s.len() && s[index_of_from(s, c, i)] == c),
    decreases s.len() - i,
{
    if 0 <= i < s.len() && s[i] != c {
        lemma_index_of_from_bound(s, c, i + 1);
    }
}

proof fn lemma_space_position_bound(s: Seq<char>, k: nat)
    ensures
        space_position(s, k) < s.len(),
        space_position(s, k) >= -1,
    decreases k,
{
    if k > 0 {
        lemma_space_position_bound(s, (k - 1) as nat);
        let p = space_position(s, (k - 1) as nat);
        lemma_index_of_from_bound(s, ' ', p + 1);
    }
}

/// Whether `s` starts with `prefix`.
fn starts_with(s: &str, prefix: &str) -> (r: bool)
    ensures
        r == starts_with_chars(s@, prefix@),
{
    let n = s.unicode_len();
    let m = prefix.unicode_len();
    if n < m {
        return false;
    }
    let mut i: usize = 0;
    while i < m
        invariant
            i <= m <= n,
            n == s@.len(),
            m == prefix@.len(),
            forall|k: int| 0 <= k < i ==> s@[k] == prefix@[k],
        decreases m - i,
    {
        if s.get_char(i) != prefix.get_char(i) {
            assert(s@.subrange(0, m as int)[i as int] != prefix@[i as int]);
            return false;
        }
        i += 1;
    }
    assert(s@.subrange(0, m as int) =~= prefix@);
    true
}

/// Word `k` of `s` read as a number.
fn argument(s: &str, k: usize) -> (r: Result<usize, Error>)
    ensures
        r == argument_spec(s@, k as nat),
{
    match word_of(s, k) {
        None => Err(Error::MissingArgument),
        Some(w) => parse_integer_literal(w.as_str()),
    }
}

/// Reads a debugger command line (already trimmed): the command and its arguments, or
/// why an argument cannot be read.
pub fn parse_command(c: &str) -> (r: Result<DebugCommand, Error>)
    ensures
        r == parse_command_spec(c@),
{
    proof {
        reveal_strlit("quit");
        reveal_strlit("q");
        reveal_strlit("info");
        reveal_strlit("i");
        reveal_strlit("halt");
        reveal_strlit("h");
        reveal_strlit("bt");
        reveal_strlit("disas");
        reveal_strlit("d");
        reveal_strlit("disas ");
        reveal_strlit("d ");
        reveal_strlit("mem ");
        reveal_strlit("m ");
        reveal_strlit("continue");
        reveal_strlit("c");
        reveal_strlit("step");
        reveal_strlit("s");
        reveal_strlit("memorybreak ");
        reveal_strlit("mb ");
        reveal_strlit("break ");
        reveal_strlit("b ");
        assert("quit"@ =~= seq!['q', 'u', 'i', 't']);
        assert("q"@ =~= seq!['q']);
        assert("info"@ =~= seq!['i', 'n', 'f', 'o']);
        assert("i"@ =~= seq!['i']);
        assert("halt"@ =~= seq!['h', 'a', 'l', 't']);
        assert("h"@ =~= seq!['h']);
        assert("bt"@ =~= seq!['b', 't']);
        assert("disas"@ =~= seq!['d', 'i', 's', 'a', 's']);
        assert("d"@ =~= seq!['d']);
        assert("disas "@ =~= seq!['d', 'i', 's', 'a', 's', ' ']);
        assert("d "@ =~= seq!['d', ' ']);
        assert("mem "@ =~= seq!['m', 'e', 'm', ' ']);
        assert("m "@ =~= seq!['m', ' ']);
        assert("continue"@ =~= seq!['c', 'o', 'n', 't', 'i', 'n', 'u', 'e']);
        assert("c"@ =~= seq!['c']);
        assert("step"@ =~= seq!['s', 't', 'e', 'p']);
        assert("s"@ =~= seq!['s']);
        assert("memorybreak "@ =~= seq!['m', 'e', 'm', 'o', 'r', 'y', 'b', 'r', 'e', 'a', 'k', ' ']);
        assert("mb "@ =~= seq!['m', 'b', ' ']);
        assert("break "@ =~= seq!['b', 'r', 'e', 'a', 'k', ' ']);
        assert("b "@ =~= seq!['b', ' ']);
    }
    if str_eq(c, "quit") || str_eq(c, "q") {
        Ok(DebugCommand::Quit)
    } else if str_eq(c, "info") || str_eq(c, "i") {
        Ok(DebugCommand::Info)
    } else if str_eq(c, "halt") || str_eq(c, "h") {
        Ok(DebugCommand::Halt)
    } else if str_eq(c, "bt") {
        Ok(DebugCommand::Backtrace)
    } else if str_eq(c, "disas") || str_eq(c, "d") || starts_with(c, "disas ") || starts_with(c, "d ") {
        match word_of(c, 1) {
            None => Ok(DebugCommand::Disas(None)),
            Some(w) => match parse_integer_literal(w.as_str()) {
                Ok(v) => Ok(DebugCommand::Disas(Some(v))),
                Err(e) => Err(e),
            },
        }
    } else if starts_with(c, "mem ") || starts_with(c, "m ") {
        if word_of(c, 1).is_none() {
            return Err(Error::MissingArgument);
        }
        let count = match word_of(c, 2) {
            None => Some(32usize),
            Some(w) => {
                proof {
                    assert(w@.subrange(0, w@.len() as int) =~= w@);
                }
                from_str_radix_from(w.as_str(), 0, 10)
            },
        };
        match count {
            None => Err(Error::InvalidInteger),
            Some(n) => match argument(c, 1) {
                Err(e) => Err(e),
                Ok(a) => Ok(DebugCommand::Memory { address: a, count: n }),
            },
        }
    } else if str_eq(c, "continue") || str_eq(c, "c") {
        Ok(DebugCommand::Continue)
    } else if str_eq(c, "step") || str_eq(c, "s") {
        Ok(DebugCommand::Step)
    } else if starts_with(c, "memorybreak ") || starts_with(c, "mb ") {
        match argument(c, 1) {
            Err(e) => Err(e),
            Ok(a) => Ok(DebugCommand::MemoryBreak(a)),
        }
    } else if starts_with(c, "break ") || starts_with(c, "b ") {
        match argument(c, 1) {
            Err(e) => Err(e),
            Ok(a) => Ok(DebugCommand::Break(a)),
        }
    } else {
        Ok(DebugCommand::Unknown)
    }
}

} // verus!
