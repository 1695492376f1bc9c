//! The debugger's decision core: command-word recognition, numeric
//! argument parsing (hexadecimal with a `0x` prefix, decimal otherwise),
//! the breakpoint set and the run/pause gating checked once per tick.
//! The interactive prompt around it belongs to the host loop.

use vstd::prelude::*;

verus! {

/// The debugger failed to understand a command or an argument.
#[derive(Clone, Copy, PartialEq, Eq, Structural, Debug)]
pub struct DebugError;

pub type DebugResult<T> = Result<T, DebugError>;

impl DebugError {
    /// A short description for the prompt.
    pub fn message(&self) -> &'static str {
        "Debugger encountered an error"
    }
}

/// Whether the debugger lets the processor run or holds it at a prompt.
#[derive(Clone, Copy, PartialEq, Eq, Structural, Debug)]
pub enum DebuggerState {
    Running,
    Paused,
}

/// The commands the prompt understands.
#[derive(Clone, Copy, PartialEq, Eq, Structural, Debug)]
pub enum Cmds {
    NextCmd,
    PrintCmd,
    ContinueCmd,
    BreakCmd,
    RegistersCmd,
}

/// Whether a command ends the prompt loop and lets the next tick run.
pub open spec fn spec_goto_next_cmd(cmd: Cmds) -> bool {
    match cmd {
        Cmds::NextCmd => true,
        Cmds::ContinueCmd => true,
        Cmds::PrintCmd => false,
        Cmds::BreakCmd => false,
        Cmds::RegistersCmd => false,
    }
}

/// Whether a command word ends the prompt loop.
pub fn goto_next_cmd(cmd: Cmds) -> (r: bool)
    ensures
        r == spec_goto_next_cmd(cmd),
{
    match cmd {
        Cmds::NextCmd => true,
        Cmds::ContinueCmd => true,
        _ => false,
    }
}

/// The command a prompt token names, by its short or long form.
pub open spec fn spec_parse_command(s: Seq<char>) -> Option<Cmds> {
    if s == "n"@ || s == "next"@ {
        Some(Cmds::NextCmd)
    } else if s == "p"@ || s == "print"@ {
        Some(Cmds::PrintCmd)
    } else if s == "c"@ || s == "continue"@ {
        Some(Cmds::ContinueCmd)
    } else if s == "b"@ || s == "break"@ {
        Some(Cmds::BreakCmd)
    } else if s == "r"@ || s == "registers"@ {
        Some(Cmds::RegistersCmd)
    } else {
        None
    }
}

/// Character-wise string equality.
fn str_eq(a: &str, b: &str) -> (r: bool)
    ensures
        r == (a@ == b@),
{
    let a_len = a.unicode_len();
    let b_len = b.unicode_len();
    if a_len != b_len {
        return false;
    }
    let mut i: usize = 0;
    while i < a_len
        invariant
            i <= a_len,
            a_len == a@.len(),
            b_len == b@.len(),
            a_len == b_len,
            forall|j: int| 0 <= j < i ==> a@[j] == b@[j],
        decreases a_len - i,
    {
        if a.get_char(i) != b.get_char(i) {
            return false;
        }
        i = i + 1;
    }
    proof {
        assert(a@ =~= b@);
    }
    true
}

/// Recognizes a prompt command word.
pub fn parse_command(token: &str) -> (r: Option<Cmds>)
    ensures
        r == spec_parse_command(token@),
{
    if str_eq(token, "n") || str_eq(token, "next") {
        Some(Cmds::NextCmd)
    } else if str_eq(token, "p") || str_eq(token, "print") {
        Some(Cmds::PrintCmd)
    } else if str_eq(token, "c") || str_eq(token, "continue") {
        Some(Cmds::ContinueCmd)
    } else if str_eq(token, "b") || str_eq(token, "break") {
        Some(Cmds::BreakCmd)
    } else if str_eq(token, "r") || str_eq(token, "registers") {
        Some(Cmds::RegistersCmd)
    } else {
        None
    }
}

/// The numeric value of one digit character under a radix, or -1 when
/// the character is no digit of that radix.
pub open spec fn spec_digit_val(ch: char, radix: int) -> int {
    let u = ch as u32;
    let v: int = if 0x30 <= u && u <= 0x39 {
        u - 0x30
    } else if 0x61 <= u && u <= 0x66 {
        u - 0x61 + 10
    } else if 0x41 <= u && u <= 0x46 {
        u - 0x41 + 10
    } else {
        99
    };
    if v < radix {
        v
    } else {
        -1
    }
}

/// The value of a digit string under a radix, most significant first;
/// `None` when any character is no digit. The empty string reads as 0;
/// callers reject it separately.
pub open spec fn spec_parse_digits(s: Seq<char>, radix: int) -> Option<int>
    decreases s.len(),
{
    if s.len() == 0 {
        Some(0)
    } else {
        match spec_parse_digits(s.drop_last(), radix) {
            Some(v) => {
                let d = spec_digit_val(s.last(), radix);
                if d >= 0 {
                    Some(v * radix + d)
                } else {
                    None::<int>
                }
            },
            None => None::<int>,
        }
    }
}

/// A 16-bit value parsed under a radix: an optional leading plus sign,
/// then at least one digit, and a value of at most 0xFFFF.
pub open spec fn spec_parse_radix(s: Seq<char>, radix: int) -> Option<u16> {
    let d = if s.len() >= 1 && s[0] == '+' {
        s.skip(1)
    } else {
        s
    };
    if d.len() == 0 {
        None
    } else {
        match spec_parse_digits(d, radix) {
            Some(v) => if v <= 0xffff {
                Some(v as u16)
            } else {
                None::<u16>
            },
            None => None::<u16>,
        }
    }
}

/// A string with every leading `0x` stripped, as prefix trimming has
/// always removed the marker repeatedly.
pub open spec fn spec_strip_hex_prefix(s: Seq<char>) -> Seq<char>
    decreases s.len(),
{
    if s.len() >= 2 && s[0] == '0' && s[1] == 'x' {
        spec_strip_hex_prefix(s.skip(2))
    } else {
        s
    }
}

/// What `parse_val` accepts: with a `0x` marker the remainder reads as
/// hexadecimal, anything else as decimal.
pub open spec fn spec_parse_val(s: Seq<char>) -> Option<u16> {
    if s.len() >= 2 && s[0] == '0' && s[1] == 'x' {
        spec_parse_radix(spec_strip_hex_prefix(s), 16)
    } else {
        spec_parse_radix(s, 10)
    }
}

/// A digit string whose prefix already fails to parse fails as a whole.
proof fn lemma_parse_digits_none(t: Seq<char>, j: int, radix: int)
    requires
        0 <= j <= t.len(),
        spec_parse_digits(t.subrange(0, j), radix) == None::<int>,
    ensures
        spec_parse_digits(t, radix) == None::<int>,
    decreases t.len() - j,
{
    if j < t.len() {
        assert(t.subrange(0, j + 1).drop_last() =~= t.subrange(0, j));
        assert(spec_parse_digits(t.subrange(0, j + 1), radix) == None::<int>);
        lemma_parse_digits_none(t, j + 1, radix);
    } else {
        assert(t.subrange(0, t.len() as int) =~= t);
    }
}

/// Appending digits never shrinks a digit string's value.
proof fn lemma_parse_digits_lower_bound(t: Seq<char>, j: int, radix: int, v: int)
    requires
        0 <= j <= t.len(),
        radix >= 2,
        v >= 0,
        spec_parse_digits(t.subrange(0, j), radix) == Some(v),
    ensures
        spec_parse_digits(t, radix) matches Some(w) ==> w >= v,
    decreases t.len() - j,
{
    if j < t.len() {
        assert(t.subrange(0, j + 1).drop_last() =~= t.subrange(0, j));
        let d = spec_digit_val(t[j], radix);
        if d >= 0 {
            assert(v * radix + d >= v) by (nonlinear_arith)
                requires
                    v >= 0,
                    radix >= 2,
                    d >= 0,
            ;
            lemma_parse_digits_lower_bound(t, j + 1, radix, v * radix + d);
        } else {
            lemma_parse_digits_none(t, j + 1, radix);
        }
    } else {
        assert(t.subrange(0, t.len() as int) =~= t);
    }
}

/// One digit character's value, or `None` when it is no digit of the
/// active radix.
fn digit_val(ch: char, hex: bool) -> (r: Option<u8>)
    ensures
        match r {
            Some(d) => spec_digit_val(ch, if hex { 16int } else { 10int }) == d,
            None => spec_digit_val(ch, if hex { 16int } else { 10int }) == -1,
        },
{
    let u = ch as u32;
    if 0x30 <= u && u <= 0x39 {
        Some((u - 0x30) as u8)
    } else if hex && 0x61 <= u && u <= 0x66 {
        Some((u - 0x61 + 10) as u8)
    } else if hex && 0x41 <= u && u <= 0x46 {
        Some((u - 0x41 + 10) as u8)
    } else {
        None
    }
}

/// Parses a bus address or value: hexadecimal after a `0x` marker,
/// decimal otherwise; values above 0xFFFF and malformed strings are
/// rejected.
pub fn parse_val(s: &str) -> (r: DebugResult<u16>)
    ensures
        match r {
            Ok(v) => spec_parse_val(s@) == Some(v),
            Err(_) => spec_parse_val(s@) == None::<u16>,
        },
{
    let len = s.unicode_len();
    let hex = len >= 2 && s.get_char(0) == '0' && s.get_char(1) == 'x';
    let ghost radix: int = if hex { 16 } else { 10 };
    let mut i: usize = 0;
    proof {
        assert(s@.skip(0int) =~= s@);
    }
    if hex {
        while i < len && i + 1 < len && s.get_char(i) == '0' && s.get_char(i + 1) == 'x'
            invariant
                i <= len,
                len == s@.len(),
                spec_strip_hex_prefix(s@.skip(i as int)) == spec_strip_hex_prefix(s@),
            decreases len - i,
        {
            proof {
                let rest = s@.skip(i as int);
                assert(rest[0] == s@[i as int]);
                assert(rest[1] == s@[i as int + 1]);
                assert(rest.skip(2) =~= s@.skip(i as int + 2));
            }
            i = i + 2;
        }
        proof {
            let rest = s@.skip(i as int);
            if rest.len() >= 2 {
                assert(rest[0] == s@[i as int]);
                assert(rest[1] == s@[i as int + 1]);
            }
            assert(spec_strip_hex_prefix(rest) == rest);
        }
    }
    let ghost t: Seq<char> = if hex {
        spec_strip_hex_prefix(s@)
    } else {
        s@
    };
    proof {
        assert(t =~= s@.skip(i as int));
    }
    if i < len && s.get_char(i) == '+' {
        i = i + 1;
    }
    let ghost d: Seq<char> = s@.skip(i as int);
    proof {
        if t.len() >= 1 && t[0] == '+' {
            assert(d =~= t.skip(1));
        } else {
            assert(d =~= t);
        }
    }
    if i == len {
        return Err(DebugError);
    }
    let ghost start = i as int;
    let mut acc: u32 = 0;
    while i < len
        invariant
            0 <= start <= i as int <= len,
            len == s@.len(),
            d == s@.skip(start),
            acc <= 0xffff,
            hex ==> radix == 16,
            !hex ==> radix == 10,
            spec_parse_digits(d.subrange(0, i - start), radix) == Some(acc as int),
            spec_parse_val(s@) == (match spec_parse_digits(d, radix) {
                Some(v) => if v <= 0xffff {
                    Some(v as u16)
                } else {
                    None::<u16>
                },
                None => None::<u16>,
            }),
        decreases len - i,
    {
        let ghost j = i - start;
        let ch = s.get_char(i);
        proof {
            assert(s@.skip(start).len() == len - start);
            assert(s@.skip(start)[j] == s@[start + j]);
            assert(d[j] == ch);
            assert(d.subrange(0, j + 1).drop_last() =~= d.subrange(0, j));
            assert(d.subrange(0, j + 1).last() == ch);
        }
        match digit_val(ch, hex) {
            None => {
                proof {
                    assert(spec_parse_digits(d.subrange(0, j + 1), radix) == None::<int>);
                    lemma_parse_digits_none(d, j + 1, radix);
                }
                return Err(DebugError);
            },
            Some(dv) => {
                let step: u32 = if hex {
                    16
                } else {
                    10
                };
                let acc2 = acc * step + (dv as u32);
                proof {
                    assert(spec_parse_digits(d.subrange(0, j + 1), radix) == Some(acc2 as int));
                }
                if acc2 > 0xffff {
                    proof {
                        lemma_parse_digits_lower_bound(d, j + 1, radix, acc2 as int);
                    }
                    return Err(DebugError);
                }
                acc = acc2;
            },
        }
        i = i + 1;
    }
    proof {
        assert(d.subrange(0, len - start) =~= d);
    }
    Ok(acc as u16)
}

/// The debugger: its run state, its breakpoints keyed by program-counter
/// value, and the last command, replayed on an empty prompt line.
pub struct Debugger {
    state: DebuggerState,
    breakpoints: Vec<u16>,
    last_cmd: Cmds,
}

/// The abstract state of the debugger.
pub struct DebuggerView {
    pub state: DebuggerState,
    pub breakpoints: Seq<u16>,
    pub last_cmd: Cmds,
}

impl View for Debugger {
    type V = DebuggerView;

    closed spec fn view(&self) -> DebuggerView {
        DebuggerView {
            state: self.state,
            breakpoints: self.breakpoints@,
            last_cmd: self.last_cmd,
        }
    }
}

impl Debugger {
    /// A debugger that starts paused, with no breakpoints and the
    /// register dump as the replayed command.
    pub fn new() -> (r: Debugger)
        ensures
            r@ == (DebuggerView {
                state: DebuggerState::Paused,
                breakpoints: Seq::empty(),
                last_cmd: Cmds::RegistersCmd,
            }),
    {
        let r = Debugger {
            state: DebuggerState::Paused,
            breakpoints: Vec::new(),
            last_cmd: Cmds::RegistersCmd,
        };
        r
    }

    /// Whether a breakpoint is set on `pc`.
    pub fn has_breakpoint(&self, pc: u16) -> (r: bool)
        ensures
            r == self@.breakpoints.contains(pc),
    {
        let mut k: usize = 0;
        while k < self.breakpoints.len()
            invariant
                k <= self@.breakpoints.len(),
                forall|j: int| 0 <= j < k ==> self@.breakpoints[j] != pc,
        decreases self@.breakpoints.len() - k,
        {
            if self.breakpoints[k] == pc {
                return true;
            }
            k = k + 1;
        }
        false
    }

    /// The per-tick gate: a running debugger pauses exactly when a
    /// breakpoint sits on the current program counter; a paused one
    /// stays paused. Returns whether the prompt must be entered.
    pub fn check_tick(&mut self, pc: u16) -> (pause: bool)
        ensures
            pause == (old(self)@.state == DebuggerState::Paused || old(
                self,
            )@.breakpoints.contains(pc)),
            final(self)@ == (DebuggerView {
                state: if pause {
                    DebuggerState::Paused
                } else {
                    old(self)@.state
                },
                ..old(self)@
            }),
    {
        match self.state {
            DebuggerState::Paused => true,
            DebuggerState::Running => {
                if self.has_breakpoint(pc) {
                    self.state = DebuggerState::Paused;
                    true
                } else {
                    false
                }
            },
        }
    }

    /// Adds a breakpoint on `addr`.
    pub fn add_breakpoint(&mut self, addr: u16)
        ensures
            final(self)@ == (DebuggerView {
                breakpoints: old(self)@.breakpoints.push(addr),
                ..old(self)@
            }),
            final(self)@.breakpoints.contains(addr),
    {
        self.breakpoints.push(addr);
        proof {
            assert(final(self)@.breakpoints.last() == addr);
        }
    }

    /// Lets the processor run until the next breakpoint.
    pub fn continue_run(&mut self)
        ensures
            final(self)@ == (DebuggerView { state: DebuggerState::Running, ..old(self)@ }),
    {
        self.state = DebuggerState::Running;
    }

    /// The command replayed by an empty prompt line.
    pub fn last_cmd(&self) -> (r: Cmds)
        ensures
            r == self@.last_cmd,
    {
        self.last_cmd
    }

    /// Records the command to replay on an empty prompt line.
    pub fn set_last_cmd(&mut self, cmd: Cmds)
        ensures
            final(self)@ == (DebuggerView { last_cmd: cmd, ..old(self)@ }),
    {
        self.last_cmd = cmd;
    }
}

} // verus!
