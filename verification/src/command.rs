//! The command-dispatch decision: which action a completed command line
//! names. The actions themselves (printing help text, toggling an LED,
//! running the interpreter, crashing deliberately) are the collaborators'
//! business; this module only decides, so the decision can be verified.

use vstd::prelude::*;

verus! {

/// The action a completed command line asks for. The LED commands carry
/// the LED number they name; the interpreter command carries the program
/// text that followed its prefix.
#[derive(Debug, PartialEq, Eq)]
pub enum Command {
    /// Print the help text.
    Help,
    /// Print the greeting.
    Hi,
    /// Print the pony picture.
    Pony,
    /// Turn the named LED off.
    LedOff(u8),
    /// Turn the named LED on.
    LedOn(u8),
    /// Run the LED light show.
    LedFun,
    /// Run the interpreter on the carried program text.
    Brainfuck(Vec<u8>),
    /// Crash deliberately, for diagnostics.
    Panic,
    /// An empty line: do nothing.
    Empty,
    /// Anything else: report an unknown command.
    Unknown,
}

/// The interpreter command's prefix letter, ASCII lower-case b.
pub const B_INTERP: u8 = 98;

/// ASCII space, separating the interpreter prefix from its program.
pub const B_SPACE: u8 = 32;

/// ASCII minus sign, the off half of an LED toggle.
pub const B_MINUS: u8 = 45;

/// ASCII plus sign, the on half of an LED toggle.
pub const B_PLUS: u8 = 43;

/// ASCII digit zero, the base the LED digits count from.
pub const B_DIGIT_0: u8 = 48;

/// ASCII digit three, the lowest LED number.
pub const B_DIGIT_3: u8 = 51;

/// ASCII digit six, the highest LED number.
pub const B_DIGIT_6: u8 = 54;

/// The bytes of the help command.
pub open spec fn cmd_help() -> Seq<u8> {
    seq![104u8, 101, 108, 112]
}

/// The bytes of the greeting command.
pub open spec fn cmd_hi() -> Seq<u8> {
    seq![104u8, 105]
}

/// The bytes of the pony command.
pub open spec fn cmd_pony() -> Seq<u8> {
    seq![112u8, 111, 110, 121]
}

/// The one-letter abbreviation of the pony command.
pub open spec fn cmd_pony_short() -> Seq<u8> {
    seq![112u8]
}

/// The bytes of the LED light-show command.
pub open spec fn cmd_led_fun() -> Seq<u8> {
    seq![108u8, 101, 100, 45, 102, 117, 110]
}

/// The bytes of the deliberate-crash command.
pub open spec fn cmd_panic() -> Seq<u8> {
    seq![112u8, 97, 110, 105, 99]
}

/// Whether the line names the interpreter: its prefix letter and a space,
/// followed by the program text.
pub open spec fn is_interpreter_cmd(s: Seq<u8>) -> bool {
    s.len() >= 2 && s[0] == B_INTERP && s[1] == B_SPACE
}

/// Whether the line toggles an LED: a sign and one of the LED digits.
pub open spec fn is_led_toggle(s: Seq<u8>) -> bool {
    s.len() == 2 && (s[0] == B_MINUS || s[0] == B_PLUS) && B_DIGIT_3 <= s[1] <= B_DIGIT_6
}

/// Exactly which action the line `s` names. The interpreter prefix is
/// recognized first, as it may shadow the fixed commands; the fixed
/// commands are mutually exclusive among themselves.
pub open spec fn parsed(s: Seq<u8>, r: Command) -> bool {
    if is_interpreter_cmd(s) {
        r matches Command::Brainfuck(p) && p@ == s.skip(2)
    } else if s == cmd_help() {
        r == Command::Help
    } else if s == cmd_hi() {
        r == Command::Hi
    } else if s == cmd_pony() || s == cmd_pony_short() {
        r == Command::Pony
    } else if is_led_toggle(s) {
        if s[0] == B_MINUS {
            r matches Command::LedOff(k) && k == s[1] - B_DIGIT_0
        } else {
            r matches Command::LedOn(k) && k == s[1] - B_DIGIT_0
        }
    } else if s == cmd_led_fun() {
        r == Command::LedFun
    } else if s == cmd_panic() {
        r == Command::Panic
    } else if s.len() == 0 {
        r == Command::Empty
    } else {
        r == Command::Unknown
    }
}

/// Decides which action the completed line `cmd` names, per `parsed`.
pub fn parse_command(cmd: &[u8]) -> (r: Command)
    ensures
        parsed(cmd@, r),
{
    let n = cmd.len();
    if n >= 2 && cmd[0] == B_INTERP && cmd[1] == B_SPACE {
        let mut p: Vec<u8> = Vec::new();
        let mut i: usize = 2;
        while i < n
            invariant
                2 <= i <= n,
                n == cmd@.len(),
                p@ == cmd@.subrange(2, i as int),
            decreases n - i,
        {
            let b = cmd[i];
            p.push(b);
            proof {
                assert(p@ =~= cmd@.subrange(2, i + 1));
            }
            i = i + 1;
        }
        proof {
            assert(p@ =~= cmd@.skip(2));
        }
        return Command::Brainfuck(p);
    }
    if n == 0 {
        return Command::Empty;
    }
    if n == 1 && cmd[0] == 112 {
        proof {
            assert(cmd@ =~= cmd_pony_short());
        }
        return Command::Pony;
    }
    if n == 2 {
        if cmd[0] == 104 && cmd[1] == 105 {
            proof {
                assert(cmd@ =~= cmd_hi());
            }
            return Command::Hi;
        }
        if (cmd[0] == B_MINUS || cmd[0] == B_PLUS) && B_DIGIT_3 <= cmd[1] && cmd[1] <= B_DIGIT_6 {
            let k = cmd[1] - B_DIGIT_0;
            if cmd[0] == B_MINUS {
                return Command::LedOff(k);
            } else {
                return Command::LedOn(k);
            }
        }
    }
    if n == 4 && cmd[0] == 104 && cmd[1] == 101 && cmd[2] == 108 && cmd[3] == 112 {
        proof {
            assert(cmd@ =~= cmd_help());
        }
        return Command::Help;
    }
    if n == 4 && cmd[0] == 112 && cmd[1] == 111 && cmd[2] == 110 && cmd[3] == 121 {
        proof {
            assert(cmd@ =~= cmd_pony());
        }
        return Command::Pony;
    }
    if n == 5 && cmd[0] == 112 && cmd[1] == 97 && cmd[2] == 110 && cmd[3] == 105 && cmd[4]
        == 99 {
        proof {
            assert(cmd@ =~= cmd_panic());
        }
        return Command::Panic;
    }
    if n == 7 && cmd[0] == 108 && cmd[1] == 101 && cmd[2] == 100 && cmd[3] == 45 && cmd[4]
        == 102 && cmd[5] == 117 && cmd[6] == 110 {
        proof {
            assert(cmd@ =~= cmd_led_fun());
        }
        return Command::LedFun;
    }
    Command::Unknown
}

} // verus!
