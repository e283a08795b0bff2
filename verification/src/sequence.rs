//! Recognising, byte by byte, the escape sequences that drive the keyboard
//! negotiation: `ESC c` (RIS) and the control sequences `CSI = .. u`,
//! `CSI ? u`, `CSI > .. u`, `CSI < .. u`, `CSI ? .. h` / `l` (the alternate
//! screen) and `CSI > 4 ; .. m` (xterm `modifyOtherKeys`).
//!
//! A sequence may be split across writes: the scanner keeps what it has seen
//! of one until it ends.

use vstd::prelude::*;

use crate::kitty::{mode_named, KittyRequest, SetMode};

verus! {

pub const ESC: u8 = 0x1b;

/// The most parameters a control sequence may carry; one with more is ignored.
pub const MAX_PARAMS: usize = 16;

/// The private mode of the alternate screen that saves the cursor.
pub const ALTERNATE_SCREEN_MODE: i32 = 1049;

/// What a complete sequence asks of the pane.
pub enum Command {
    /// `ESC c`.
    FullReset,
    /// A request that changes the Kitty negotiation.
    Kitty(KittyRequest),
    /// `CSI ? u`.
    KittyQuery,
    /// `CSI ? 1049 h` (true) or `CSI ? 1049 l` (false).
    AlternateScreen(bool),
    /// `CSI > 4 ; level m`.
    ModifyOtherKeys(i32),
}

/// Where the scanner is.
pub enum Scan {
    /// Outside any sequence.
    Ground,
    /// After `ESC`.
    Escape,
    /// Inside a control sequence, after `ESC [`.
    Control,
}

/// What the scanner holds: where it is and, inside a control sequence, its
/// private prefix (0 for none), the parameters completed so far, the one
/// being read (`None` while it has no digit), and whether the sequence is one
/// that no command is made of.
pub struct ScannerState {
    pub scan: Scan,
    pub prefix: u8,
    pub params: Seq<Option<i32>>,
    pub current: Option<i32>,
    pub malformed: bool,
}

impl ScannerState {
    /// At `scan`, with nothing of a sequence read.
    pub open spec fn at(scan: Scan) -> Self {
        ScannerState { scan, prefix: 0, params: Seq::empty(), current: None, malformed: false }
    }
}

/// A parameter value with one more decimal digit, held at `i32::MAX` once it
/// would pass it.
pub open spec fn with_digit(value: i32, digit: u8) -> i32 {
    if value * 10 + digit >= i32::MAX {
        i32::MAX
    } else {
        (value * 10 + digit) as i32
    }
}

/// The parameter at `i`, or `default` where it is absent or empty.
pub open spec fn param(params: Seq<Option<i32>>, i: int, default: i32) -> i32 {
    if 0 <= i < params.len() && params[i] is Some {
        params[i]->0
    } else {
        default
    }
}

/// The command of a control sequence with private prefix `prefix`,
/// parameters `params` and final byte `fin`, where there is one.
pub open spec fn command_of(prefix: u8, params: Seq<Option<i32>>, fin: u8) -> Option<Command> {
    if fin == 0x75 {
        // 'u'
        if prefix == 0x3d {
            // '='
            Some(
                Command::Kitty(
                    KittyRequest::SetFlags(param(params, 0, 0), mode_named(param(params, 1, 1))),
                ),
            )
        } else if prefix == 0x3f {
            // '?'
            Some(Command::KittyQuery)
        } else if prefix == 0x3e {
            // '>'
            Some(Command::Kitty(KittyRequest::PushFlags(param(params, 0, 0))))
        } else if prefix == 0x3c {
            // '<'
            Some(Command::Kitty(KittyRequest::PopFlags(param(params, 0, 1))))
        } else {
            None
        }
    } else if (fin == 0x68 || fin == 0x6c) && prefix == 0x3f {
        // 'h' or 'l' after '?'
        if params.contains(Some(ALTERNATE_SCREEN_MODE)) {
            Some(Command::AlternateScreen(fin == 0x68))
        } else {
            None
        }
    } else if fin == 0x6d && prefix == 0x3e && param(params, 0, 0) == 4 {
        // 'm' after '>'
        Some(Command::ModifyOtherKeys(param(params, 1, 0)))
    } else {
        None
    }
}

/// What one byte does to the scanner, and the command it completes, if any.
pub open spec fn step(s: ScannerState, b: u8) -> (ScannerState, Option<Command>) {
    match s.scan {
        Scan::Ground => {
            if b == ESC {
                (ScannerState::at(Scan::Escape), None)
            } else {
                (ScannerState::at(Scan::Ground), None)
            }
        },
        Scan::Escape => {
            if b == 0x63 {
                // 'c'
                (ScannerState::at(Scan::Ground), Some(Command::FullReset))
            } else if b == 0x5b {
                // '['
                (ScannerState::at(Scan::Control), None)
            } else if b == ESC {
                (ScannerState::at(Scan::Escape), None)
            } else {
                (ScannerState::at(Scan::Ground), None)
            }
        },
        Scan::Control => {
            if b == ESC {
                (ScannerState::at(Scan::Escape), None)
            } else if 0x40 <= b <= 0x7e {
                // a final byte ends the sequence
                (
                    ScannerState::at(Scan::Ground),
                    if s.malformed {
                        None
                    } else {
                        command_of(s.prefix, s.params.push(s.current), b)
                    },
                )
            } else if 0x30 <= b <= 0x39 {
                // a digit
                let value = match s.current {
                    Some(v) => v,
                    None => 0,
                };
                (ScannerState { current: Some(with_digit(value, (b - 0x30) as u8)), ..s }, None)
            } else if b == 0x3b {
                // ';' ends a parameter
                if s.params.len() + 1 < MAX_PARAMS {
                    (ScannerState { params: s.params.push(s.current), current: None, ..s }, None)
                } else {
                    (ScannerState { malformed: true, ..s }, None)
                }
            } else if 0x3c <= b <= 0x3f {
                // a private prefix, allowed only first
                if s.prefix == 0 && s.params.len() == 0 && s.current is None {
                    (ScannerState { prefix: b, ..s }, None)
                } else {
                    (ScannerState { malformed: true, ..s }, None)
                }
            } else if 0x20 <= b <= 0x3a {
                // an intermediate byte or a sub-parameter separator
                (ScannerState { malformed: true, ..s }, None)
            } else {
                // other controls and bytes outside the sequence's range are ignored
                (s, None)
            }
        },
    }
}

/// Reads the escape sequences that drive the keyboard negotiation.
pub struct Scanner {
    scan: Scan,
    prefix: u8,
    params: Vec<Option<i32>>,
    current: Option<i32>,
    malformed: bool,
}

impl View for Scanner {
    type V = ScannerState;

    closed spec fn view(&self) -> ScannerState {
        ScannerState {
            scan: self.scan,
            prefix: self.prefix,
            params: self.params@,
            current: self.current,
            malformed: self.malformed,
        }
    }
}

/// One more decimal digit of a parameter value, held at `i32::MAX`.
fn add_digit(value: i32, digit: u8) -> (v: i32)
    requires
        value >= 0,
        digit <= 9,
    ensures
        v == with_digit(value, digit),
        v >= 0,
{
    let wide: i64 = value as i64 * 10 + digit as i64;
    if wide >= i32::MAX as i64 {
        i32::MAX
    } else {
        wide as i32
    }
}

/// Whether `params` names `mode`.
fn names_mode(params: &Vec<Option<i32>>, mode: i32) -> (found: bool)
    ensures
        found == params@.contains(Some(mode)),
{
    let mut i: usize = 0;
    while i < params.len()
        invariant
            0 <= i <= params.len(),
            forall|j: int| 0 <= j < i ==> params@[j] != Some(mode),
        decreases params.len() - i,
    {
        if params[i] == Some(mode) {
            assert(params@[i as int] == Some(mode));
            return true;
        }
        i = i + 1;
    }
    false
}

/// The parameter at `i`, or `default` where it is absent or empty.
fn param_at(params: &Vec<Option<i32>>, i: usize, default: i32) -> (v: i32)
    ensures
        v == param(params@, i as int, default),
{
    if i < params.len() {
        match params[i] {
            Some(v) => v,
            None => default,
        }
    } else {
        default
    }
}

/// The command of a complete control sequence, where there is one.
fn decode(prefix: u8, params: &Vec<Option<i32>>, fin: u8) -> (c: Option<Command>)
    ensures
        c == command_of(prefix, params@, fin),
{
    if fin == 0x75 {
        if prefix == 0x3d {
            let flags = param_at(params, 0, 0);
            let mode = SetMode::from_param(param_at(params, 1, 1));
            Some(Command::Kitty(KittyRequest::SetFlags(flags, mode)))
        } else if prefix == 0x3f {
            Some(Command::KittyQuery)
        } else if prefix == 0x3e {
            Some(Command::Kitty(KittyRequest::PushFlags(param_at(params, 0, 0))))
        } else if prefix == 0x3c {
            Some(Command::Kitty(KittyRequest::PopFlags(param_at(params, 0, 1))))
        } else {
            None
        }
    } else if (fin == 0x68 || fin == 0x6c) && prefix == 0x3f {
        if names_mode(params, ALTERNATE_SCREEN_MODE) {
            Some(Command::AlternateScreen(fin == 0x68))
        } else {
            None
        }
    } else if fin == 0x6d && prefix == 0x3e && param_at(params, 0, 0) == 4 {
        Some(Command::ModifyOtherKeys(param_at(params, 1, 0)))
    } else {
        None
    }
}

impl Scanner {
    /// A scanner outside any sequence.
    pub fn new() -> (s: Self)
        ensures
            s@ == ScannerState::at(Scan::Ground),
    {
        Scanner { scan: Scan::Ground, prefix: 0, params: Vec::new(), current: None, malformed: false }
    }

    /// Forgets any sequence in progress and goes to `scan`.
    fn restart(&mut self, scan: Scan)
        ensures
            final(self)@ == ScannerState::at(scan),
    {
        self.scan = scan;
        self.prefix = 0;
        self.params = Vec::new();
        self.current = None;
        self.malformed = false;
    }

    /// Takes one byte; returns the command that it completes, if any.
    pub fn feed(&mut self, b: u8) -> (c: Option<Command>)
        requires
            old(self)@.current matches Some(v) ==> v >= 0,
        ensures
            (final(self)@, c) == step(old(self)@, b),
            final(self)@.current matches Some(v) ==> v >= 0,
    {
        match self.scan {
            Scan::Ground => {
                if b == ESC {
                    self.restart(Scan::Escape);
                } else {
                    self.restart(Scan::Ground);
                }
                None
            },
            Scan::Escape => {
                if b == 0x63 {
                    self.restart(Scan::Ground);
                    Some(Command::FullReset)
                } else if b == 0x5b {
                    self.restart(Scan::Control);
                    None
                } else if b == ESC {
                    self.restart(Scan::Escape);
                    None
                } else {
                    self.restart(Scan::Ground);
                    None
                }
            },
            Scan::Control => {
                if b == ESC {
                    self.restart(Scan::Escape);
                    None
                } else if 0x40 <= b && b <= 0x7e {
                    let c = if self.malformed {
                        None
                    } else {
                        let current = self.current;
                        self.params.push(current);
                        decode(self.prefix, &self.params, b)
                    };
                    self.restart(Scan::Ground);
                    c
                } else if 0x30 <= b && b <= 0x39 {
                    let value = match self.current {
                        Some(v) => v,
                        None => 0,
                    };
                    self.current = Some(add_digit(value, b - 0x30));
                    None
                } else if b == 0x3b {
                    if self.params.len() < MAX_PARAMS - 1 {
                        let current = self.current;
                        self.params.push(current);
                        self.current = None;
                    } else {
                        self.malformed = true;
                    }
                    None
                } else if 0x3c <= b && b <= 0x3f {
                    if self.prefix == 0 && self.params.len() == 0 && self.current.is_none() {
                        self.prefix = b;
                    } else {
                        self.malformed = true;
                    }
                    None
                } else if 0x20 <= b && b <= 0x3a {
                    self.malformed = true;
                    None
                } else {
                    None
                }
            },
        }
    }
}

} // verus!
