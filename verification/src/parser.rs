//! A pane's input parser, as far as the keyboard negotiation goes: it reads
//! what an application writes, keeps the Kitty negotiation of both screens,
//! puts the resulting key modes on the screen and queues the replies that the
//! application asked for.

use vstd::prelude::*;

use crate::kitty::{apply, modes_applied, KittyRequest, KittyScreens, ScreensState, SetMode};
use crate::mode::{EXTENDED_KEY_MODES, MODE_KEYS_EXTENDED, MODE_KEYS_EXTENDED_2};
use crate::sequence::{step, Command, Scan, Scanner, ScannerState, ESC};
use crate::writer::ScreenWriter;

verus! {

/// The decimal digits of `n`, most significant first.
pub open spec fn decimal(n: nat) -> Seq<u8>
    decreases n,
{
    if n < 10 {
        seq![(0x30 + n) as u8]
    } else {
        decimal(n / 10).push((0x30 + n % 10) as u8)
    }
}

/// The answer to `CSI ? u`: `CSI ? flags u`.
pub open spec fn query_reply(flags: u8) -> Seq<u8> {
    seq![ESC, 0x5b, 0x3f] + decimal(flags as nat) + seq![0x75u8]
}

/// What a pane holds that the commands act on: the negotiation of both
/// screens, the screen's modes and the replies not yet taken.
pub struct PaneState {
    pub kitty: ScreensState,
    pub modes: u32,
    pub replies: Seq<u8>,
}

impl PaneState {
    /// The pane once `c` is carried out.
    pub open spec fn after(self, c: Command) -> Self {
        match c {
            Command::FullReset => PaneState {
                kitty: ScreensState::initial(),
                modes: modes_applied(0, self.modes & !EXTENDED_KEY_MODES),
                replies: self.replies,
            },
            Command::Kitty(r) => {
                let k = self.kitty.after_request(r);
                PaneState { kitty: k, modes: modes_applied(k.flags(), self.modes), replies: self.replies }
            },
            Command::KittyQuery => PaneState {
                replies: self.replies + query_reply(self.kitty.flags()),
                ..self
            },
            Command::AlternateScreen(on) => {
                let k = if on {
                    self.kitty.after_enter_alternate()
                } else {
                    self.kitty.after_leave_alternate()
                };
                PaneState { kitty: k, modes: modes_applied(k.flags(), self.modes), replies: self.replies }
            },
            Command::ModifyOtherKeys(level) => {
                let k = self.kitty.after_set(0, SetMode::Replace);
                let cleared = self.modes & !EXTENDED_KEY_MODES;
                let m = if level == 1 {
                    cleared | MODE_KEYS_EXTENDED
                } else if level == 2 {
                    cleared | MODE_KEYS_EXTENDED_2
                } else {
                    cleared
                };
                PaneState { kitty: k, modes: modes_applied(k.flags(), m), replies: self.replies }
            },
        }
    }

    pub open spec fn after_opt(self, c: Option<Command>) -> Self {
        match c {
            Some(c) => self.after(c),
            None => self,
        }
    }
}

/// The scanner and the pane once `bytes` are read, one by one.
pub open spec fn run(scanner: ScannerState, pane: PaneState, bytes: Seq<u8>) -> (
    ScannerState,
    PaneState,
)
    decreases bytes.len(),
{
    if bytes.len() == 0 {
        (scanner, pane)
    } else {
        let (s, p) = run(scanner, pane, bytes.drop_last());
        let (s2, c) = step(s, bytes.last());
        (s2, p.after_opt(c))
    }
}

/// What an input parser holds.
pub struct ParserState {
    pub scanner: ScannerState,
    pub kitty: ScreensState,
    pub replies: Seq<u8>,
}

/// Reads what an application writes to a pane.
pub struct InputParser {
    scanner: Scanner,
    kitty: KittyScreens,
    replies: Vec<u8>,
}

impl View for InputParser {
    type V = ParserState;

    closed spec fn view(&self) -> ParserState {
        ParserState { scanner: self.scanner@, kitty: self.kitty@, replies: self.replies@ }
    }
}

/// Appends the decimal digits of `v`.
fn push_decimal(out: &mut Vec<u8>, v: u8)
    ensures
        final(out)@ == old(out)@ + decimal(v as nat),
{
    proof {
        reveal_with_fuel(decimal, 3);
    }
    if v >= 100 {
        out.push(0x30 + v / 100);
    }
    if v >= 10 {
        out.push(0x30 + (v / 10) % 10);
    }
    out.push(0x30 + v % 10);
    proof {
        let n = v as nat;
        if n >= 100 {
            assert(decimal(n / 100) == seq![(0x30 + n / 100) as u8]);
            assert((n / 10) / 10 == n / 100);
            assert(decimal(n / 10) == decimal(n / 100).push((0x30 + (n / 10) % 10) as u8));
            assert(final(out)@ =~= old(out)@ + decimal(n));
        } else if n >= 10 {
            assert(final(out)@ =~= old(out)@ + decimal(n));
        } else {
            assert(final(out)@ =~= old(out)@ + decimal(n));
        }
    }
}

impl InputParser {
    /// The invariant of a parser: both negotiations well formed, and the
    /// parameter being read, if any, not negative.
    pub open spec fn wf(&self) -> bool {
        &&& self@.kitty.wf()
        &&& (self@.scanner.current matches Some(v) ==> v >= 0)
    }

    /// A parser outside any sequence, nothing negotiated, nothing to reply.
    pub fn new() -> (p: Self)
        ensures
            p@ == (ParserState {
                scanner: ScannerState::at(Scan::Ground),
                kitty: ScreensState::initial(),
                replies: Seq::empty(),
            }),
            p.wf(),
    {
        InputParser { scanner: Scanner::new(), kitty: KittyScreens::default(), replies: Vec::new() }
    }

    /// The flags in force on the screen in use.
    pub fn kitty_flags(&self) -> (flags: u8)
        ensures
            flags == self@.kitty.flags(),
    {
        self.kitty.flags()
    }

    /// The replies queued since the last take, which leaves none.
    pub fn take_replies(&mut self) -> (r: Vec<u8>)
        ensures
            r@ == old(self)@.replies,
            final(self)@ == (ParserState { replies: Seq::empty(), ..old(self)@ }),
            final(self).wf() == old(self).wf(),
    {
        let mut out: Vec<u8> = Vec::new();
        std::mem::swap(&mut out, &mut self.replies);
        out
    }

    /// Carries out `c` on the pane and its screen.
    fn perform<W: ScreenWriter>(&mut self, c: Command, writer: &mut W)
        requires
            old(self).wf(),
        ensures
            final(self).wf(),
            final(self)@.scanner == old(self)@.scanner,
            (PaneState {
                kitty: old(self)@.kitty,
                modes: old(writer).modes(),
                replies: old(self)@.replies,
            }).after(c) == (PaneState {
                kitty: final(self)@.kitty,
                modes: final(writer).modes(),
                replies: final(self)@.replies,
            }),
    {
        match c {
            Command::FullReset => {
                self.kitty.reset();
                writer.mode_clear(EXTENDED_KEY_MODES);
                apply(&self.kitty, writer);
            },
            Command::Kitty(r) => {
                match r {
                    KittyRequest::SetFlags(requested, mode) => self.kitty.set(requested, &mode),
                    KittyRequest::PushFlags(requested) => self.kitty.push(requested),
                    KittyRequest::PopFlags(count) => self.kitty.pop(count),
                }
                apply(&self.kitty, writer);
            },
            Command::KittyQuery => {
                let flags = self.kitty.flags();
                self.replies.push(ESC);
                self.replies.push(0x5b);
                self.replies.push(0x3f);
                push_decimal(&mut self.replies, flags);
                self.replies.push(0x75);
                assert(self.replies@ =~= old(self)@.replies + query_reply(flags));
            },
            Command::AlternateScreen(on) => {
                if on {
                    self.kitty.enter_alternate();
                } else {
                    self.kitty.leave_alternate();
                }
                apply(&self.kitty, writer);
            },
            Command::ModifyOtherKeys(level) => {
                writer.mode_clear(EXTENDED_KEY_MODES);
                self.kitty.set(0, &SetMode::Replace);
                if level == 1 {
                    writer.mode_set(MODE_KEYS_EXTENDED);
                } else if level == 2 {
                    writer.mode_set(MODE_KEYS_EXTENDED_2);
                }
                apply(&self.kitty, writer);
            },
        }
    }

    /// Reads `bytes`, carrying out each command they complete in order.
    pub fn parse<W: ScreenWriter>(&mut self, bytes: &[u8], writer: &mut W)
        requires
            old(self).wf(),
        ensures
            final(self).wf(),
            run(
                old(self)@.scanner,
                PaneState {
                    kitty: old(self)@.kitty,
                    modes: old(writer).modes(),
                    replies: old(self)@.replies,
                },
                bytes@,
            ) == (final(self)@.scanner, PaneState {
                kitty: final(self)@.kitty,
                modes: final(writer).modes(),
                replies: final(self)@.replies,
            }),
    {
        let ghost start = PaneState {
            kitty: self@.kitty,
            modes: writer.modes(),
            replies: self@.replies,
        };
        let ghost scanner0 = self@.scanner;
        let mut i: usize = 0;
        while i < bytes.len()
            invariant
                0 <= i <= bytes@.len(),
                self.wf(),
                run(scanner0, start, bytes@.take(i as int)) == (self@.scanner, PaneState {
                    kitty: self@.kitty,
                    modes: writer.modes(),
                    replies: self@.replies,
                }),
            decreases bytes@.len() - i,
        {
            proof {
                assert(bytes@.take(i + 1).drop_last() =~= bytes@.take(i as int));
            }
            let c = self.scanner.feed(bytes[i]);
            match c {
                Some(c) => self.perform(c, writer),
                None => {},
            }
            i = i + 1;
        }
        proof {
            assert(bytes@.take(bytes@.len() as int) =~= bytes@);
        }
    }
}

} // verus!
