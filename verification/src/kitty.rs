//! Kitty keyboard protocol state: which progressive enhancements are in force
//! and the stack an application saves them on.
//!
//! One of these per screen. The main and alternate screens negotiate
//! independently, so that a full-screen editor can change the keyboard mode
//! without knowing, or disturbing, what the shell that launched it asked for.

use vstd::prelude::*;

use std::collections::VecDeque;

use crate::mode::MODE_KEYS_KITTY;
use crate::writer::ScreenWriter;

verus! {

/// The one progressive enhancement implemented: disambiguate escape codes,
/// which is what makes a modified key distinct from the bare one.
pub const SUPPORTED: u8 = 0b1;

/// How many saves an application may stack before the oldest is evicted. The
/// protocol asks for a limit so a program cannot exhaust memory by pushing;
/// the depth itself is ours.
pub const STACK_MAX: usize = 16;

/// How a set request applies its flags.
pub enum SetMode {
    /// Set what is named, reset what is not.
    Replace,
    /// Set what is named, leave the rest.
    Add,
    /// Reset what is named, leave the rest.
    Remove,
}

/// The set mode that the mode parameter `param` of `CSI = flags ; mode u` names.
pub open spec fn mode_named(param: i32) -> SetMode {
    if param == 2 {
        SetMode::Add
    } else if param == 3 {
        SetMode::Remove
    } else {
        SetMode::Replace
    }
}

impl SetMode {
    /// The mode parameter of `CSI = flags ; mode u`, which defaults to 1.
    pub fn from_param(param: i32) -> (mode: Self)
        ensures
            mode == mode_named(param),
    {
        match param {
            2 => SetMode::Add,
            3 => SetMode::Remove,
            _ => SetMode::Replace,
        }
    }
}

/// What is left of a requested flag set once the unimplemented bits go: the
/// disambiguation bit of a non-negative request, nothing of a negative one.
pub open spec fn honoured(requested: i32) -> u8 {
    if requested > 0 && requested % 2 == 1 {
        SUPPORTED
    } else {
        0
    }
}

/// What is left of a requested flag set once the unimplemented bits go.
pub fn supported(requested: i32) -> (flags: u8)
    ensures
        flags == honoured(requested),
{
    let clamped: i32 = if requested < 0 {
        0
    } else {
        requested
    };
    let masked: i32 = clamped & 1i32;
    assert(masked == clamped % 2 && masked <= 1) by (bit_vector)
        requires
            clamped >= 0,
            masked == clamped & 1i32,
    ;
    masked as u8
}

/// Facts about flag sets that hold no bit beyond the supported one.
pub proof fn lemma_flag_algebra(a: u8, b: u8)
    requires
        a <= 1,
        b <= 1,
    ensures
        a | b <= 1,
        a & !b <= 1,
        a | 0 == a,
        a & !0u8 == a,
        a & !SUPPORTED == 0,
{
    assert(a | b <= 1 && a & !b <= 1 && a | 0 == a && a & !0u8 == a && a & !1u8 == 0)
        by (bit_vector)
        requires
            a <= 1,
            b <= 1,
    ;
}

/// The negotiation on one screen: the flags in force and the saves, oldest first.
pub struct KeyboardState {
    pub flags: u8,
    pub stack: Seq<u8>,
}

impl KeyboardState {
    /// Nothing in force and nothing saved.
    pub open spec fn initial() -> Self {
        KeyboardState { flags: 0, stack: Seq::empty() }
    }

    /// Only the supported flag is ever in force or saved, and the stack keeps
    /// within its depth. `SUPPORTED` is the lowest bit, so `<= SUPPORTED`
    /// says that no other bit is set.
    pub open spec fn wf(self) -> bool {
        &&& self.flags <= SUPPORTED
        &&& self.stack.len() <= STACK_MAX
        &&& forall|i: int| 0 <= i < self.stack.len() ==> #[trigger] self.stack[i] <= SUPPORTED
    }

    /// `CSI = requested ; mode u`.
    pub open spec fn after_set(self, requested: i32, mode: SetMode) -> Self {
        let f = honoured(requested);
        KeyboardState {
            flags: match mode {
                SetMode::Replace => f,
                SetMode::Add => self.flags | f,
                SetMode::Remove => self.flags & !f,
            },
            stack: self.stack,
        }
    }

    /// `CSI > requested u`: the flags in force are saved, the oldest save going
    /// first when the stack is full, and the request takes their place.
    pub open spec fn after_push(self, requested: i32) -> Self {
        let kept = if self.stack.len() == STACK_MAX {
            self.stack.drop_first()
        } else {
            self.stack
        };
        KeyboardState { flags: honoured(requested), stack: kept.push(self.flags) }
    }

    /// `n` pops: each restores the newest save, and a pop with nothing saved
    /// resets every flag.
    pub open spec fn after_pops(self, n: nat) -> Self {
        let len = self.stack.len();
        if n == 0 {
            self
        } else if n <= len {
            KeyboardState { flags: self.stack[len - n], stack: self.stack.take(len - n) }
        } else {
            KeyboardState { flags: 0, stack: Seq::empty() }
        }
    }

    /// `CSI < count u`; a negative count pops nothing.
    pub open spec fn after_pop(self, count: i32) -> Self {
        self.after_pops(if count < 0 {
            0
        } else {
            count as nat
        })
    }
}

/// One pop more is one pop of what the earlier pops left.
proof fn lemma_one_more_pop(k: KeyboardState, n: nat)
    ensures
        k.after_pops(n + 1) == ({
            let p = k.after_pops(n);
            if p.stack.len() == 0 {
                KeyboardState { flags: 0, stack: p.stack }
            } else {
                KeyboardState { flags: p.stack.last(), stack: p.stack.drop_last() }
            }
        }),
{
    let len = k.stack.len();
    if n + 1 <= len {
        if n == 0 {
            assert(k.stack.drop_last() =~= k.stack.take(len - 1));
        } else {
            assert(k.stack.take(len - n).drop_last() =~= k.stack.take(len - n - 1));
        }
    } else if n == len {
        assert(k.stack.take(0) =~= Seq::<u8>::empty());
        assert(n == 0 ==> k.stack =~= Seq::<u8>::empty());
    }
}

/// The flags in force on one screen, and what has been pushed there.
#[derive(Debug)]
pub struct KittyKeyboard {
    flags: u8,
    stack: VecDeque<u8>,
}

impl View for KittyKeyboard {
    type V = KeyboardState;

    closed spec fn view(&self) -> KeyboardState {
        KeyboardState { flags: self.flags, stack: self.stack@ }
    }
}

impl Default for KittyKeyboard {
    fn default() -> (k: Self)
        ensures
            k@ == KeyboardState::initial(),
    {
        KittyKeyboard { flags: 0, stack: VecDeque::new() }
    }
}

impl KittyKeyboard {
    /// What an application gets, which is only ever what is implemented.
    pub fn flags(&self) -> (flags: u8)
        ensures
            flags == self@.flags,
    {
        self.flags
    }

    /// `CSI = flags ; mode u`.
    pub fn set(&mut self, requested: i32, mode: &SetMode)
        requires
            old(self)@.wf(),
        ensures
            final(self)@ == old(self)@.after_set(requested, *mode),
            final(self)@.wf(),
    {
        let flags = supported(requested);
        proof {
            lemma_flag_algebra(self.flags, flags);
        }
        self.flags = match mode {
            SetMode::Replace => flags,
            SetMode::Add => self.flags | flags,
            SetMode::Remove => self.flags & !flags,
        };
    }

    /// `CSI > flags u`. A full stack loses its oldest entry, never this one.
    pub fn push(&mut self, requested: i32)
        requires
            old(self)@.wf(),
        ensures
            final(self)@ == old(self)@.after_push(requested),
            final(self)@.wf(),
    {
        if self.stack.len() == STACK_MAX {
            self.stack.pop_front();
        }
        self.stack.push_back(self.flags);
        self.flags = supported(requested);
        proof {
            let o = old(self)@.stack;
            let kept = if o.len() == STACK_MAX {
                o.drop_first()
            } else {
                o
            };
            assert(self.stack@ =~= kept.push(old(self)@.flags));
        }
    }

    /// `CSI < number u`. Popping past the last save resets every flag, which
    /// is the protocol's answer to an application that pops too far.
    pub fn pop(&mut self, count: i32)
        requires
            old(self)@.wf(),
        ensures
            final(self)@ == old(self)@.after_pop(count),
            final(self)@.wf(),
    {
        let n: i32 = if count < 0 {
            0
        } else {
            count
        };
        let mut i: i32 = 0;
        while i < n
            invariant
                0 <= i <= n,
                n == (if count < 0 {
                    0
                } else {
                    count
                }),
                self@ == old(self)@.after_pops(i as nat),
                self@.wf(),
                old(self)@.wf(),
            decreases n - i,
        {
            proof {
                lemma_one_more_pop(old(self)@, i as nat);
            }
            self.flags = self.stack.pop_back().unwrap_or(0);
            i = i + 1;
        }
    }
}

/// Both screens' negotiations, and which one is showing.
pub struct ScreensState {
    pub main: KeyboardState,
    pub alternate: KeyboardState,
    pub showing_alternate: bool,
}

impl ScreensState {
    /// The main screen showing, nothing negotiated anywhere.
    pub open spec fn initial() -> Self {
        ScreensState {
            main: KeyboardState::initial(),
            alternate: KeyboardState::initial(),
            showing_alternate: false,
        }
    }

    pub open spec fn wf(self) -> bool {
        self.main.wf() && self.alternate.wf()
    }

    /// The negotiation of the screen in use.
    pub open spec fn current(self) -> KeyboardState {
        if self.showing_alternate {
            self.alternate
        } else {
            self.main
        }
    }

    /// The screen in use negotiated to `k`, the other left as it was.
    pub open spec fn with_current(self, k: KeyboardState) -> Self {
        if self.showing_alternate {
            ScreensState { alternate: k, ..self }
        } else {
            ScreensState { main: k, ..self }
        }
    }

    pub open spec fn flags(self) -> u8 {
        self.current().flags
    }

    pub open spec fn after_set(self, requested: i32, mode: SetMode) -> Self {
        self.with_current(self.current().after_set(requested, mode))
    }

    pub open spec fn after_push(self, requested: i32) -> Self {
        self.with_current(self.current().after_push(requested))
    }

    pub open spec fn after_pop(self, count: i32) -> Self {
        self.with_current(self.current().after_pop(count))
    }

    /// Switching to the alternate screen starts it from nothing; a switch
    /// while already there changes nothing.
    pub open spec fn after_enter_alternate(self) -> Self {
        if self.showing_alternate {
            self
        } else {
            ScreensState { alternate: KeyboardState::initial(), showing_alternate: true, ..self }
        }
    }

    /// Leaving the alternate screen throws its negotiation away.
    pub open spec fn after_leave_alternate(self) -> Self {
        ScreensState { alternate: KeyboardState::initial(), showing_alternate: false, ..self }
    }
}

/// Both screens' negotiations, and which one the pane is showing.
///
/// Entering the alternate screen starts from nothing and leaving it throws
/// that away, so an editor's keyboard mode neither inherits from nor outlives
/// the shell it was launched from.
#[derive(Debug)]
pub struct KittyScreens {
    main: KittyKeyboard,
    alternate: KittyKeyboard,
    showing_alternate: bool,
}

impl View for KittyScreens {
    type V = ScreensState;

    closed spec fn view(&self) -> ScreensState {
        ScreensState {
            main: self.main@,
            alternate: self.alternate@,
            showing_alternate: self.showing_alternate,
        }
    }
}

impl Default for KittyScreens {
    fn default() -> (s: Self)
        ensures
            s@ == ScreensState::initial(),
    {
        KittyScreens {
            main: KittyKeyboard::default(),
            alternate: KittyKeyboard::default(),
            showing_alternate: false,
        }
    }
}

impl KittyScreens {
    /// The negotiation for the screen in use.
    pub fn current(&mut self) -> (k: &mut KittyKeyboard)
        ensures
            k@ == old(self)@.current(),
            final(self)@ == old(self)@.with_current(final(k)@),
    {
        if self.showing_alternate {
            &mut self.alternate
        } else {
            &mut self.main
        }
    }

    /// The flags in force on the screen in use.
    pub fn flags(&self) -> (flags: u8)
        ensures
            flags == self@.flags(),
    {
        if self.showing_alternate {
            self.alternate.flags()
        } else {
            self.main.flags()
        }
    }

    pub fn set(&mut self, requested: i32, mode: &SetMode)
        requires
            old(self)@.wf(),
        ensures
            final(self)@ == old(self)@.after_set(requested, *mode),
            final(self)@.wf(),
    {
        self.current().set(requested, mode);
    }

    pub fn push(&mut self, requested: i32)
        requires
            old(self)@.wf(),
        ensures
            final(self)@ == old(self)@.after_push(requested),
            final(self)@.wf(),
    {
        self.current().push(requested);
    }

    pub fn pop(&mut self, count: i32)
        requires
            old(self)@.wf(),
        ensures
            final(self)@ == old(self)@.after_pop(count),
            final(self)@.wf(),
    {
        self.current().pop(count);
    }

    /// Idempotent, because a terminal that is already on the alternate screen
    /// ignores a second request to switch to it.
    pub fn enter_alternate(&mut self)
        requires
            old(self)@.wf(),
        ensures
            final(self)@ == old(self)@.after_enter_alternate(),
            final(self)@.wf(),
    {
        if !self.showing_alternate {
            self.alternate = KittyKeyboard::default();
            self.showing_alternate = true;
        }
    }

    pub fn leave_alternate(&mut self)
        requires
            old(self)@.wf(),
        ensures
            final(self)@ == old(self)@.after_leave_alternate(),
            final(self)@.wf(),
    {
        self.alternate = KittyKeyboard::default();
        self.showing_alternate = false;
    }

    /// RIS. A reset that left saves on the stack would let a later pop restore
    /// a mode no application ever asked for.
    pub fn reset(&mut self)
        ensures
            final(self)@ == ScreensState::initial(),
            final(self)@.wf(),
    {
        *self = Self::default();
    }
}

/// A request that changes the negotiation of the screen in use.
pub enum KittyRequest {
    /// `CSI = flags ; mode u`.
    SetFlags(i32, SetMode),
    /// `CSI > flags u`.
    PushFlags(i32),
    /// `CSI < number u`.
    PopFlags(i32),
}

impl ScreensState {
    pub open spec fn after_request(self, r: KittyRequest) -> Self {
        match r {
            KittyRequest::SetFlags(requested, mode) => self.after_set(requested, mode),
            KittyRequest::PushFlags(requested) => self.after_push(requested),
            KittyRequest::PopFlags(count) => self.after_pop(count),
        }
    }

    /// The requests `rs` taken in order.
    pub open spec fn after_requests(self, rs: Seq<KittyRequest>) -> Self
        decreases rs.len(),
    {
        if rs.len() == 0 {
            self
        } else {
            self.after_request(rs[0]).after_requests(rs.drop_first())
        }
    }
}

/// The screen modes once a pane's Kitty flags `flags` are put in force on a
/// screen whose modes were `modes`.
pub open spec fn modes_applied(flags: u8, modes: u32) -> u32 {
    if flags & SUPPORTED != 0 {
        modes | MODE_KEYS_KITTY
    } else {
        modes & !MODE_KEYS_KITTY
    }
}

/// Put a pane's Kitty flags in force on its screen, leaving the xterm
/// extended-key modes alone: an application that never spoke Kitty may have
/// enabled one of those.
pub fn apply<W: ScreenWriter>(kitty: &KittyScreens, writer: &mut W)
    ensures
        final(writer).modes() == modes_applied(kitty@.flags(), old(writer).modes()),
{
    if kitty.flags() & SUPPORTED != 0 {
        writer.mode_set(MODE_KEYS_KITTY);
    } else {
        writer.mode_clear(MODE_KEYS_KITTY);
    }
}

} // verus!
