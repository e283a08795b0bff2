//! What holds of the keyboard negotiation across requests and screens.

use vstd::prelude::*;

use crate::kitty::{
    honoured, lemma_flag_algebra, modes_applied, KeyboardState, KittyRequest, ScreensState,
    SetMode, STACK_MAX, SUPPORTED,
};
use crate::mode::{EXTENDED_KEY_MODES, MODE_KEYS_EXTENDED, MODE_KEYS_EXTENDED_2, MODE_KEYS_KITTY};
use crate::parser::{decimal, query_reply, run, PaneState};
use crate::sequence::{command_of, step, with_digit, Command, Scan, ScannerState, ESC};

verus! {

/// An application is only ever told of, and only ever gets, what is
/// implemented: no flag beyond the supported one is in force on either screen.
pub proof fn lemma_flags_only_supported(s: ScreensState)
    requires
        s.wf(),
    ensures
        s.flags() & !SUPPORTED == 0,
        s.main.flags & !SUPPORTED == 0,
        s.alternate.flags & !SUPPORTED == 0,
{
    lemma_flag_algebra(s.main.flags, 0);
    lemma_flag_algebra(s.alternate.flags, 0);
}

/// Every request keeps the negotiation well formed: only the supported flag
/// in force or saved, and the stack within its depth.
pub proof fn lemma_requests_keep_wf(s: ScreensState, rs: Seq<KittyRequest>)
    requires
        s.wf(),
    ensures
        s.after_requests(rs).wf(),
    decreases rs.len(),
{
    if rs.len() > 0 {
        lemma_request_keeps_wf(s, rs[0]);
        lemma_requests_keep_wf(s.after_request(rs[0]), rs.drop_first());
    }
}

proof fn lemma_keyboard_request_keeps_wf(k: KeyboardState, r: KittyRequest)
    requires
        k.wf(),
    ensures
        (match r {
            KittyRequest::SetFlags(q, m) => k.after_set(q, m),
            KittyRequest::PushFlags(q) => k.after_push(q),
            KittyRequest::PopFlags(c) => k.after_pop(c),
        }).wf(),
{
    match r {
        KittyRequest::SetFlags(q, m) => {
            lemma_flag_algebra(k.flags, honoured(q));
        },
        KittyRequest::PushFlags(q) => {
            let kept = if k.stack.len() == STACK_MAX {
                k.stack.drop_first()
            } else {
                k.stack
            };
            let n = kept.push(k.flags);
            assert forall|i: int| 0 <= i < n.len() implies #[trigger] n[i] <= SUPPORTED by {
                if i < kept.len() {
                    if k.stack.len() == STACK_MAX {
                        assert(kept[i] == k.stack[i + 1]);
                    }
                }
            }
        },
        KittyRequest::PopFlags(c) => {
            let p = k.after_pop(c);
            let len = k.stack.len();
            let n: nat = if c < 0 {
                0
            } else {
                c as nat
            };
            if 0 < n <= len {
                assert(k.stack[len - n] <= SUPPORTED);
                assert forall|i: int| 0 <= i < p.stack.len() implies #[trigger] p.stack[i]
                    <= SUPPORTED by {
                    assert(p.stack[i] == k.stack[i]);
                }
            }
        },
    }
}

proof fn lemma_request_keeps_wf(s: ScreensState, r: KittyRequest)
    requires
        s.wf(),
    ensures
        s.after_request(r).wf(),
{
    lemma_keyboard_request_keeps_wf(s.current(), r);
}

/// A pop restores what the matching push saved: the flags always, and the
/// whole stack when the push did not have to evict a save.
pub proof fn lemma_pop_undoes_push(k: KeyboardState, requested: i32)
    requires
        k.wf(),
    ensures
        k.after_push(requested).after_pop(1).flags == k.flags,
        k.stack.len() < STACK_MAX ==> k.after_push(requested).after_pop(1) == k,
        k.stack.len() == STACK_MAX ==> k.after_push(requested).after_pop(1).stack
            == k.stack.drop_first(),
{
    let p = k.after_push(requested);
    let len = p.stack.len();
    assert(p.stack.take(len - 1) =~= p.stack.drop_last());
    if k.stack.len() < STACK_MAX {
        assert(p.stack.drop_last() =~= k.stack);
    } else {
        assert(p.stack.drop_last() =~= k.stack.drop_first());
    }
}

/// A push onto a full stack evicts its oldest save and keeps the depth.
pub proof fn lemma_full_stack_evicts_oldest(k: KeyboardState, requested: i32)
    requires
        k.wf(),
        k.stack.len() == STACK_MAX,
    ensures
        k.after_push(requested).stack == k.stack.drop_first().push(k.flags),
        k.after_push(requested).stack.len() == STACK_MAX,
        k.after_push(requested).flags == honoured(requested),
{
}

/// A pop that empties the stack, or pops past it, resets every flag.
pub proof fn lemma_pop_past_the_stack_resets(k: KeyboardState, count: i32)
    requires
        count >= k.stack.len(),
        count > 0,
    ensures
        k.after_pop(count).stack.len() == 0,
        count > k.stack.len() ==> k.after_pop(count).flags == 0,
        count == k.stack.len() ==> k.after_pop(count).flags == k.stack[0],
{
}

/// A pop with nothing saved resets every flag and leaves the stack empty.
pub proof fn lemma_pop_of_empty_stack_resets(k: KeyboardState, count: i32)
    requires
        k.stack.len() == 0,
        count > 0,
    ensures
        k.after_pop(count) == KeyboardState::initial(),
{
    assert(k.after_pop(count).stack =~= Seq::<u8>::empty());
}

/// Pops compose: popping `a` and then `b` entries is popping `a + b`.
pub proof fn lemma_pops_compose(k: KeyboardState, a: nat, b: nat)
    requires
        k.wf(),
    ensures
        k.after_pops(a).after_pops(b) == k.after_pops(a + b),
{
    let len = k.stack.len();
    if a > 0 && b > 0 && a <= len {
        let p = k.after_pops(a);
        assert(p.stack.len() == len - a);
        if a + b <= len {
            assert(p.stack.take(len - a - b) =~= k.stack.take(len - a - b));
        } else {
            assert(p.stack.take(0) =~= Seq::<u8>::empty());
        }
    } else if a > 0 && b > 0 {
        assert(k.after_pops(a).after_pops(b).stack =~= Seq::<u8>::empty());
    }
}

/// A replace sets exactly what is implemented of the request; a request for
/// flags that are not implemented turns nothing on.
pub proof fn lemma_replace_honours_request(k: KeyboardState, requested: i32)
    ensures
        k.after_set(requested, SetMode::Replace).flags == honoured(requested),
        k.after_set(requested, SetMode::Replace).stack == k.stack,
        requested % 2 == 0 ==> k.after_set(requested, SetMode::Replace).flags == 0,
{
}

/// Adding or removing a request that names no implemented flag changes nothing.
pub proof fn lemma_naming_no_bits_changes_nothing(k: KeyboardState, requested: i32, mode: SetMode)
    requires
        k.wf(),
        honoured(requested) == 0,
        !(mode is Replace),
    ensures
        k.after_set(requested, mode) == k,
{
    lemma_flag_algebra(k.flags, 0);
}

/// Adding the implemented flag turns it on, removing it turns it off, and
/// neither touches the stack.
pub proof fn lemma_add_and_remove(k: KeyboardState, requested: i32)
    requires
        k.wf(),
        honoured(requested) == SUPPORTED,
    ensures
        k.after_set(requested, SetMode::Add).flags == SUPPORTED,
        k.after_set(requested, SetMode::Remove).flags == 0,
        k.after_set(requested, SetMode::Add).stack == k.stack,
        k.after_set(requested, SetMode::Remove).stack == k.stack,
{
    let f = k.flags;
    assert(f | 1u8 == 1u8 && f & !1u8 == 0u8) by (bit_vector)
        requires
            f <= 1,
    ;
}

/// A request changes the negotiation of the screen in use only.
pub proof fn lemma_request_stays_on_its_screen(s: ScreensState, r: KittyRequest)
    ensures
        s.after_request(r).showing_alternate == s.showing_alternate,
        s.showing_alternate ==> s.after_request(r).main == s.main,
        !s.showing_alternate ==> s.after_request(r).alternate == s.alternate,
{
}

/// Requests change the negotiation of the screen in use only.
pub proof fn lemma_requests_stay_on_their_screen(s: ScreensState, rs: Seq<KittyRequest>)
    ensures
        s.after_requests(rs).showing_alternate == s.showing_alternate,
        s.showing_alternate ==> s.after_requests(rs).main == s.main,
        !s.showing_alternate ==> s.after_requests(rs).alternate == s.alternate,
    decreases rs.len(),
{
    if rs.len() > 0 {
        lemma_requests_stay_on_their_screen(s.after_request(rs[0]), rs.drop_first());
    }
}

/// Whatever an application does on the alternate screen, leaving it brings
/// back the main screen exactly as it was: the same flags in force and the
/// same saves, and nothing of the alternate screen's negotiation left over.
pub proof fn lemma_alternate_screen_keeps_its_own_negotiation(
    s: ScreensState,
    rs: Seq<KittyRequest>,
)
    requires
        !s.showing_alternate,
    ensures
        s.after_enter_alternate().current() == KeyboardState::initial(),
        s.after_enter_alternate().after_requests(rs).after_leave_alternate() == (ScreensState {
            alternate: KeyboardState::initial(),
            ..s
        }),
        s.after_enter_alternate().after_requests(rs).after_leave_alternate().flags() == s.flags(),
{
    lemma_requests_stay_on_their_screen(s.after_enter_alternate(), rs);
}

/// A second switch to the alternate screen changes nothing.
pub proof fn lemma_enter_alternate_idempotent(s: ScreensState)
    ensures
        s.after_enter_alternate().after_enter_alternate() == s.after_enter_alternate(),
{
}

/// Leaving the alternate screen always lands on the main screen with a fresh
/// alternate negotiation, however often it is repeated.
pub proof fn lemma_leave_alternate_idempotent(s: ScreensState)
    ensures
        s.after_leave_alternate().after_leave_alternate() == s.after_leave_alternate(),
        s.after_leave_alternate().main == s.main,
        !s.after_leave_alternate().showing_alternate,
{
}

/// After a full reset nothing is in force and no pop can restore anything.
pub proof fn lemma_reset_leaves_nothing_to_restore(count: i32)
    ensures
        ScreensState::initial().flags() == 0,
        ScreensState::initial().after_pop(count) == ScreensState::initial(),
{
    let k = KeyboardState::initial();
    if count > 0 {
        lemma_pop_of_empty_stack_resets(k, count);
    }
}

/// Putting the flags in force sets the Kitty mode bit exactly when
/// disambiguation is on, and leaves every other mode bit alone.
pub proof fn lemma_apply_touches_only_the_kitty_bit(flags: u8, modes: u32)
    ensures
        modes_applied(flags, modes) & !MODE_KEYS_KITTY == modes & !MODE_KEYS_KITTY,
        (modes_applied(flags, modes) & MODE_KEYS_KITTY != 0) == (flags & SUPPORTED != 0),
{
    let m = modes;
    assert((m | 0x20000u32) & !0x20000u32 == m & !0x20000u32 && (m & !0x20000u32) & !0x20000u32
        == m & !0x20000u32 && (m | 0x20000u32) & 0x20000u32 != 0 && (m & !0x20000u32)
        & 0x20000u32 == 0) by (bit_vector);
}

/// The query always answers, with what was honoured: `CSI ? 0 u` or
/// `CSI ? 1 u`, and asking changes nothing else.
pub proof fn lemma_query_answers_what_is_honoured(p: PaneState)
    requires
        p.kitty.wf(),
    ensures
        p.after(Command::KittyQuery).replies == p.replies + seq![
            ESC,
            0x5bu8,
            0x3fu8,
            (0x30 + p.kitty.flags()) as u8,
            0x75u8,
        ],
        p.after(Command::KittyQuery).kitty == p.kitty,
        p.after(Command::KittyQuery).modes == p.modes,
{
    let f = p.kitty.flags();
    assert(decimal(f as nat) == seq![(0x30 + f) as u8]);
    assert(query_reply(f) =~= seq![ESC, 0x5bu8, 0x3fu8, (0x30 + f) as u8, 0x75u8]);
}

/// Whether the Kitty mode bit on the screen says what the negotiation of the
/// screen in use has in force.
pub open spec fn screen_in_step(p: PaneState) -> bool {
    (p.modes & MODE_KEYS_KITTY != 0) == (p.kitty.flags() & SUPPORTED != 0)
}

proof fn lemma_mode_bits(m: u32)
    ensures
        EXTENDED_KEY_MODES == 0x38000u32,
        0u8 & SUPPORTED == 0,
        (m & !0x38000u32) & 0x20000u32 == 0,
        ((m & !0x38000u32) | 0x8000u32) & !0x20000u32 & 0x8000u32 != 0,
        ((m & !0x38000u32) | 0x8000u32) & !0x20000u32 & 0x30000u32 == 0,
        ((m & !0x38000u32) | 0x10000u32) & !0x20000u32 & 0x10000u32 != 0,
        ((m & !0x38000u32) | 0x10000u32) & !0x20000u32 & 0x28000u32 == 0,
        (m & !0x38000u32) & !0x20000u32 & 0x38000u32 == 0,
{
    assert(0x8000u32 | 0x10000u32 | 0x20000u32 == 0x38000u32) by (bit_vector);
    assert(0u8 & 1u8 == 0) by (bit_vector);
    assert((m & !0x38000u32) & 0x20000u32 == 0) by (bit_vector);
    assert(((m & !0x38000u32) | 0x8000u32) & !0x20000u32 & 0x8000u32 != 0) by (bit_vector);
    assert(((m & !0x38000u32) | 0x8000u32) & !0x20000u32 & 0x30000u32 == 0) by (bit_vector);
    assert(((m & !0x38000u32) | 0x10000u32) & !0x20000u32 & 0x10000u32 != 0) by (bit_vector);
    assert(((m & !0x38000u32) | 0x10000u32) & !0x20000u32 & 0x28000u32 == 0) by (bit_vector);
    assert((m & !0x38000u32) & !0x20000u32 & 0x38000u32 == 0) by (bit_vector);
}

/// `CSI > 4 ; level m` ends the Kitty negotiation on the screen in use, since
/// it takes every other extended-key mode with it, but keeps the saves, and
/// leaves the level it asked for as the one extended-key mode in force.
pub proof fn lemma_modify_other_keys_ends_the_negotiation(p: PaneState, level: i32)
    requires
        p.kitty.wf(),
    ensures
        ({
            let q = p.after(Command::ModifyOtherKeys(level));
            &&& q.kitty.flags() == 0
            &&& q.kitty.current().stack == p.kitty.current().stack
            &&& q.kitty.showing_alternate == p.kitty.showing_alternate
            &&& p.kitty.showing_alternate ==> q.kitty.main == p.kitty.main
            &&& !p.kitty.showing_alternate ==> q.kitty.alternate == p.kitty.alternate
            &&& q.modes & MODE_KEYS_KITTY == 0
            &&& level == 1 ==> q.modes & EXTENDED_KEY_MODES == MODE_KEYS_EXTENDED
            &&& level == 2 ==> q.modes & EXTENDED_KEY_MODES == MODE_KEYS_EXTENDED_2
            &&& level != 1 && level != 2 ==> q.modes & EXTENDED_KEY_MODES == 0
            &&& q.modes & !EXTENDED_KEY_MODES == p.modes & !EXTENDED_KEY_MODES
            &&& q.replies == p.replies
        }),
{
    let m = p.modes;
    lemma_mode_bits(m);
    assert(((m & !0x38000u32) | 0x8000u32) & !0x20000u32 & 0x38000u32 == 0x8000u32
        && ((m & !0x38000u32) | 0x10000u32) & !0x20000u32 & 0x38000u32 == 0x10000u32
        && ((m & !0x38000u32) | 0x8000u32) & !0x20000u32 & !0x38000u32 == m & !0x38000u32
        && ((m & !0x38000u32) | 0x10000u32) & !0x20000u32 & !0x38000u32 == m & !0x38000u32
        && (m & !0x38000u32) & !0x20000u32 & !0x38000u32 == m & !0x38000u32
        && ((m & !0x38000u32) | 0x8000u32) & !0x20000u32 & 0x20000u32 == 0
        && ((m & !0x38000u32) | 0x10000u32) & !0x20000u32 & 0x20000u32 == 0
        && (m & !0x38000u32) & !0x20000u32 & 0x20000u32 == 0) by (bit_vector);
}

/// A full reset forgets both screens' negotiations and every extended-key
/// mode, and touches no other mode.
pub proof fn lemma_full_reset_forgets_everything(p: PaneState)
    ensures
        p.after(Command::FullReset).kitty == ScreensState::initial(),
        p.after(Command::FullReset).modes & EXTENDED_KEY_MODES == 0,
        p.after(Command::FullReset).modes & !EXTENDED_KEY_MODES == p.modes & !EXTENDED_KEY_MODES,
        p.after(Command::FullReset).replies == p.replies,
{
    let m = p.modes;
    lemma_mode_bits(m);
    assert((m & !0x38000u32) & !0x20000u32 & 0x38000u32 == 0 && (m & !0x38000u32)
        & !0x20000u32 & !0x38000u32 == m & !0x38000u32) by (bit_vector);
}

/// Kitty requests, queries and screen switches leave the xterm
/// extended-key modes, and every other mode, alone.
pub proof fn lemma_kitty_commands_leave_other_modes_alone(p: PaneState, c: Command)
    requires
        c is Kitty || c is KittyQuery || c is AlternateScreen,
    ensures
        p.after(c).modes & !MODE_KEYS_KITTY == p.modes & !MODE_KEYS_KITTY,
{
    let k = match c {
        Command::Kitty(r) => p.kitty.after_request(r),
        Command::AlternateScreen(on) => if on {
            p.kitty.after_enter_alternate()
        } else {
            p.kitty.after_leave_alternate()
        },
        _ => p.kitty,
    };
    lemma_apply_touches_only_the_kitty_bit(k.flags(), p.modes);
}

/// After every command the Kitty mode bit on the screen says what the screen
/// in use has negotiated, given that it did before.
pub proof fn lemma_command_keeps_screen_in_step(p: PaneState, c: Command)
    requires
        screen_in_step(p),
    ensures
        screen_in_step(p.after(c)),
{
    let q = p.after(c);
    match c {
        Command::KittyQuery => {},
        Command::FullReset => {
            lemma_apply_touches_only_the_kitty_bit(0, p.modes & !EXTENDED_KEY_MODES);
        },
        Command::ModifyOtherKeys(level) => {
            let cleared = p.modes & !EXTENDED_KEY_MODES;
            let m = if level == 1 {
                cleared | MODE_KEYS_EXTENDED
            } else if level == 2 {
                cleared | MODE_KEYS_EXTENDED_2
            } else {
                cleared
            };
            lemma_apply_touches_only_the_kitty_bit(q.kitty.flags(), m);
        },
        _ => {
            lemma_apply_touches_only_the_kitty_bit(q.kitty.flags(), p.modes);
        },
    }
}

/// Whatever an application writes, the Kitty mode bit on the screen keeps
/// saying what the screen in use has negotiated.
pub proof fn lemma_parse_keeps_screen_in_step(s: ScannerState, p: PaneState, bytes: Seq<u8>)
    requires
        screen_in_step(p),
    ensures
        screen_in_step(run(s, p, bytes).1),
    decreases bytes.len(),
{
    if bytes.len() > 0 {
        lemma_parse_keeps_screen_in_step(s, p, bytes.drop_last());
        let (s1, p1) = run(s, p, bytes.drop_last());
        let (s2, c) = step(s1, bytes.last());
        if let Some(c) = c {
            lemma_command_keeps_screen_in_step(p1, c);
        }
    }
}

/// Reading `a` and then `b` is reading `a` followed by `b`: a write may end
/// anywhere, even inside a sequence, without changing what the pane does.
pub proof fn lemma_parse_splits_anywhere(
    s: ScannerState,
    p: PaneState,
    a: Seq<u8>,
    b: Seq<u8>,
)
    ensures
        run(s, p, a + b) == run(run(s, p, a).0, run(s, p, a).1, b),
    decreases b.len(),
{
    if b.len() == 0 {
        assert(a + b =~= a);
    } else {
        assert((a + b).drop_last() =~= a + b.drop_last());
        assert((a + b).last() == b.last());
        lemma_parse_splits_anywhere(s, p, a, b.drop_last());
    }
}

/// The number that the decimal digits `ds` (each 0 to 9) write.
pub open spec fn decimal_value(ds: Seq<u8>) -> int
    decreases ds.len(),
{
    if ds.len() == 0 {
        0
    } else {
        decimal_value(ds.drop_last()) * 10 + ds.last()
    }
}

/// Whether every byte of `bytes` is an ASCII digit.
pub open spec fn all_digits(bytes: Seq<u8>) -> bool {
    forall|i: int| 0 <= i < bytes.len() ==> 0x30 <= #[trigger] bytes[i] <= 0x39
}

/// A parameter is read as the number its digits write, held at `i32::MAX`.
pub proof fn lemma_parameter_is_its_decimal_value(s: ScannerState, p: PaneState, digits: Seq<u8>)
    requires
        s.scan is Control,
        s.current is None,
        digits.len() > 0,
        all_digits(digits),
    ensures
        run(s, p, digits).0 == (ScannerState {
            current: Some(
                if decimal_value(digits.map_values(|b: u8| (b - 0x30) as u8)) >= i32::MAX {
                    i32::MAX
                } else {
                    decimal_value(digits.map_values(|b: u8| (b - 0x30) as u8)) as i32
                },
            ),
            ..s
        }),
        run(s, p, digits).1 == p,
    decreases digits.len(),
{
    let ds = digits.map_values(|b: u8| (b - 0x30) as u8);
    let init = digits.drop_last();
    let d = (digits.last() - 0x30) as u8;
    assert(ds.drop_last() =~= init.map_values(|b: u8| (b - 0x30) as u8));
    assert(ds.last() == d);
    if init.len() == 0 {
        assert(run(s, p, init) == (s, p));
        assert(decimal_value(ds.drop_last()) == 0);
    } else {
        assert(all_digits(init)) by {
            assert forall|i: int| 0 <= i < init.len() implies 0x30 <= #[trigger] init[i] <= 0x39 by {
                assert(init[i] == digits[i]);
            }
        }
        lemma_parameter_is_its_decimal_value(s, p, init);
        let v = decimal_value(ds.drop_last());
        assert(v >= 0) by {
            lemma_decimal_value_nonnegative(ds.drop_last());
        }
    }
}

proof fn lemma_decimal_value_nonnegative(ds: Seq<u8>)
    ensures
        decimal_value(ds) >= 0,
    decreases ds.len(),
{
    if ds.len() > 0 {
        lemma_decimal_value_nonnegative(ds.drop_last());
    }
}

/// A push puts in force exactly the disambiguation bit of its request (set
/// when the request is positive and odd), as a replace of the same request
/// would, whatever the depth of the stack; the flags it displaces become the
/// newest save, and the stack grows by one up to its depth.
pub proof fn lemma_push_puts_the_request_in_force(k: KeyboardState, requested: i32)
    requires
        k.wf(),
    ensures
        k.after_push(requested).flags == (if requested > 0 && requested % 2 == 1 {
            1u8
        } else {
            0u8
        }),
        k.after_push(requested).flags == k.after_set(requested, SetMode::Replace).flags,
        k.after_push(requested).stack.last() == k.flags,
        k.after_push(requested).stack.len() == (if k.stack.len() < STACK_MAX {
            k.stack.len() + 1
        } else {
            STACK_MAX as nat
        }),
{
}

/// A control sequence without a private prefix is never a keyboard request:
/// `CSI u` (restore cursor), `CSI 4 m` (underline) and the like leave the
/// negotiation and the screen's key modes alone.
pub proof fn lemma_no_prefix_no_command(params: Seq<Option<i32>>, fin: u8)
    ensures
        command_of(0, params, fin) is None,
{
}

/// Only `CSI = .. u`, `CSI > .. u` and `CSI < .. u` change the Kitty
/// negotiation, and only `CSI ? u` queries it.
pub proof fn lemma_only_kitty_sequences_are_kitty_requests(
    prefix: u8,
    params: Seq<Option<i32>>,
    fin: u8,
)
    ensures
        command_of(prefix, params, fin) matches Some(Command::Kitty(r)) ==> fin == 0x75 && (
        prefix == 0x3d || prefix == 0x3e || prefix == 0x3c),
        command_of(prefix, params, fin) matches Some(Command::Kitty(KittyRequest::SetFlags(
            _,
            _,
        ))) ==> prefix == 0x3d,
        command_of(prefix, params, fin) matches Some(Command::Kitty(KittyRequest::PushFlags(_)))
            ==> prefix == 0x3e,
        command_of(prefix, params, fin) matches Some(Command::Kitty(KittyRequest::PopFlags(_)))
            ==> prefix == 0x3c,
        command_of(prefix, params, fin) matches Some(Command::KittyQuery) ==> fin == 0x75
            && prefix == 0x3f,
{
}

/// Only `CSI > 4 ; .. m` is `modifyOtherKeys`: any other final byte, prefix
/// or first parameter is not.
pub proof fn lemma_modify_other_keys_needs_its_sequence(
    prefix: u8,
    params: Seq<Option<i32>>,
    fin: u8,
)
    ensures
        command_of(prefix, params, fin) matches Some(Command::ModifyOtherKeys(_)) ==> fin == 0x6d
            && prefix == 0x3e && params.len() > 0 && params[0] == Some(4i32),
{
}

/// `CSI > 4 m`, or `CSI > 4 ; m`, turns `modifyOtherKeys` off: no
/// extended-key mode is left on the screen and the Kitty negotiation of the
/// screen in use ends, whatever the pane held before; `CSI > 4 ; level m`
/// asks for the level given.
pub proof fn lemma_modify_other_keys_without_level_is_off(
    params: Seq<Option<i32>>,
    p: PaneState,
)
    requires
        params.len() > 0,
        params[0] == Some(4i32),
        p.kitty.wf(),
    ensures
        (params.len() < 2 || params[1] is None) ==> command_of(0x3e, params, 0x6d) == Some(
            Command::ModifyOtherKeys(0),
        ),
        (params.len() < 2 || params[1] is None) ==> p.after(Command::ModifyOtherKeys(0)).modes
            & EXTENDED_KEY_MODES == 0,
        params.len() >= 2 && params[1] is Some ==> command_of(0x3e, params, 0x6d) == Some(
            Command::ModifyOtherKeys(params[1]->0),
        ),
{
    lemma_modify_other_keys_ends_the_negotiation(p, 0);
}

/// No control sequence is a full reset: only `ESC` followed by `c` is.
pub proof fn lemma_only_esc_c_resets(s: ScannerState, b: u8, prefix: u8, params: Seq<
    Option<i32>,
>, fin: u8)
    ensures
        !(command_of(prefix, params, fin) matches Some(Command::FullReset)),
        (step(s, b).1 matches Some(Command::FullReset)) <==> (s.scan is Escape && b == 0x63),
{
}

/// Whatever the pane held, reading `CSI > 4 m` outside any sequence leaves no
/// extended-key mode on the screen and no Kitty flag in force.
pub proof fn lemma_reading_modify_other_keys_off(p: PaneState)
    requires
        p.kitty.wf(),
    ensures
        ({
            let bytes = seq![ESC, 0x5bu8, 0x3eu8, 0x34u8, 0x6du8];
            let q = run(ScannerState::at(Scan::Ground), p, bytes).1;
            &&& q.modes & EXTENDED_KEY_MODES == 0
            &&& q.kitty.flags() == 0
            &&& q.replies == p.replies
        }),
{
    let bytes = seq![ESC, 0x5bu8, 0x3eu8, 0x34u8, 0x6du8];
    let g = ScannerState::at(Scan::Ground);
    let s1 = ScannerState::at(Scan::Escape);
    let s2 = ScannerState::at(Scan::Control);
    let s3 = ScannerState { prefix: 0x3e, ..s2 };
    let s4 = ScannerState { current: Some(4i32), ..s3 };
    assert(bytes.take(0) =~= Seq::<u8>::empty());
    assert(bytes.take(1).drop_last() =~= bytes.take(0));
    assert(bytes.take(2).drop_last() =~= bytes.take(1));
    assert(bytes.take(3).drop_last() =~= bytes.take(2));
    assert(bytes.take(4).drop_last() =~= bytes.take(3));
    assert(bytes.take(5) =~= bytes);
    assert(bytes.drop_last() =~= bytes.take(4));
    assert(run(g, p, bytes.take(0)) == (g, p));
    assert(run(g, p, bytes.take(1)) == (s1, p));
    assert(run(g, p, bytes.take(2)) == (s2, p));
    assert(run(g, p, bytes.take(3)) == (s3, p));
    assert(with_digit(0, 4) == 4);
    assert(run(g, p, bytes.take(4)) == (s4, p));
    let full = s4.params.push(s4.current);
    assert(full =~= seq![Some(4i32)]);
    assert(command_of(0x3e, full, 0x6d) == Some(Command::ModifyOtherKeys(0)));
    lemma_modify_other_keys_ends_the_negotiation(p, 0);
}

/// What is honoured of a request is its lowest bit when it is not negative,
/// and nothing when it is.
pub proof fn lemma_honoured_is_the_low_bit(requested: i32)
    ensures
        requested < 0 ==> honoured(requested) == 0,
        requested >= 0 ==> honoured(requested) == requested % 2,
        requested >= 0 ==> honoured(requested) == requested & 1,
{
    let r = requested;
    if r >= 0 {
        assert(r & 1i32 == r % 2) by (bit_vector)
            requires
                r >= 0,
        ;
    }
}

/// Each set mode, spelled out: a replace puts in force what is honoured of the
/// request, an add turns it on besides what is in force, a remove turns it
/// off; none of them touches the saves.
pub proof fn lemma_set_modes(k: KeyboardState, requested: i32)
    requires
        k.wf(),
    ensures
        k.after_set(requested, SetMode::Replace).flags == (if requested > 0 && requested % 2 == 1 {
            1u8
        } else {
            0u8
        }),
        k.after_set(requested, SetMode::Add).flags == (if requested > 0 && requested % 2 == 1 {
            1u8
        } else {
            k.flags
        }),
        k.after_set(requested, SetMode::Remove).flags == (if requested > 0 && requested % 2 == 1 {
            0u8
        } else {
            k.flags
        }),
        k.after_set(requested, SetMode::Replace).stack == k.stack,
        k.after_set(requested, SetMode::Add).stack == k.stack,
        k.after_set(requested, SetMode::Remove).stack == k.stack,
{
    let f = k.flags;
    assert(f | 1u8 == 1u8 && f & !1u8 == 0u8 && f | 0u8 == f && f & !0u8 == f) by (bit_vector)
        requires
            f <= 1,
    ;
}

/// A pop of `count` entries, spelled out: none when the count is not
/// positive; the save `count` back from the newest, with the saves above it
/// gone, when there are that many; every flag reset and nothing saved when
/// there are fewer.
pub proof fn lemma_pop_restores_the_saves(k: KeyboardState, count: i32)
    ensures
        count <= 0 ==> k.after_pop(count) == k,
        0 < count <= k.stack.len() ==> k.after_pop(count).flags == k.stack[k.stack.len() - count],
        0 < count <= k.stack.len() ==> k.after_pop(count).stack == k.stack.subrange(
            0,
            k.stack.len() - count,
        ),
        count > k.stack.len() ==> k.after_pop(count).flags == 0 && k.after_pop(count).stack.len()
            == 0,
{
    if 0 < count <= k.stack.len() {
        assert(k.stack.take(k.stack.len() - count) =~= k.stack.subrange(0, k.stack.len() - count));
    }
}

/// The flags an application is told of are those of the screen it sees.
pub proof fn lemma_flags_are_those_of_the_screen_in_use(s: ScreensState)
    ensures
        s.showing_alternate ==> s.flags() == s.alternate.flags,
        !s.showing_alternate ==> s.flags() == s.main.flags,
        !s.after_enter_alternate().after_leave_alternate().showing_alternate,
        s.after_enter_alternate().showing_alternate,
        !s.showing_alternate ==> s.after_enter_alternate().flags() == 0
            && s.after_enter_alternate().alternate.stack.len() == 0,
        s.after_leave_alternate().flags() == s.main.flags,
        s.after_leave_alternate().alternate.flags == 0,
        s.after_leave_alternate().alternate.stack.len() == 0,
{
}

/// After a full reset the main screen is showing, nothing is in force on
/// either screen and nothing is saved on either stack.
pub proof fn lemma_reset_state(p: PaneState)
    ensures
        !p.after(Command::FullReset).kitty.showing_alternate,
        p.after(Command::FullReset).kitty.main.flags == 0,
        p.after(Command::FullReset).kitty.alternate.flags == 0,
        p.after(Command::FullReset).kitty.main.stack.len() == 0,
        p.after(Command::FullReset).kitty.alternate.stack.len() == 0,
{
}

/// The parameters of the Kitty requests: the flags of a set or a push default
/// to none, the mode of a set to replace, the count of a pop to one; a given
/// value is taken as it is.
pub proof fn lemma_kitty_request_parameters(params: Seq<Option<i32>>)
    ensures
        ({
            let first = if params.len() > 0 && params[0] is Some {
                params[0]->0
            } else {
                0
            };
            &&& command_of(0x3e, params, 0x75) == Some(
                Command::Kitty(KittyRequest::PushFlags(first)),
            )
            &&& (params.len() > 0 && params[0] is Some) ==> command_of(0x3c, params, 0x75)
                == Some(Command::Kitty(KittyRequest::PopFlags(params[0]->0)))
            &&& !(params.len() > 0 && params[0] is Some) ==> command_of(0x3c, params, 0x75)
                == Some(Command::Kitty(KittyRequest::PopFlags(1)))
            &&& (params.len() < 2 || params[1] is None) ==> command_of(0x3d, params, 0x75)
                == Some(Command::Kitty(KittyRequest::SetFlags(first, SetMode::Replace)))
            &&& (params.len() >= 2 && params[1] == Some(2i32)) ==> command_of(0x3d, params, 0x75)
                == Some(Command::Kitty(KittyRequest::SetFlags(first, SetMode::Add)))
            &&& (params.len() >= 2 && params[1] == Some(3i32)) ==> command_of(0x3d, params, 0x75)
                == Some(Command::Kitty(KittyRequest::SetFlags(first, SetMode::Remove)))
            &&& (params.len() >= 2 && params[1] is Some && params[1] != Some(2i32) && params[1]
                != Some(3i32)) ==> command_of(0x3d, params, 0x75) == Some(
                Command::Kitty(KittyRequest::SetFlags(first, SetMode::Replace)),
            )
            &&& command_of(0x3f, params, 0x75) == Some(Command::KittyQuery)
        }),
{
}

/// `CSI ? .. 1049 .. h` switches to the alternate screen and `CSI ? .. 1049
/// .. l` back; private modes that do not include 1049 do neither, and nothing
/// else switches screens.
pub proof fn lemma_alternate_screen_sequences(prefix: u8, params: Seq<Option<i32>>, fin: u8)
    ensures
        params.contains(Some(1049i32)) ==> command_of(0x3f, params, 0x68) == Some(
            Command::AlternateScreen(true),
        ),
        params.contains(Some(1049i32)) ==> command_of(0x3f, params, 0x6c) == Some(
            Command::AlternateScreen(false),
        ),
        command_of(prefix, params, fin) matches Some(Command::AlternateScreen(on)) ==> prefix
            == 0x3f && params.contains(Some(1049i32)) && (fin == 0x68 || fin == 0x6c) && on == (
        fin == 0x68),
{
}

/// The scanner: `ESC` abandons whatever was being read; outside a sequence
/// nothing but `ESC c` makes a command; a sequence once marked malformed
/// makes none; intermediate bytes and sub-parameters mark it malformed.
pub proof fn lemma_scanner_rules(s: ScannerState, b: u8)
    ensures
        step(s, ESC) == (ScannerState::at(Scan::Escape), None::<Command>),
        s.scan is Ground ==> step(s, b).1 is None,
        s.scan is Escape && b != 0x63 ==> step(s, b).1 is None,
        s.scan is Control && s.malformed ==> step(s, b).1 is None,
        s.scan is Control && b != ESC && 0x20 <= b <= 0x2f ==> step(s, b).0.malformed,
        s.scan is Control && b == 0x3a ==> step(s, b).0.malformed,
        s.scan is Control && 0x40 <= b <= 0x7e ==> step(s, b).0.scan is Ground,
{
}

} // verus!
