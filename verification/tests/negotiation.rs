//! The negotiation's pieces on their own: the flag mask, the set modes, one
//! screen's stack, both screens, the mode bit, and the sequence reader.

use rmux_core::kitty::{apply, supported, KittyKeyboard, KittyScreens, SetMode, STACK_MAX};
use rmux_core::{InputParser, RecordingWriter, MODE_KEYS_EXTENDED, MODE_KEYS_EXTENDED_2, MODE_KEYS_KITTY};

fn session() -> (InputParser, RecordingWriter) {
    (InputParser::new(), RecordingWriter::new(80, 24))
}

fn on(w: &RecordingWriter) -> bool {
    (w.mode & MODE_KEYS_KITTY) != 0
}

#[test]
fn supported_keeps_only_the_disambiguation_bit() {
    assert_eq!(supported(0), 0);
    assert_eq!(supported(1), 1);
    assert_eq!(supported(2), 0);
    assert_eq!(supported(30), 0);
    assert_eq!(supported(31), 1);
    assert_eq!(supported(-1), 0);
    assert_eq!(supported(i32::MIN), 0);
    assert_eq!(supported(i32::MAX), 1);
}

#[test]
fn the_mode_parameter_names_a_set_mode() {
    assert!(matches!(SetMode::from_param(1), SetMode::Replace));
    assert!(matches!(SetMode::from_param(2), SetMode::Add));
    assert!(matches!(SetMode::from_param(3), SetMode::Remove));
    assert!(matches!(SetMode::from_param(0), SetMode::Replace));
    assert!(matches!(SetMode::from_param(4), SetMode::Replace));
    assert!(matches!(SetMode::from_param(-2), SetMode::Replace));
}

#[test]
fn set_modes_on_one_screen() {
    let mut k = KittyKeyboard::default();
    assert_eq!(k.flags(), 0);
    k.set(3, &SetMode::Add);
    assert_eq!(k.flags(), 1);
    k.set(2, &SetMode::Remove);
    assert_eq!(k.flags(), 1, "naming no implemented bit removes nothing");
    k.set(1, &SetMode::Remove);
    assert_eq!(k.flags(), 0);
    k.set(-1, &SetMode::Replace);
    assert_eq!(k.flags(), 0, "a negative request asks for nothing");
}

#[test]
fn a_pop_undoes_a_push_on_one_screen() {
    let mut k = KittyKeyboard::default();
    k.set(1, &SetMode::Replace);
    k.push(0);
    assert_eq!(k.flags(), 0);
    k.pop(1);
    assert_eq!(k.flags(), 1);
    k.pop(1);
    assert_eq!(k.flags(), 0, "nothing saved: every flag resets");
}

#[test]
fn a_negative_or_zero_pop_changes_nothing() {
    let mut k = KittyKeyboard::default();
    k.push(1);
    k.pop(-5);
    assert_eq!(k.flags(), 1);
    k.pop(0);
    assert_eq!(k.flags(), 1);
}

#[test]
fn the_stack_keeps_the_newest_saves() {
    let mut k = KittyKeyboard::default();
    // saves 0, then 1, 0, 1, ... alternating; the oldest go first
    for i in 0..(STACK_MAX as i32 + 3) {
        k.push(if i % 2 == 0 { 1 } else { 0 });
    }
    let mut seen = Vec::new();
    for _ in 0..STACK_MAX {
        k.pop(1);
        seen.push(k.flags());
    }
    let expected: Vec<u8> = (0..STACK_MAX).map(|i| if i % 2 == 0 { 0 } else { 1 }).collect();
    assert_eq!(seen, expected);
    k.pop(1);
    assert_eq!(k.flags(), 0, "the evicted saves are gone");
}

#[test]
fn screens_negotiate_independently() {
    let mut s = KittyScreens::default();
    s.push(1);
    assert_eq!(s.flags(), 1);
    s.enter_alternate();
    assert_eq!(s.flags(), 0);
    s.set(1, &SetMode::Replace);
    s.enter_alternate();
    assert_eq!(s.flags(), 1, "a second switch keeps the negotiation");
    s.pop(9);
    s.leave_alternate();
    assert_eq!(s.flags(), 1);
    s.enter_alternate();
    assert_eq!(s.flags(), 0, "the alternate screen starts afresh each time");
    s.leave_alternate();
    s.pop(1);
    assert_eq!(s.flags(), 0, "the main screen's save comes back");
}

#[test]
fn current_is_the_screen_in_use() {
    let mut s = KittyScreens::default();
    s.current().set(1, &SetMode::Replace);
    assert_eq!(s.flags(), 1);
    s.enter_alternate();
    assert_eq!(s.current().flags(), 0);
    s.current().push(1);
    assert_eq!(s.flags(), 1);
    s.leave_alternate();
    assert_eq!(s.flags(), 1);
}

#[test]
fn a_reset_forgets_both_screens() {
    let mut s = KittyScreens::default();
    s.push(1);
    s.enter_alternate();
    s.push(1);
    s.reset();
    assert_eq!(s.flags(), 0);
    s.pop(1);
    assert_eq!(s.flags(), 0);
    s.leave_alternate();
    assert_eq!(s.flags(), 0);
}

#[test]
fn apply_touches_only_the_kitty_bit() {
    let mut s = KittyScreens::default();
    let mut w = RecordingWriter::new(80, 24);
    w.mode = MODE_KEYS_EXTENDED_2 | 0x1;
    apply(&s, &mut w);
    assert_eq!(w.mode, MODE_KEYS_EXTENDED_2 | 0x1);
    s.set(1, &SetMode::Replace);
    apply(&s, &mut w);
    assert_eq!(w.mode, MODE_KEYS_EXTENDED_2 | 0x1 | MODE_KEYS_KITTY);
    s.set(1, &SetMode::Remove);
    apply(&s, &mut w);
    assert_eq!(w.mode, MODE_KEYS_EXTENDED_2 | 0x1);
}

#[test]
fn a_sequence_split_across_writes_still_counts() {
    let (mut p, mut w) = session();
    p.parse(b"\x1b", &mut w);
    p.parse(b"[>", &mut w);
    assert!(!on(&w));
    p.parse(b"1u\x1b[?", &mut w);
    assert!(on(&w));
    assert!(p.take_replies().is_empty());
    p.parse(b"u", &mut w);
    assert_eq!(p.take_replies(), b"\x1b[?1u".to_vec());
    assert!(p.take_replies().is_empty(), "a take leaves nothing");
}

#[test]
fn replies_queue_until_taken() {
    let (mut p, mut w) = session();
    p.parse(b"\x1b[?u\x1b[=1u\x1b[?u", &mut w);
    assert_eq!(p.take_replies(), b"\x1b[?0u\x1b[?1u".to_vec());
    assert_eq!(p.kitty_flags(), 1);
}

#[test]
fn a_malformed_sequence_does_nothing() {
    let (mut p, mut w) = session();
    p.parse(b"\x1b[= 1u", &mut w);
    assert!(!on(&w), "an intermediate byte");
    p.parse(b"\x1b[=1:1u", &mut w);
    assert!(!on(&w), "a sub-parameter");
    p.parse(b"\x1b[1=u", &mut w);
    assert!(!on(&w), "a prefix after a parameter");
    p.parse(b"\x1b[>;;;;;;;;;;;;;;;;1u", &mut w);
    assert!(!on(&w), "too many parameters");
    p.parse(b"\x1b[=1\x1b[?u", &mut w);
    assert!(!on(&w), "an escape abandons the sequence");
    assert_eq!(p.take_replies(), b"\x1b[?0u".to_vec());
    p.parse(b"\x1b[>1u", &mut w);
    assert!(on(&w), "the scanner recovers");
}

#[test]
fn a_huge_parameter_is_held_at_the_largest_value() {
    let (mut p, mut w) = session();
    p.parse(b"\x1b[=99999999999999999999;1u", &mut w);
    assert!(on(&w), "held at i32::MAX, which names the supported bit");
    p.parse(b"\x1b[=4294967296;1u", &mut w);
    assert!(on(&w));
}

#[test]
fn text_and_other_sequences_are_ignored() {
    let (mut p, mut w) = session();
    p.parse(b"hello\x1b[1;2H\x1b[?25h\x1b[>1m\x1bX", &mut w);
    assert_eq!(w.mode, 0);
    assert!(p.take_replies().is_empty());
}

#[test]
fn the_alternate_screen_is_found_among_several_modes() {
    let (mut p, mut w) = session();
    p.parse(b"\x1b[>1u\x1b[?1;1049h", &mut w);
    assert!(!on(&w));
    p.parse(b"\x1b[?25;1049l", &mut w);
    assert!(on(&w));
}

#[test]
fn modify_other_keys_levels() {
    let (mut p, mut w) = session();
    p.parse(b"\x1b[>4;1m", &mut w);
    assert_eq!(w.mode, MODE_KEYS_EXTENDED);
    p.parse(b"\x1b[>4;2m", &mut w);
    assert_eq!(w.mode, MODE_KEYS_EXTENDED_2);
    p.parse(b"\x1b[>4;0m", &mut w);
    assert_eq!(w.mode, 0);
    p.parse(b"\x1b[>5;2m", &mut w);
    assert_eq!(w.mode, 0, "only resource 4 is modifyOtherKeys");
}

#[test]
fn a_full_reset_clears_every_extended_key_mode() {
    let (mut p, mut w) = session();
    w.mode = 0x1;
    p.parse(b"\x1b[>4;2m\x1bc", &mut w);
    assert_eq!(w.mode, 0x1);
    p.parse(b"\x1b[>1u\x1b\x1bc", &mut w);
    assert!(!on(&w), "an escape then RIS still resets");
}

#[test]
fn a_pop_without_a_number_pops_one_and_zero_pops_none() {
    let (mut p, mut w) = session();
    p.parse(b"\x1b[>1u\x1b[>1u\x1b[<0u", &mut w);
    assert!(on(&w));
    p.parse(b"\x1b[<u", &mut w);
    assert!(on(&w));
    p.parse(b"\x1b[<u", &mut w);
    assert!(!on(&w));
}
