# rmux_core: Kitty keyboard negotiation

A pane's side of the Kitty keyboard protocol, verified with Verus.

- `src/kitty.rs`: the flags in force on one screen and the stack they are
  saved on (`KittyKeyboard`), both screens (`KittyScreens`), the flag mask
  (`supported`), the set modes (`SetMode`) and the screen mode bit (`apply`).
- `src/sequence.rs`: the byte-by-byte scanner for `ESC c`, `CSI = .. u`,
  `CSI ? u`, `CSI > .. u`, `CSI < .. u`, `CSI ? .. h/l` and `CSI > 4 ; .. m`.
- `src/parser.rs`: `InputParser`, which carries the commands out on a screen
  (`ScreenWriter`) and queues the replies.
- `src/laws.rs`: what holds across requests, screens and writes.
- `src/writer.rs`, `src/mode.rs`: the screen interface and its mode bits.
