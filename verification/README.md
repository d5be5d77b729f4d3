# firmware

Logic of an RGBW LED lamp, verified with Verus.

- `src/color.rs`: the `Color` type.
- `src/hex.rs`: reading colours written `#RRGGBBWW`.
- `src/utils.rs`: reading colours written `RRGGBB` after `#` or `0x` marks.
- `src/animations.rs`: the colour wheel, the rainbow and static animations, and
  the set of animations that the button cycles through, with their laws.
- `src/tasks.rs`: what the lamp does with a message received over the network,
  and the message that the remote sends.
- `app/main.rs`: the lamp and its remote on an ordinary computer (TCP, standard
  input for the button, standard output for the strip).
