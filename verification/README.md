# demex_core

The core data model and command language of a DMX lighting console,
written in Verus. Every function in `src/` carries a contract that Verus
proves.

- `src/text.rs`: decimal and hexadecimal text of numbers, read and written.
- `src/fixture.rs`: fixture ids and fixture paths (building, comparing,
  ordering, text form) and fixture errors.
- `src/attribute.rs`: the GDTF attribute catalogue: names, pretty names,
  feature types and numbering.
- `src/attribute_round_trip.rs`: the proof that reading the name an
  attribute is written as gives the attribute back, and the few attributes
  for which it does not.
- `src/command.rs`: tokens, fixture selectors, objects, actions and parse
  errors.
- `src/parser.rs`: the command parser. Each parse function has a
  specification of what it reads at a position; the executable parser is
  proved to follow it.
- `src/wing.rs`: the command wing keyboard, which builds tokens and submits
  the commands they form.
- `src/queue.rs`: the queue of actions waiting to run.
- `src/selection.rs`, `src/channel.rs`, `src/effect.rs`, `src/gdtf.rs`,
  `src/clock.rs`: selections, the preset state of channel values, effect settings, fixture type
  errors and the clock.

`app/` holds what the library leaves to its host: turning the `f32` bit
patterns that tokens and set values carry into numbers and back (and the
effect speed scaling on them), typing digits into decimals on the wing, and
the serde forms of ids, paths and attributes. The channel value types that
hold floating-point levels are in neither part.

`tests/` runs the library on concrete commands and values.
