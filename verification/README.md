# Ascii Wanderer

A small browser game: the player walks over a randomly drawn board of symbols
with the W, A, S and D keys, and stepping onto a rare symbol opens a popup.

- `src/` is the verified library: the board (`gamearea::arena`), the play
  area's state machine (`gamearea`), the popup placement rule
  (`gamearea::popups`) and the page that starts and resets games
  (`launcher`). The state machines return the effects they ask for; the key
  registry (`registry`) and the weighted draw (`sampling`) call the `slab` and
  `rand` crates through trusted wrappers.
- `app/` is the yew front end: it performs the effects on the DOM, measures
  pixels, and feeds browser events back as messages.
- `tests/` exercises the library.
