# style_data

Per-node data of a CSS style system, written and proved in Verus.

- `hints`: restyle hints, what they cover at each depth of the tree, and how they
  combine and propagate.
- `damage`: the work that a change of style leaves to layout.
- `styles`: the styles of a node and of its pseudo-elements.
- `snapshot`: an optional snapshot whose drop can be put off.
- `restyle`: what the restyle algorithm keeps for a node while it works on it.
- `element`: the data of a node through its states Initial, Restyle and Persistent.

Rule nodes, snapshots and the computed values other than `display` are type
parameters: the crate carries them without looking inside. Selector matching comes
in as a closure. The public proof functions, named `law_..`, state what holds across
operations.

`app/` ties the data to an engine: its document, its selector matching, its threads
and its log.
