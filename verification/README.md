# beet

The decisions of a behavior-tree library for the bevy game engine, verified
with Verus: which entities an action target reaches, the results that the
simple actions give, how component operations by type decide between their
errors, how a behavior graph is named and checked into a prefab, how the bee
game keeps the elements of its entities, what the lifecycle plugin schedules,
and how message data is to be decoded.

- `src/` is the verified library. Entities are held by index and generation,
  time spans by seconds and nanoseconds, and action types by integer keys.
  Behavior graphs are petgraph graphs.
- `app/` applies those decisions to a bevy world and to a web page: it asks
  the world what the library needs to know, and carries out what it decides.
- `tests/` runs the library on concrete values.
