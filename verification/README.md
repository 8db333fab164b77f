# shupogaki

An endless-runner game built on Bevy, split in two:

- `src/` is the verified library: lanes and steering, collisions and the
  player's condition, fuel outcomes, the weighted choice of what to place on
  the track, scoring and the score board, scene changes, the grouping of UI
  elements, volume labels, loading progress, and the asset-side decisions
  (which meshes and materials a model needs and where they load from, the
  order in which a model's nodes are created, joint lookup, keyframe pairing,
  mesh attributes, texture decoding). The library's own functions carry
  contracts proved by Verus, and the laws that relate several functions are
  public proof functions. The calls into `rand` (weighted and uniform draws)
  and `image` (PNG decoding) go through a few small trusted wrappers whose
  contracts are taken on trust and say, in their doc comments, what they
  claim of the outside code.
- `app/` is the game program: Bevy systems, asset loaders that parse files
  with serde, floating-point motion and animation, and collider geometry. It
  asks the library for every decision listed above.
