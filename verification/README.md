# steel_registry

Item data components, mob effects and potions of a Minecraft server, with
their network codecs, NBT forms, registries and item-use rules, verified
with Verus.

- `src/` is the verified library. `codec` holds the wire primitives (VarInt,
  big-endian integers, booleans, length-prefixed UTF-8 strings) as spec
  parsers and encoders with exact contracts; every component, effect and
  potion reader is stated against a spec parser, and every writer against
  the bytes it appends. `nbt` models the NBT values that components are
  stored as. `mob_effect` and `potion` hold the registries, whose key index
  is a `rustc_hash` map behind trusted wrappers. `build_data` holds the
  rules that turn the game's data files into registry values, and
  `behavior` the decisions taken when an item is used.
- `tests/` runs the library on concrete values.
- `app/` is the glue that Verus does not see: `std::io` streams, the
  `simdnbt` bridge, floating-point views of stored bit patterns, and the
  code generators that read the data files and emit definitions with
  `quote`.

Floats are kept as their `u32` bit patterns in the library.
