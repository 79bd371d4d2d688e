//! Clientbound packets that add, update and remove an entity's mob effects.
use vstd::prelude::*;
use crate::codec::{string_bytes, varint_encode, write_u8, write_varint};
use crate::identifier::{identifier_text, Identifier};

verus! {

/// Tells the client the state of one of an entity's effects.
#[derive(Clone, Debug)]
pub struct CUpdateMobEffect {
    pub entity_id: i32,
    pub effect_id: i32,
    pub amplfier: i32,
    /// The duration in ticks, -1 for infinite.
    pub duration: i32,
    pub flags: i8,
}

/// The sum of the flag bits: 1 ambient, 2 visible, 4 show icon, 8 blend.
pub open spec fn flags_value(ambient: bool, visible: bool, show_icon: bool, blend: bool) -> int {
    (if ambient {
        1int
    } else {
        0int
    }) + (if visible {
        2int
    } else {
        0int
    }) + (if show_icon {
        4int
    } else {
        0int
    }) + (if blend {
        8int
    } else {
        0int
    })
}

/// Setting a bit above all bits set so far adds it.
proof fn lemma_or_adds(f: i8, b: i8)
    requires
        0 <= f < b,
        b == 1 || b == 2 || b == 4 || b == 8,
    ensures
        f | b == f + b,
{
    assert(0 <= f < b && (b == 1 || b == 2 || b == 4 || b == 8) ==> f | b == f + b) by (bit_vector);
}

impl CUpdateMobEffect {
    /// The packet for an effect; no duration is sent as -1.
    pub fn new(entity_id: i32, effect_id: i32, amplifier: i32, duration: Option<i32>, flags: i8) -> (p:
        Self)
        ensures
            p.entity_id == entity_id,
            p.effect_id == effect_id,
            p.amplfier == amplifier,
            p.duration == (match duration {
                Some(d) => d,
                None => -1i32,
            }),
            p.flags == flags,
    {
        CUpdateMobEffect {
            entity_id,
            effect_id,
            amplfier: amplifier,
            duration: duration.unwrap_or(-1),
            flags,
        }
    }

    /// The flag byte: 1 ambient, 2 visible, 4 show icon, 8 blend.
    pub fn make_flags(ambient: bool, visible: bool, show_icon: bool, blend: bool) -> (flags: i8)
        ensures
            flags as int == flags_value(ambient, visible, show_icon, blend),
    {
        let mut flags: i8 = 0;
        if ambient {
            proof {
                lemma_or_adds(flags, 1);
            }
            flags |= 1;
        }
        if visible {
            proof {
                lemma_or_adds(flags, 2);
            }
            flags |= 2;
        }
        if show_icon {
            proof {
                lemma_or_adds(flags, 4);
            }
            flags |= 4;
        }
        if blend {
            proof {
                lemma_or_adds(flags, 8);
            }
            flags |= 8;
        }
        flags
    }

    /// Appends the packet body: the four numbers as VarInts and the flag byte.
    pub fn write(&self, out: &mut Vec<u8>)
        ensures
            final(out)@ == old(out)@ + varint_encode(self.entity_id) + varint_encode(self.effect_id)
                + varint_encode(self.amplfier) + varint_encode(self.duration) + seq![self.flags as u8],
    {
        write_varint(out, self.entity_id);
        write_varint(out, self.effect_id);
        write_varint(out, self.amplfier);
        write_varint(out, self.duration);
        write_u8(out, self.flags as u8);
    }
}

/// Each flag can be read back from its bit of the flag byte.
pub proof fn lemma_flags_readable(ambient: bool, visible: bool, show_icon: bool, blend: bool, flags: i8)
    requires
        flags as int == flags_value(ambient, visible, show_icon, blend),
    ensures
        (flags & 1 != 0) == ambient,
        (flags & 2 != 0) == visible,
        (flags & 4 != 0) == show_icon,
        (flags & 8 != 0) == blend,
{
    let a: i8 = if ambient { 1 } else { 0 };
    let v: i8 = if visible { 2 } else { 0 };
    let s: i8 = if show_icon { 4 } else { 0 };
    let b: i8 = if blend { 8 } else { 0 };
    assert(flags == a + v + s + b);
    assert((a == 0 || a == 1) && (v == 0 || v == 2) && (s == 0 || s == 4) && (b == 0 || b == 8)
        && flags == a + v + s + b ==> ((flags & 1 != 0) == (a == 1) && (flags & 2 != 0) == (v == 2)
        && (flags & 4 != 0) == (s == 4) && (flags & 8 != 0) == (b == 8))) by (bit_vector);
}

/// Tells the client that an entity lost an effect.
#[derive(Clone, Debug)]
pub struct CRemoveMobEffect {
    pub entity_id: i32,
    pub identifier: Identifier,
}

impl CRemoveMobEffect {
    /// The packet for an entity and the effect it lost.
    pub fn new(entity_id: i32, identifier: Identifier) -> (p: Self)
        ensures
            p.entity_id == entity_id,
            p.identifier@ == identifier@,
    {
        CRemoveMobEffect { entity_id, identifier }
    }

    /// Appends the packet body: the entity id as a VarInt and the effect's key text.
    pub fn write(&self, out: &mut Vec<u8>)
        ensures
            final(out)@ == old(out)@ + varint_encode(self.entity_id) + string_bytes(
                identifier_text(self.identifier@),
            ),
    {
        write_varint(out, self.entity_id);
        self.identifier.write(out);
    }
}

} // verus!
