//! Item use animations and item-side potion data.
use vstd::prelude::*;
use crate::codec::{
    parse_count, parse_string, parse_varint, reads_as, string_bytes, varint_encode, write_string,
    write_varint, ByteReader, DecodeError, Parsed,
};
use crate::identifier::str_eq;
use crate::mob_effect::{
    all_resolvable, instance_list_bytes, parse_instance_list, read_instance_list,
    write_instance_list, MobEffectInstance, MobEffectInstanceModel, MobEffectRegistry,
};

verus! {

/// The animation that plays while an item is used.
#[derive(Debug, Clone, Copy, PartialEq, Eq, Hash, Structural)]
pub enum ItemUseAnimation {
    NoAnimation,
    Eat,
    Drink,
    Block,
    Bow,
    Trident,
    Crossbow,
    Spyglass,
    TootHorn,
    Brush,
    Bundle,
    Spear,
}

impl View for ItemUseAnimation {
    type V = ItemUseAnimation;

    open spec fn view(&self) -> ItemUseAnimation {
        *self
    }
}

/// The numeric id of each animation, in declaration order from 0.
pub open spec fn animation_id(a: ItemUseAnimation) -> i32 {
    match a {
        ItemUseAnimation::NoAnimation => 0,
        ItemUseAnimation::Eat => 1,
        ItemUseAnimation::Drink => 2,
        ItemUseAnimation::Block => 3,
        ItemUseAnimation::Bow => 4,
        ItemUseAnimation::Trident => 5,
        ItemUseAnimation::Crossbow => 6,
        ItemUseAnimation::Spyglass => 7,
        ItemUseAnimation::TootHorn => 8,
        ItemUseAnimation::Brush => 9,
        ItemUseAnimation::Bundle => 10,
        ItemUseAnimation::Spear => 11,
    }
}

/// The animation with a given id, if any.
pub open spec fn animation_from_id(id: i32) -> Option<ItemUseAnimation> {
    if id == 0 {
        Some(ItemUseAnimation::NoAnimation)
    } else if id == 1 {
        Some(ItemUseAnimation::Eat)
    } else if id == 2 {
        Some(ItemUseAnimation::Drink)
    } else if id == 3 {
        Some(ItemUseAnimation::Block)
    } else if id == 4 {
        Some(ItemUseAnimation::Bow)
    } else if id == 5 {
        Some(ItemUseAnimation::Trident)
    } else if id == 6 {
        Some(ItemUseAnimation::Crossbow)
    } else if id == 7 {
        Some(ItemUseAnimation::Spyglass)
    } else if id == 8 {
        Some(ItemUseAnimation::TootHorn)
    } else if id == 9 {
        Some(ItemUseAnimation::Brush)
    } else if id == 10 {
        Some(ItemUseAnimation::Bundle)
    } else if id == 11 {
        Some(ItemUseAnimation::Spear)
    } else {
        None
    }
}

/// The lower-case name of each animation.
pub open spec fn animation_name(a: ItemUseAnimation) -> Seq<char> {
    match a {
        ItemUseAnimation::NoAnimation => seq!['n', 'o', 'n', 'e'],
        ItemUseAnimation::Eat => seq!['e', 'a', 't'],
        ItemUseAnimation::Drink => seq!['d', 'r', 'i', 'n', 'k'],
        ItemUseAnimation::Block => seq!['b', 'l', 'o', 'c', 'k'],
        ItemUseAnimation::Bow => seq!['b', 'o', 'w'],
        ItemUseAnimation::Trident => seq!['t', 'r', 'i', 'd', 'e', 'n', 't'],
        ItemUseAnimation::Crossbow => seq!['c', 'r', 'o', 's', 's', 'b', 'o', 'w'],
        ItemUseAnimation::Spyglass => seq!['s', 'p', 'y', 'g', 'l', 'a', 's', 's'],
        ItemUseAnimation::TootHorn => seq!['t', 'o', 'o', 't', '_', 'h', 'o', 'r', 'n'],
        ItemUseAnimation::Brush => seq!['b', 'r', 'u', 's', 'h'],
        ItemUseAnimation::Bundle => seq!['b', 'u', 'n', 'd', 'l', 'e'],
        ItemUseAnimation::Spear => seq!['s', 'p', 'e', 'a', 'r'],
    }
}

/// The animation with a given name, if any.
pub open spec fn animation_from_name(t: Seq<char>) -> Option<ItemUseAnimation> {
    if t == animation_name(ItemUseAnimation::NoAnimation) {
        Some(ItemUseAnimation::NoAnimation)
    } else if t == animation_name(ItemUseAnimation::Eat) {
        Some(ItemUseAnimation::Eat)
    } else if t == animation_name(ItemUseAnimation::Drink) {
        Some(ItemUseAnimation::Drink)
    } else if t == animation_name(ItemUseAnimation::Block) {
        Some(ItemUseAnimation::Block)
    } else if t == animation_name(ItemUseAnimation::Bow) {
        Some(ItemUseAnimation::Bow)
    } else if t == animation_name(ItemUseAnimation::Trident) {
        Some(ItemUseAnimation::Trident)
    } else if t == animation_name(ItemUseAnimation::Crossbow) {
        Some(ItemUseAnimation::Crossbow)
    } else if t == animation_name(ItemUseAnimation::Spyglass) {
        Some(ItemUseAnimation::Spyglass)
    } else if t == animation_name(ItemUseAnimation::TootHorn) {
        Some(ItemUseAnimation::TootHorn)
    } else if t == animation_name(ItemUseAnimation::Brush) {
        Some(ItemUseAnimation::Brush)
    } else if t == animation_name(ItemUseAnimation::Bundle) {
        Some(ItemUseAnimation::Bundle)
    } else if t == animation_name(ItemUseAnimation::Spear) {
        Some(ItemUseAnimation::Spear)
    } else {
        None
    }
}

/// The error message for an animation name that names none.
pub open spec fn unknown_animation_message(name: Seq<char>) -> Seq<char> {
    "Unknown item use animation: '"@ + name + "'"@
}

/// An animation read as its VarInt id.
pub open spec fn parse_animation(s: Seq<u8>) -> Parsed<ItemUseAnimation> {
    match parse_varint(s) {
        Ok((id, rest)) => match animation_from_id(id) {
            Some(a) => Ok((a, rest)),
            None => Err(DecodeError::UnknownAnimation(id)),
        },
        Err(e) => Err(e),
    }
}

impl ItemUseAnimation {
    /// The numeric id.
    pub fn id(self) -> (id: i32)
        ensures
            id == animation_id(self),
    {
        match self {
            ItemUseAnimation::NoAnimation => 0,
            ItemUseAnimation::Eat => 1,
            ItemUseAnimation::Drink => 2,
            ItemUseAnimation::Block => 3,
            ItemUseAnimation::Bow => 4,
            ItemUseAnimation::Trident => 5,
            ItemUseAnimation::Crossbow => 6,
            ItemUseAnimation::Spyglass => 7,
            ItemUseAnimation::TootHorn => 8,
            ItemUseAnimation::Brush => 9,
            ItemUseAnimation::Bundle => 10,
            ItemUseAnimation::Spear => 11,
        }
    }

    /// The lower-case name.
    pub fn as_str(self) -> (s: &'static str)
        ensures
            s@ == animation_name(self),
    {
        match self {
            ItemUseAnimation::NoAnimation => {
                proof {
                    reveal_strlit("none");
                }
                "none"
            },
            ItemUseAnimation::Eat => {
                proof {
                    reveal_strlit("eat");
                }
                "eat"
            },
            ItemUseAnimation::Drink => {
                proof {
                    reveal_strlit("drink");
                }
                "drink"
            },
            ItemUseAnimation::Block => {
                proof {
                    reveal_strlit("block");
                }
                "block"
            },
            ItemUseAnimation::Bow => {
                proof {
                    reveal_strlit("bow");
                }
                "bow"
            },
            ItemUseAnimation::Trident => {
                proof {
                    reveal_strlit("trident");
                }
                "trident"
            },
            ItemUseAnimation::Crossbow => {
                proof {
                    reveal_strlit("crossbow");
                }
                "crossbow"
            },
            ItemUseAnimation::Spyglass => {
                proof {
                    reveal_strlit("spyglass");
                }
                "spyglass"
            },
            ItemUseAnimation::TootHorn => {
                proof {
                    reveal_strlit("toot_horn");
                }
                "toot_horn"
            },
            ItemUseAnimation::Brush => {
                proof {
                    reveal_strlit("brush");
                }
                "brush"
            },
            ItemUseAnimation::Bundle => {
                proof {
                    reveal_strlit("bundle");
                }
                "bundle"
            },
            ItemUseAnimation::Spear => {
                proof {
                    reveal_strlit("spear");
                }
                "spear"
            },
        }
    }

    /// Whether the arm is posed by the animation itself (eating, drinking, spears).
    pub fn custom_arm_transform(self) -> (b: bool)
        ensures
            b == (self == ItemUseAnimation::Eat || self == ItemUseAnimation::Drink || self
                == ItemUseAnimation::Spear),
    {
        match self {
            ItemUseAnimation::Eat | ItemUseAnimation::Drink | ItemUseAnimation::Spear => true,
            _ => false,
        }
    }

    /// The animation with the given id, if any.
    pub fn from_id(id: i32) -> (r: Option<Self>)
        ensures
            r == animation_from_id(id),
    {
        match id {
            0 => Some(ItemUseAnimation::NoAnimation),
            1 => Some(ItemUseAnimation::Eat),
            2 => Some(ItemUseAnimation::Drink),
            3 => Some(ItemUseAnimation::Block),
            4 => Some(ItemUseAnimation::Bow),
            5 => Some(ItemUseAnimation::Trident),
            6 => Some(ItemUseAnimation::Crossbow),
            7 => Some(ItemUseAnimation::Spyglass),
            8 => Some(ItemUseAnimation::TootHorn),
            9 => Some(ItemUseAnimation::Brush),
            10 => Some(ItemUseAnimation::Bundle),
            11 => Some(ItemUseAnimation::Spear),
            _ => None,
        }
    }

    /// The animation with the given name; an unknown name gives the message
    /// `Unknown item use animation: '<name>'`.
    pub fn from_str(name: &str) -> (r: Result<Self, String>)
        ensures
            animation_from_name(name@) matches Some(a) ==> r == Ok::<ItemUseAnimation, String>(a),
            animation_from_name(name@) is None ==> r is Err && r->Err_0@ == unknown_animation_message(
                name@,
            ),
    {
        let mut k: usize = 0;
        let all = [
            ItemUseAnimation::NoAnimation,
            ItemUseAnimation::Eat,
            ItemUseAnimation::Drink,
            ItemUseAnimation::Block,
            ItemUseAnimation::Bow,
            ItemUseAnimation::Trident,
            ItemUseAnimation::Crossbow,
            ItemUseAnimation::Spyglass,
            ItemUseAnimation::TootHorn,
            ItemUseAnimation::Brush,
            ItemUseAnimation::Bundle,
            ItemUseAnimation::Spear,
        ];
        while k < 12
            invariant
                k <= 12,
                all@.len() == 12,
                forall|j: int| 0 <= j < 12 ==> animation_id(#[trigger] all@[j]) == j,
                forall|j: int| 0 <= j < k ==> name@ != animation_name(#[trigger] all@[j]),
            decreases 12 - k,
        {
            let a = all[k];
            if str_eq(name, a.as_str()) {
                proof {
                    lemma_names_distinct();
                }
                return Ok(a);
            }
            k = k + 1;
        }
        proof {
            lemma_names_distinct();
            assert(animation_from_name(name@) is None) by {
                assert(name@ != animation_name(all@[0]));
                assert(name@ != animation_name(all@[1]));
                assert(name@ != animation_name(all@[2]));
                assert(name@ != animation_name(all@[3]));
                assert(name@ != animation_name(all@[4]));
                assert(name@ != animation_name(all@[5]));
                assert(name@ != animation_name(all@[6]));
                assert(name@ != animation_name(all@[7]));
                assert(name@ != animation_name(all@[8]));
                assert(name@ != animation_name(all@[9]));
                assert(name@ != animation_name(all@[10]));
                assert(name@ != animation_name(all@[11]));
            }
        }
        let mut message = String::from_str("Unknown item use animation: '");
        message.append(name);
        message.append("'");
        Err(message)
    }

    /// Appends the id as a VarInt.
    pub fn write(&self, out: &mut Vec<u8>)
        ensures
            final(out)@ == old(out)@ + varint_encode(animation_id(*self)),
    {
        write_varint(out, self.id());
    }
}

/// No two animations share a name.
pub proof fn lemma_names_distinct()
    ensures
        forall|a: ItemUseAnimation, b: ItemUseAnimation|
            a != b ==> animation_name(a) != animation_name(b),
{
    assert forall|a: ItemUseAnimation, b: ItemUseAnimation| a != b implies animation_name(a)
        != animation_name(b) by {
        let x = animation_name(a);
        let y = animation_name(b);
        if x.len() == y.len() {
            if x[0] == y[0] {
                assert(x[1] != y[1]);
            } else {
                assert(x[0] != y[0]);
            }
        }
    }
}

/// An animation's name leads back to it.
pub proof fn lemma_name_roundtrip(a: ItemUseAnimation)
    ensures
        animation_from_name(animation_name(a)) == Some(a),
{
    lemma_names_distinct();
}

/// An animation's id leads back to it, and every id that names an
/// animation is that animation's id.
pub proof fn lemma_id_roundtrip(a: ItemUseAnimation, id: i32)
    ensures
        animation_from_id(animation_id(a)) == Some(a),
        animation_from_id(id) matches Some(b) ==> animation_id(b) == id,
{
}

/// A written animation reads back as itself, whatever follows.
pub proof fn lemma_animation_wire_roundtrip(a: ItemUseAnimation, rest: Seq<u8>)
    ensures
        parse_animation(varint_encode(animation_id(a)) + rest) == Ok::<
            (ItemUseAnimation, Seq<u8>),
            DecodeError,
        >((a, rest)),
{
    crate::codec::lemma_varint_roundtrip(animation_id(a), rest);
}

/// Reads an animation as its VarInt id.
pub fn read_animation(r: &mut ByteReader) -> (res: Result<ItemUseAnimation, DecodeError>)
    requires
        old(r).wf(),
    ensures
        final(r).wf(),
        final(r).input() == old(r).input(),
        reads_as(res, final(r).rest(), parse_animation(old(r).rest())),
{
    let id = r.read_varint()?;
    match ItemUseAnimation::from_id(id) {
        Some(a) => Ok(a),
        None => Err(DecodeError::UnknownAnimation(id)),
    }
}

/// A potion as items carry it: a name and its effects.
#[derive(Debug)]
pub struct Potion {
    pub name: String,
    pub effects: Vec<MobEffectInstance>,
}

/// An item potion as the contracts see it.
pub struct PotionModel {
    pub name: Seq<char>,
    pub effects: Seq<MobEffectInstanceModel>,
}

impl View for Potion {
    type V = PotionModel;

    open spec fn view(&self) -> PotionModel {
        PotionModel {
            name: self.name@,
            effects: self.effects@.map_values(|e: MobEffectInstance| e@),
        }
    }
}

/// Whether one of the effects lasts zero ticks.
pub open spec fn has_instant(effects: Seq<MobEffectInstanceModel>) -> bool {
    exists|i: int| 0 <= i < effects.len() && (#[trigger] effects[i]).duration == Some(0i32)
}

/// The wire form: the name, the effect count and the effects.
pub open spec fn item_potion_bytes(p: PotionModel) -> Seq<u8> {
    string_bytes(p.name) + varint_encode(p.effects.len() as i32) + instance_list_bytes(p.effects)
}

/// An item potion read from the wire.
pub open spec fn parse_item_potion(s: Seq<u8>) -> Parsed<PotionModel> {
    match parse_string(s) {
        Err(e) => Err(e),
        Ok((name, r1)) => match parse_count(r1) {
            Err(e) => Err(e),
            Ok((n, r2)) => match parse_instance_list(r2, n) {
                Err(e) => Err(e),
                Ok((effects, r3)) => Ok((PotionModel { name, effects }, r3)),
            },
        },
    }
}

/// Whether any instance in the list lasts zero ticks.
pub fn any_instantaneous(effects: &Vec<MobEffectInstance>) -> (b: bool)
    ensures
        b == has_instant(effects@.map_values(|e: MobEffectInstance| e@)),
{
    let ghost m = effects@.map_values(|e: MobEffectInstance| e@);
    let n = effects.len();
    let mut k: usize = 0;
    while k < n
        invariant
            n == effects@.len(),
            m == effects@.map_values(|e: MobEffectInstance| e@),
            k <= n,
            forall|j: int| 0 <= j < k ==> (#[trigger] m[j]).duration != Some(0i32),
        decreases n - k,
    {
        if effects[k].is_instantaneous() {
            assert(m[k as int].duration == Some(0i32));
            return true;
        }
        k = k + 1;
    }
    false
}

impl Potion {
    /// A potion with the given name and effects.
    pub fn new(name: String, effects: Vec<MobEffectInstance>) -> (p: Self)
        ensures
            p@ == (PotionModel { name: name@, effects: effects@.map_values(|e: MobEffectInstance| e@) }),
    {
        Potion { name, effects }
    }

    /// Whether one of the effects lasts zero ticks.
    pub fn has_instant_effects(&self) -> (b: bool)
        ensures
            b == has_instant(self@.effects),
    {
        any_instantaneous(&self.effects)
    }

    /// Appends the wire form; every effect named only by key must be registered.
    pub fn write(&self, out: &mut Vec<u8>, registry: &MobEffectRegistry)
        requires
            registry.wf(),
            all_resolvable(self@.effects, registry),
        ensures
            final(out)@ == old(out)@ + item_potion_bytes(self@),
    {
        write_string(out, self.name.as_str());
        write_varint(out, self.effects.len() as i32);
        write_instance_list(out, &self.effects, registry);
        assert(out@ =~= old(out)@ + item_potion_bytes(self@));
    }
}

/// Reads an item potion.
pub fn read_item_potion(r: &mut ByteReader) -> (res: Result<Potion, DecodeError>)
    requires
        old(r).wf(),
    ensures
        final(r).wf(),
        final(r).input() == old(r).input(),
        reads_as(res, final(r).rest(), parse_item_potion(old(r).rest())),
{
    let name = r.read_string()?;
    let n = r.read_count()?;
    let effects = read_instance_list(r, n)?;
    Ok(Potion { name, effects })
}

/// A written item potion without effects reads back as itself, whatever
/// follows, when its name's UTF-8 length fits an `i32`. (Effects are
/// written with fixed-width numbers but read as VarInts.)
pub proof fn lemma_item_potion_roundtrip(p: PotionModel, rest: Seq<u8>)
    requires
        p.effects.len() == 0,
        vstd::utf8::encode_utf8(p.name).len() <= i32::MAX,
    ensures
        parse_item_potion(item_potion_bytes(p) + rest) == Ok::<(PotionModel, Seq<u8>), DecodeError>(
            (p, rest),
        ),
{
    assert(p.effects =~= Seq::<MobEffectInstanceModel>::empty());
    let r1 = varint_encode(0) + rest;
    assert(item_potion_bytes(p) + rest =~= string_bytes(p.name) + r1);
    crate::codec::lemma_string_roundtrip(p.name, r1);
    crate::codec::lemma_varint_roundtrip(0, rest);
}

/// The animation names in the order of their ids, 0 to 11.
pub open spec fn animation_names_by_id() -> Seq<Seq<char>> {
    seq![
        "none"@,
        "eat"@,
        "drink"@,
        "block"@,
        "bow"@,
        "trident"@,
        "crossbow"@,
        "spyglass"@,
        "toot_horn"@,
        "brush"@,
        "bundle"@,
        "spear"@,
    ]
}

/// The ids 0 to 11 name the animations in the order of
/// `animation_names_by_id`, each id names the animation of that name, and
/// no other id names one.
pub proof fn lemma_animation_ids_and_names(id: i32)
    ensures
        0 <= id < 12 ==> (animation_from_id(id) matches Some(a) && animation_name(a)
            == animation_names_by_id()[id as int] && animation_id(a) == id),
        (id < 0 || id >= 12) ==> animation_from_id(id) is None,
{
    reveal_strlit("none");
    reveal_strlit("eat");
    reveal_strlit("drink");
    reveal_strlit("block");
    reveal_strlit("bow");
    reveal_strlit("trident");
    reveal_strlit("crossbow");
    reveal_strlit("spyglass");
    reveal_strlit("toot_horn");
    reveal_strlit("brush");
    reveal_strlit("bundle");
    reveal_strlit("spear");
    if 0 <= id < 12 {
        let a = animation_from_id(id)->Some_0;
        assert(animation_name(a) =~= animation_names_by_id()[id as int]);
    }
}

/// Reading a text and a zero count gives the item potion of that name with
/// no effects, leaving what follows.
pub proof fn lemma_read_item_potion_fields(name: Seq<char>, rest: Seq<u8>)
    requires
        vstd::utf8::encode_utf8(name).len() <= i32::MAX,
    ensures
        parse_item_potion(string_bytes(name) + varint_encode(0) + rest) == Ok::<
            (PotionModel, Seq<u8>),
            DecodeError,
        >((PotionModel { name, effects: Seq::empty() }, rest)),
{
    let r1 = varint_encode(0) + rest;
    assert(string_bytes(name) + varint_encode(0) + rest =~= string_bytes(name) + r1);
    crate::codec::lemma_string_roundtrip(name, r1);
    crate::codec::lemma_varint_roundtrip(0, rest);
}

} // verus!
