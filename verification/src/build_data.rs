//! The rules that turn the game's item and potion data files into
//! registry values: defaults of absent fields, key parsing, and the names
//! given to generated constants.
use vstd::prelude::*;
use heck::ToShoutySnakeCase;
use crate::components::consumable::{
    ConsumeEffect, ConsumeEffectModel, Consumable, DEFAULT_CONSUME_SECONDS_BITS,
};
use crate::components::food_properties::FoodProperties;
use crate::components::use_cooldown::UseCooldown;
use crate::components::use_effects::UseEffects;
use crate::identifier::{
    parse_identifier_text, str_eq, vanilla_namespace, Identifier, IdentifierModel,
};
use crate::item::{animation_from_name, ItemUseAnimation};
use crate::mob_effect::{LazyMobEffect, LazyMobEffectModel, MobEffectInstance, MobEffectInstanceModel};
use crate::potion::Potion;

verus! {

/// The ambient flag of a data-file effect that does not give one.
pub fn ambient_default() -> (b: bool)
    ensures
        !b,
{
    false
}

/// The visibility of a data-file effect that does not give one.
pub fn visible_default() -> (b: bool)
    ensures
        b,
{
    true
}

/// The hidden effect of a data-file effect that does not give one.
pub fn hidden_effect_default() -> (h: Option<Box<Effect>>)
    ensures
        h is None,
{
    None
}

/// An effect as the potion data file lists it.
#[derive(Debug)]
pub struct Effect {
    pub name: String,
    pub duration: Option<i32>,
    pub amplifier: i32,
    pub ambient: bool,
    pub visible: bool,
    pub show_icon: bool,
    pub hidden_effect: Option<Box<Effect>>,
}

/// A potion as the potion data file lists it.
#[derive(Debug)]
pub struct PotionJson {
    pub id: i32,
    pub name: String,
    pub effects: Vec<Effect>,
}

/// The instance a data-file effect stands for: its name as a vanilla key,
/// its fields as given, and its hidden effect likewise.
pub open spec fn effect_instance(e: &Effect) -> MobEffectInstanceModel
    decreases e,
{
    MobEffectInstanceModel {
        effect: LazyMobEffectModel::Raw(IdentifierModel { namespace: vanilla_namespace(), path: e.name@ }),
        amplifier: e.amplifier,
        duration: e.duration,
        ambient: e.ambient,
        visible: e.visible,
        show_icon: e.show_icon,
        hidden_effect: match &e.hidden_effect {
            Some(h) => Some(Box::new(effect_instance(&**h))),
            None => None,
        },
    }
}

impl Effect {
    /// The effect instance this entry stands for.
    pub fn to_instance(&self) -> (i: MobEffectInstance)
        ensures
            i@ == effect_instance(self),
        decreases self,
    {
        let base = MobEffectInstance::new(
            LazyMobEffect::Raw(Identifier::vanilla(self.name.clone())),
            self.amplifier,
        ).with_duration(self.duration).with_ambient(self.ambient).with_visible(self.visible).with_show_icon(
            self.show_icon,
        );
        match &self.hidden_effect {
            Some(h) => {
                let hidden = (&**h).to_instance();
                base.with_hidden_effect(Some(Box::new(hidden)))
            },
            None => base,
        }
    }
}

impl PotionJson {
    /// The instances of the listed effects, in order.
    pub fn effect_instances(&self) -> (v: Vec<MobEffectInstance>)
        ensures
            v@.len() == self.effects@.len(),
            forall|i: int| 0 <= i < v@.len() ==> (#[trigger] v@[i])@ == effect_instance(&self.effects@[i]),
    {
        let mut v: Vec<MobEffectInstance> = Vec::new();
        let n = self.effects.len();
        let mut k: usize = 0;
        while k < n
            invariant
                n == self.effects@.len(),
                k <= n,
                v@.len() == k,
                forall|i: int| 0 <= i < k ==> (#[trigger] v@[i])@ == effect_instance(&self.effects@[i]),
            decreases n - k,
        {
            v.push(self.effects[k].to_instance());
            k = k + 1;
        }
        v
    }

    /// The registered potion this entry stands for: its id, its name as a
    /// vanilla key, and its effects.
    pub fn to_potion(&self) -> (p: Potion)
        ensures
            p@.id == self.id,
            p@.key == (IdentifierModel { namespace: vanilla_namespace(), path: self.name@ }),
            p@.effects.len() == self.effects@.len(),
            forall|i: int| 0 <= i < p@.effects.len() ==> #[trigger] p@.effects[i] == effect_instance(&self.effects@[i]),
    {
        let effects = self.effect_instances();
        let p = Potion {
            id: self.id,
            key: Identifier::vanilla(self.name.clone()),
            effects: crate::potion::LazyEffects::with_baked(effects),
        };
        assert forall|i: int| 0 <= i < p@.effects.len() implies #[trigger] p@.effects[i] == effect_instance(&self.effects@[i]) by {
            assert(p@.effects[i] == effects@[i]@);
        }
        p
    }
}

/// What `heck`'s `to_shouty_snake_case` makes of a text.
pub uninterp spec fn shouty_snake_case(t: Seq<char>) -> Seq<char>;

/// `ToShoutySnakeCase::to_shouty_snake_case` from `heck`: the text in
/// upper case with words joined by underscores (named, not stated).
#[verifier::external_body]
fn to_shouty_snake(t: &str) -> (r: String)
    ensures
        r@ == shouty_snake_case(t@),
{
    t.to_shouty_snake_case()
}

/// Whether the text starts with an ASCII digit.
pub open spec fn starts_with_digit(t: Seq<char>) -> bool {
    t.len() > 0 && '0' <= t[0] <= '9'
}

/// The constant name for a potion: its shouty snake case, behind `POTION_`
/// when the name starts with a digit.
pub open spec fn potion_const_name_spec(name: Seq<char>, shouty: Seq<char>) -> Seq<char> {
    if starts_with_digit(name) {
        seq!['P', 'O', 'T', 'I', 'O', 'N', '_'] + shouty
    } else {
        shouty
    }
}

/// The constant name for a potion, given the potion's name and its
/// shouty snake case.
pub fn potion_const_name_from(name: &str, shouty: String) -> (r: String)
    requires
        name@.len() > 0,
    ensures
        r@ == potion_const_name_spec(name@, shouty@),
{
    let c = name.get_char(0);
    let first_is_digit = '0' <= c && c <= '9';
    if first_is_digit {
        let mut r = String::from_str("POTION_");
        r.append(shouty.as_str());
        proof {
            reveal_strlit("POTION_");
        }
        assert(r@ =~= potion_const_name_spec(name@, shouty@));
        r
    } else {
        shouty
    }
}

/// The constant name generated for a potion.
pub fn potion_const_name(name: &str) -> (r: String)
    requires
        name@.len() > 0,
    ensures
        r@ == potion_const_name_spec(name@, shouty_snake_case(name@)),
{
    let shouty = to_shouty_snake(name);
    potion_const_name_from(name, shouty)
}

/// The constant name of a block: its name in shouty snake case.
pub fn block_const_name(name: &str) -> (r: String)
    ensures
        r@ == shouty_snake_case(name@),
{
    to_shouty_snake(name)
}

/// The prefix of vanilla keys in data files.
pub open spec fn vanilla_prefix() -> Seq<char> {
    vanilla_namespace() + seq![':']
}

/// The text without a leading `minecraft:`, if it has one.
pub open spec fn strip_vanilla_prefix_spec(t: Seq<char>) -> Seq<char> {
    if t.len() >= vanilla_prefix().len() && t.take(vanilla_prefix().len() as int) == vanilla_prefix() {
        t.skip(vanilla_prefix().len() as int)
    } else {
        t
    }
}

/// The text without a leading `minecraft:`, if it has one.
pub fn strip_vanilla_prefix(t: &str) -> (r: &str)
    ensures
        r@ == strip_vanilla_prefix_spec(t@),
{
    let prefix = "minecraft:";
    proof {
        reveal_strlit("minecraft:");
        assert(prefix@ =~= vanilla_prefix());
    }
    let n = t.unicode_len();
    let p = prefix.unicode_len();
    if n < p {
        return t;
    }
    let head = t.substring_char(0, p);
    if str_eq(head, prefix) {
        t.substring_char(p, n)
    } else {
        t
    }
}

/// The constant name of a data component key: the key without
/// `minecraft:`, in shouty snake case.
pub fn get_component_ident(name: &str) -> (r: String)
    ensures
        r@ == shouty_snake_case(strip_vanilla_prefix_spec(name@)),
{
    to_shouty_snake(strip_vanilla_prefix(name))
}

/// The item left in the crafting grid by an item, if any: buckets leave a
/// bucket, dragon's breath, honey bottles and potions a glass bottle.
pub fn get_craft_remainder(item_name: &str) -> (r: Option<&'static str>)
    ensures
        craft_remainder_spec(item_name@) matches Some(t) ==> r is Some && r->Some_0@ == t,
        craft_remainder_spec(item_name@) is None ==> r is None,
{
    let buckets = [
        "water_bucket",
        "lava_bucket",
        "milk_bucket",
        "powder_snow_bucket",
        "pufferfish_bucket",
        "salmon_bucket",
        "cod_bucket",
        "tropical_fish_bucket",
        "axolotl_bucket",
        "tadpole_bucket",
    ];
    let bottles = ["dragon_breath", "honey_bottle", "potion"];
    assert(buckets@.map_values(|t: &str| t@) =~= bucket_items());
    assert(bottles@.map_values(|t: &str| t@) =~= bottle_items());
    let mut k: usize = 0;
    while k < 10
        invariant
            k <= 10,
            buckets@.len() == 10,
            buckets@.map_values(|t: &str| t@) == bucket_items(),
            forall|j: int| 0 <= j < k ==> item_name@ != (#[trigger] buckets@[j])@,
        decreases 10 - k,
    {
        if str_eq(item_name, buckets[k]) {
            assert(bucket_items()[k as int] == buckets@.map_values(|t: &str| t@)[k as int]);
            return Some("bucket");
        }
        k = k + 1;
    }
    let mut k: usize = 0;
    while k < 3
        invariant
            k <= 3,
            bottles@.len() == 3,
            bottles@.map_values(|t: &str| t@) == bottle_items(),
            buckets@.map_values(|t: &str| t@) == bucket_items(),
            buckets@.len() == 10,
            forall|j: int| 0 <= j < 10 ==> item_name@ != (#[trigger] buckets@[j])@,
            forall|j: int| 0 <= j < k ==> item_name@ != (#[trigger] bottles@[j])@,
        decreases 3 - k,
    {
        if str_eq(item_name, bottles[k]) {
            assert(bottle_items()[k as int] == bottles@.map_values(|t: &str| t@)[k as int]);
            assert(!bucket_items().contains(item_name@)) by {
                assert(forall|j: int| 0 <= j < 10 ==> bucket_items()[j] == buckets@.map_values(|t: &str| t@)[j]);
            }
            return Some("glass_bottle");
        }
        k = k + 1;
    }
    assert(!bucket_items().contains(item_name@)) by {
        assert(forall|j: int| 0 <= j < 10 ==> bucket_items()[j] == buckets@.map_values(|t: &str| t@)[j]);
    }
    assert(!bottle_items().contains(item_name@)) by {
        assert(forall|j: int| 0 <= j < 3 ==> bottle_items()[j] == bottles@.map_values(|t: &str| t@)[j]);
    }
    None
}

/// The items whose crafting remainder is a bucket.
pub open spec fn bucket_items() -> Seq<Seq<char>> {
    seq![
        "water_bucket"@,
        "lava_bucket"@,
        "milk_bucket"@,
        "powder_snow_bucket"@,
        "pufferfish_bucket"@,
        "salmon_bucket"@,
        "cod_bucket"@,
        "tropical_fish_bucket"@,
        "axolotl_bucket"@,
        "tadpole_bucket"@,
    ]
}

/// The items whose crafting remainder is a glass bottle.
pub open spec fn bottle_items() -> Seq<Seq<char>> {
    seq!["dragon_breath"@, "honey_bottle"@, "potion"@]
}

/// The crafting remainder of an item, by name.
pub open spec fn craft_remainder_spec(name: Seq<char>) -> Option<Seq<char>> {
    if bucket_items().contains(name) {
        Some("bucket"@)
    } else if bottle_items().contains(name) {
        Some("glass_bottle"@)
    } else {
        None
    }
}

/// A key as data files write it: `namespace:path`, or a vanilla path.
pub fn parse_identifier(name: &str) -> (id: Identifier)
    ensures
        id@ == parse_identifier_text(name@),
{
    Identifier::parse(name)
}

/// A block or tag reference: a leading `#` marks a tag and goes in front of
/// the namespace; the rest is read as a key.
pub open spec fn block_or_tag_spec(t: Seq<char>) -> IdentifierModel {
    if t.len() > 0 && t[0] == '#' {
        let id = parse_identifier_text(t.skip(1));
        IdentifierModel { namespace: seq!['#'] + id.namespace, path: id.path }
    } else {
        parse_identifier_text(t)
    }
}

/// Reads a block or tag reference such as `minecraft:stone` or `#minecraft:logs`.
pub fn parse_block_or_tag(s: &str) -> (id: Identifier)
    ensures
        id@ == block_or_tag_spec(s@),
{
    let n = s.unicode_len();
    if n > 0 && s.get_char(0) == '#' {
        let id = Identifier::parse(s.substring_char(1, n));
        let mut namespace = String::from_str("#");
        namespace.append(id.namespace.as_str());
        proof {
            reveal_strlit("#");
            assert(namespace@ =~= seq!['#'] + id.namespace@);
        }
        Identifier { namespace, path: id.path }
    } else {
        Identifier::parse(s)
    }
}

/// The instance a data-file effect entry describes: the amplifier and the
/// duration default to 0 and are cut to 32 bits; the duration, read as a
/// signed number, is kept, except -1, the mark of an infinite effect, which
/// gives no duration; ambient defaults to false, visible and show icon to true.
pub open spec fn json_instance(
    id: Seq<char>,
    amplifier: Option<u64>,
    duration: Option<i64>,
    ambient: Option<bool>,
    visible: Option<bool>,
    show_icon: Option<bool>,
    hidden: Option<MobEffectInstanceModel>,
) -> MobEffectInstanceModel {
    let d = (match duration {
        Some(x) => x,
        None => 0i64,
    }) as i32;
    MobEffectInstanceModel {
        effect: LazyMobEffectModel::Raw(parse_identifier_text(id)),
        amplifier: (match amplifier {
            Some(x) => x,
            None => 0u64,
        }) as i32,
        duration: if d == -1 {
            None
        } else {
            Some(d)
        },
        ambient: match ambient {
            Some(b) => b,
            None => false,
        },
        visible: match visible {
            Some(b) => b,
            None => true,
        },
        show_icon: match show_icon {
            Some(b) => b,
            None => true,
        },
        hidden_effect: match hidden {
            Some(h) => Some(Box::new(h)),
            None => None,
        },
    }
}

/// The instance a data-file effect entry describes (see `json_instance`).
pub fn mob_effect_instance_from_json(
    id: &str,
    amplifier: Option<u64>,
    duration: Option<i64>,
    ambient: Option<bool>,
    visible: Option<bool>,
    show_icon: Option<bool>,
    hidden: Option<MobEffectInstance>,
) -> (i: MobEffectInstance)
    ensures
        i@ == json_instance(
            id@,
            amplifier,
            duration,
            ambient,
            visible,
            show_icon,
            match hidden {
                Some(h) => Some(h@),
                None => None,
            },
        ),
{
    let amplifier = amplifier.unwrap_or(0) as i32;
    let duration = duration.unwrap_or(0) as i32;
    let duration = if duration == -1 {
        None
    } else {
        Some(duration)
    };
    let base = MobEffectInstance::new(LazyMobEffect::Raw(Identifier::parse(id)), amplifier).with_duration(
        duration,
    ).with_ambient(ambient.unwrap_or(false)).with_visible(visible.unwrap_or(true)).with_show_icon(
        show_icon.unwrap_or(true),
    );
    match hidden {
        Some(h) => base.with_hidden_effect(Some(Box::new(h))),
        None => base,
    }
}

/// The kinds of consume effect a data file can name.
#[derive(Debug, Clone, Copy, PartialEq, Eq, Structural)]
pub enum ConsumeEffectKind {
    ApplyEffects,
    RemoveEffects,
    ClearAllEffects,
    TeleportRandomly,
    PlaySound,
}

/// The kind of consume effect named by a data-file type string, if any.
pub open spec fn consume_effect_kind_spec(t: Seq<char>) -> Option<ConsumeEffectKind> {
    if t == "minecraft:apply_effects"@ {
        Some(ConsumeEffectKind::ApplyEffects)
    } else if t == "minecraft:remove_effects"@ {
        Some(ConsumeEffectKind::RemoveEffects)
    } else if t == "minecraft:clear_all_effects"@ {
        Some(ConsumeEffectKind::ClearAllEffects)
    } else if t == "minecraft:teleport_randomly"@ {
        Some(ConsumeEffectKind::TeleportRandomly)
    } else if t == "minecraft:play_sound"@ {
        Some(ConsumeEffectKind::PlaySound)
    } else {
        None
    }
}

/// The kind of consume effect named by a data-file type string, if any.
pub fn consume_effect_kind(type_str: &str) -> (k: Option<ConsumeEffectKind>)
    ensures
        k == consume_effect_kind_spec(type_str@),
{
    if str_eq(type_str, "minecraft:apply_effects") {
        Some(ConsumeEffectKind::ApplyEffects)
    } else if str_eq(type_str, "minecraft:remove_effects") {
        Some(ConsumeEffectKind::RemoveEffects)
    } else if str_eq(type_str, "minecraft:clear_all_effects") {
        Some(ConsumeEffectKind::ClearAllEffects)
    } else if str_eq(type_str, "minecraft:teleport_randomly") {
        Some(ConsumeEffectKind::TeleportRandomly)
    } else if str_eq(type_str, "minecraft:play_sound") {
        Some(ConsumeEffectKind::PlaySound)
    } else {
        None
    }
}

/// The bit pattern of the `f32` 0.2, the default use speed multiplier.
pub const DEFAULT_SPEED_MULTIPLIER_BITS: u32 = 0x3E4C_CCCD;

/// Food properties from a data file: the nutrition cut to 32 bits, the
/// saturation as given, `can_always_eat` false when absent.
pub fn food_properties_from_json(nutrition: i64, saturation_bits: u32, can_always_eat: Option<bool>) -> (f:
    FoodProperties)
    ensures
        f == (FoodProperties {
            nutrition: nutrition as i32,
            saturation_bits,
            can_always_eat: match can_always_eat {
                Some(b) => b,
                None => false,
            },
        }),
{
    FoodProperties {
        nutrition: nutrition as i32,
        saturation_bits,
        can_always_eat: can_always_eat.unwrap_or(false),
    }
}

/// Use effects from a data file: no sprinting, vibrations and a 0.2
/// multiplier unless given.
pub fn use_effects_from_json(
    can_sprint: Option<bool>,
    interaction_vibrations: Option<bool>,
    speed_multiplier_bits: Option<u32>,
) -> (u: UseEffects)
    ensures
        u == (UseEffects {
            can_sprint: match can_sprint {
                Some(b) => b,
                None => false,
            },
            interaction_vibrations: match interaction_vibrations {
                Some(b) => b,
                None => true,
            },
            speed_multiplier_bits: match speed_multiplier_bits {
                Some(b) => b,
                None => DEFAULT_SPEED_MULTIPLIER_BITS,
            },
        }),
{
    UseEffects {
        can_sprint: can_sprint.unwrap_or(false),
        interaction_vibrations: interaction_vibrations.unwrap_or(true),
        speed_multiplier_bits: speed_multiplier_bits.unwrap_or(DEFAULT_SPEED_MULTIPLIER_BITS),
    }
}

/// A use cooldown from a data file; a group is a path in the vanilla namespace.
pub fn use_cooldown_from_json(seconds_bits: u32, cooldown_group: Option<&str>) -> (u: UseCooldown)
    ensures
        u@.seconds_bits == seconds_bits,
        u@.cooldown_group == (match cooldown_group {
            Some(g) => Some(IdentifierModel { namespace: vanilla_namespace(), path: g@ }),
            None => None,
        }),
{
    let cooldown_group = match cooldown_group {
        Some(g) => Some(Identifier::vanilla(String::from_str(g))),
        None => None,
    };
    UseCooldown { seconds_bits, cooldown_group }
}

/// A consumable from a data file: 1.6 seconds, the eating animation and no
/// particles unless given. A given animation name must be a known one.
pub fn consumable_from_json(
    consume_seconds_bits: Option<u32>,
    animation: Option<&str>,
    has_consume_particles: Option<bool>,
    on_consume_effects: Vec<ConsumeEffect>,
) -> (c: Consumable)
    requires
        animation matches Some(a) ==> animation_from_name(a@) is Some,
    ensures
        c@.consume_seconds_bits == (match consume_seconds_bits {
            Some(b) => b,
            None => DEFAULT_CONSUME_SECONDS_BITS,
        }),
        c@.animation == (match animation {
            Some(a) => animation_from_name(a@)->Some_0,
            None => ItemUseAnimation::Eat,
        }),
        c@.has_consume_particles == (match has_consume_particles {
            Some(b) => b,
            None => false,
        }),
        c@.on_consume_effects == on_consume_effects@.map_values(|e: ConsumeEffect| e@),
{
    let animation = match animation {
        Some(a) => match ItemUseAnimation::from_str(a) {
            Ok(anim) => anim,
            Err(_) => ItemUseAnimation::Eat,
        },
        None => ItemUseAnimation::Eat,
    };
    Consumable {
        consume_seconds_bits: consume_seconds_bits.unwrap_or(DEFAULT_CONSUME_SECONDS_BITS),
        animation,
        has_consume_particles: has_consume_particles.unwrap_or(false),
        on_consume_effects,
    }
}

/// A consume effect from a data file, of the given kind, from the fields
/// that kind reads: the instances to apply, the keys of the effects to
/// remove, the teleport diameter (0 when absent) and the sound's key.
pub fn consume_effect_from_json(
    kind: ConsumeEffectKind,
    effects: Vec<MobEffectInstance>,
    removed: Vec<String>,
    diameter_bits: Option<u32>,
    sound: Option<String>,
) -> (e: ConsumeEffect)
    requires
        kind == ConsumeEffectKind::PlaySound ==> sound is Some,
    ensures
        e@ == (match kind {
            ConsumeEffectKind::ApplyEffects => ConsumeEffectModel::ApplyEffects(
                effects@.map_values(|i: MobEffectInstance| i@),
            ),
            ConsumeEffectKind::RemoveEffects => ConsumeEffectModel::RemoveEffects(
                removed@.map_values(|t: String| LazyMobEffectModel::Raw(parse_identifier_text(t@))),
            ),
            ConsumeEffectKind::ClearAllEffects => ConsumeEffectModel::ClearAllEffects,
            ConsumeEffectKind::TeleportRandomly => ConsumeEffectModel::TeleportRandomly(
                match diameter_bits {
                    Some(d) => d,
                    None => 0u32,
                },
            ),
            ConsumeEffectKind::PlaySound => ConsumeEffectModel::PlaySound(
                parse_identifier_text(sound->Some_0@),
            ),
        }),
{
    match kind {
        ConsumeEffectKind::ApplyEffects => ConsumeEffect::ApplyEffects { effects },
        ConsumeEffectKind::RemoveEffects => {
            let mut keys: Vec<LazyMobEffect> = Vec::new();
            let n = removed.len();
            let mut k: usize = 0;
            while k < n
                invariant
                    n == removed@.len(),
                    k <= n,
                    keys@.len() == k,
                    forall|j: int| 0 <= j < k ==> (#[trigger] keys@[j])@ == LazyMobEffectModel::Raw(
                        parse_identifier_text(removed@[j]@),
                    ),
                decreases n - k,
            {
                keys.push(LazyMobEffect::Raw(Identifier::parse(removed[k].as_str())));
                k = k + 1;
            }
            let e = ConsumeEffect::RemoveEffects { effects: keys };
            assert(e@ == ConsumeEffectModel::RemoveEffects(
                removed@.map_values(|t: String| LazyMobEffectModel::Raw(parse_identifier_text(t@))),
            )) by {
                assert(keys@.map_values(|e: LazyMobEffect| e@) =~= removed@.map_values(
                    |t: String| LazyMobEffectModel::Raw(parse_identifier_text(t@)),
                ));
            }
            e
        },
        ConsumeEffectKind::ClearAllEffects => ConsumeEffect::ClearAllEffects,
        ConsumeEffectKind::TeleportRandomly => ConsumeEffect::TeleportRandomly {
            diameter_bits: diameter_bits.unwrap_or(0),
        },
        ConsumeEffectKind::PlaySound => {
            let text = sound.unwrap();
            ConsumeEffect::PlaySound { sound_event: Identifier::parse(text.as_str()) }
        },
    }
}

/// A data-file value as far as the rules below look at it: a text, a list,
/// or anything else, which carries what the caller keeps of it.
#[derive(Debug)]
pub enum DataValue<T> {
    Text(String),
    List(Vec<DataValue<T>>),
    Other(T),
}

/// Whether a value is a text.
pub open spec fn is_text<T>(v: DataValue<T>) -> bool {
    v is Text
}

/// The texts of the values that are texts, in order; the others are skipped.
pub open spec fn texts_of<T>(vs: Seq<DataValue<T>>) -> Seq<Seq<char>>
    decreases vs.len(),
{
    if vs.len() == 0 {
        Seq::empty()
    } else {
        let before = texts_of(vs.drop_last());
        match vs.last() {
            DataValue::Text(t) => before.push(t@),
            _ => before,
        }
    }
}

/// The entries of a value that may be given as a list or as one entry:
/// a list's items, or the value itself.
pub fn list_or_single<T>(v: DataValue<T>) -> (r: Vec<DataValue<T>>)
    ensures
        r@ == (match v {
            DataValue::List(items) => items@,
            _ => seq![v],
        }),
{
    match v {
        DataValue::List(items) => items,
        other => {
            let r = vec![other];
            r
        },
    }
}

/// Why the effects of a `remove_effects` entry cannot be read.
#[derive(Debug, Clone, Copy, PartialEq, Eq, Structural)]
pub enum RemovedEffectsError {
    /// A list item that is not a text.
    EntryNotText,
    /// A value that is neither a text nor a list.
    NeitherTextNorList,
}

/// The effect keys a `remove_effects` entry names: a text names one, a
/// list of texts names each in order; a list with another item, or any
/// other value, is refused.
pub open spec fn removed_effect_keys_spec<T>(v: DataValue<T>) -> Result<Seq<Seq<char>>, RemovedEffectsError> {
    match v {
        DataValue::Text(t) => Ok(seq![t@]),
        DataValue::List(items) => if forall|i: int| 0 <= i < items@.len() ==> is_text(#[trigger] items@[i]) {
            Ok(texts_of(items@))
        } else {
            Err(RemovedEffectsError::EntryNotText)
        },
        DataValue::Other(_) => Err(RemovedEffectsError::NeitherTextNorList),
    }
}

/// The effect keys a `remove_effects` entry names (see `removed_effect_keys_spec`).
pub fn removed_effect_keys<T>(v: &DataValue<T>) -> (r: Result<Vec<String>, RemovedEffectsError>)
    ensures
        match removed_effect_keys_spec(*v) {
            Ok(ts) => r is Ok && r->Ok_0@.map_values(|t: String| t@) == ts,
            Err(e) => r == Err::<Vec<String>, RemovedEffectsError>(e),
        },
{
    match v {
        DataValue::Text(t) => {
            let r = vec![t.clone()];
            assert(r@.map_values(|t: String| t@) =~= seq![t@]);
            Ok(r)
        },
        DataValue::List(items) => {
            let n = items.len();
            let mut out: Vec<String> = Vec::new();
            let mut k: usize = 0;
            while k < n
                invariant
                    n == items@.len(),
                    *v == DataValue::<T>::List(*items),
                    k <= n,
                    forall|i: int| 0 <= i < k ==> is_text(#[trigger] items@[i]),
                    out@.map_values(|t: String| t@) == texts_of(items@.take(k as int)),
                decreases n - k,
            {
                proof {
                    assert(items@.take(k + 1).drop_last() =~= items@.take(k as int));
                    assert(items@.take(k + 1).last() == items@[k as int]);
                }
                match &items[k] {
                    DataValue::Text(t) => {
                        let ghost before = out@.map_values(|t: String| t@);
                        out.push(t.clone());
                        assert(out@.map_values(|t: String| t@) =~= before.push(t@));
                    },
                    _ => {
                        assert(!is_text(items@[k as int]));
                        return Err(RemovedEffectsError::EntryNotText);
                    },
                }
                k = k + 1;
            }
            assert(items@.take(n as int) =~= items@);
            Ok(out)
        },
        DataValue::Other(_) => Err(RemovedEffectsError::NeitherTextNorList),
    }
}

/// The block texts of a tool rule's `blocks`: a text gives itself, a list
/// gives its texts in order (other items are skipped), and anything else,
/// or no value, gives none.
pub open spec fn tool_rule_block_texts_spec<T>(v: Option<DataValue<T>>) -> Seq<Seq<char>> {
    match v {
        Some(DataValue::Text(t)) => seq![t@],
        Some(DataValue::List(items)) => texts_of(items@),
        _ => Seq::empty(),
    }
}

/// The block texts of a tool rule's `blocks` (see `tool_rule_block_texts_spec`).
pub fn tool_rule_block_texts<T>(v: Option<&DataValue<T>>) -> (r: Vec<String>)
    ensures
        r@.map_values(|t: String| t@) == tool_rule_block_texts_spec(
            match v {
                Some(x) => Some(*x),
                None => None,
            },
        ),
{
    match v {
        Some(DataValue::Text(t)) => {
            let r = vec![t.clone()];
            assert(r@.map_values(|t: String| t@) =~= seq![t@]);
            r
        },
        Some(DataValue::List(items)) => {
            let n = items.len();
            let mut out: Vec<String> = Vec::new();
            let mut k: usize = 0;
            while k < n
                invariant
                    n == items@.len(),
                    k <= n,
                    out@.map_values(|t: String| t@) == texts_of(items@.take(k as int)),
                decreases n - k,
            {
                proof {
                    assert(items@.take(k + 1).drop_last() =~= items@.take(k as int));
                    assert(items@.take(k + 1).last() == items@[k as int]);
                }
                if let DataValue::Text(t) = &items[k] {
                    let ghost before = out@.map_values(|t: String| t@);
                    out.push(t.clone());
                    assert(out@.map_values(|t: String| t@) =~= before.push(t@));
                }
                k = k + 1;
            }
            assert(items@.take(n as int) =~= items@);
            out
        },
        _ => {
            let r: Vec<String> = Vec::new();
            assert(r@.map_values(|t: String| t@) =~= Seq::<Seq<char>>::empty());
            r
        },
    }
}

/// The data components for which the item builder may be given a value.
#[derive(Debug, Clone, Copy, PartialEq, Eq, Structural)]
pub enum ComponentKey {
    MaxStackSize,
    MaxDamage,
    Damage,
    RepairCost,
    Unbreakable,
    Glider,
    EnchantmentGlintOverride,
    Equippable,
    Tool,
    Food,
    Consumable,
    UseCooldown,
    UseRemainder,
    UseEffects,
}

/// The component named by a data-file key, among those the builder sets.
pub open spec fn component_key_spec(t: Seq<char>) -> Option<ComponentKey> {
    if t == "minecraft:max_stack_size"@ {
        Some(ComponentKey::MaxStackSize)
    } else if t == "minecraft:max_damage"@ {
        Some(ComponentKey::MaxDamage)
    } else if t == "minecraft:damage"@ {
        Some(ComponentKey::Damage)
    } else if t == "minecraft:repair_cost"@ {
        Some(ComponentKey::RepairCost)
    } else if t == "minecraft:unbreakable"@ {
        Some(ComponentKey::Unbreakable)
    } else if t == "minecraft:glider"@ {
        Some(ComponentKey::Glider)
    } else if t == "minecraft:enchantment_glint_override"@ {
        Some(ComponentKey::EnchantmentGlintOverride)
    } else if t == "minecraft:equippable"@ {
        Some(ComponentKey::Equippable)
    } else if t == "minecraft:tool"@ {
        Some(ComponentKey::Tool)
    } else if t == "minecraft:food"@ {
        Some(ComponentKey::Food)
    } else if t == "minecraft:consumable"@ {
        Some(ComponentKey::Consumable)
    } else if t == "minecraft:use_cooldown"@ {
        Some(ComponentKey::UseCooldown)
    } else if t == "minecraft:use_remainder"@ {
        Some(ComponentKey::UseRemainder)
    } else if t == "minecraft:use_effects"@ {
        Some(ComponentKey::UseEffects)
    } else {
        None
    }
}

/// The component named by a data-file key, among those the builder sets.
pub fn component_key(t: &str) -> (k: Option<ComponentKey>)
    ensures
        k == component_key_spec(t@),
{
    if str_eq(t, "minecraft:max_stack_size") {
        Some(ComponentKey::MaxStackSize)
    } else if str_eq(t, "minecraft:max_damage") {
        Some(ComponentKey::MaxDamage)
    } else if str_eq(t, "minecraft:damage") {
        Some(ComponentKey::Damage)
    } else if str_eq(t, "minecraft:repair_cost") {
        Some(ComponentKey::RepairCost)
    } else if str_eq(t, "minecraft:unbreakable") {
        Some(ComponentKey::Unbreakable)
    } else if str_eq(t, "minecraft:glider") {
        Some(ComponentKey::Glider)
    } else if str_eq(t, "minecraft:enchantment_glint_override") {
        Some(ComponentKey::EnchantmentGlintOverride)
    } else if str_eq(t, "minecraft:equippable") {
        Some(ComponentKey::Equippable)
    } else if str_eq(t, "minecraft:tool") {
        Some(ComponentKey::Tool)
    } else if str_eq(t, "minecraft:food") {
        Some(ComponentKey::Food)
    } else if str_eq(t, "minecraft:consumable") {
        Some(ComponentKey::Consumable)
    } else if str_eq(t, "minecraft:use_cooldown") {
        Some(ComponentKey::UseCooldown)
    } else if str_eq(t, "minecraft:use_remainder") {
        Some(ComponentKey::UseRemainder)
    } else if str_eq(t, "minecraft:use_effects") {
        Some(ComponentKey::UseEffects)
    } else {
        None
    }
}

/// The slots an equippable item can go in.
#[derive(Debug, Clone, Copy, PartialEq, Eq, Structural)]
pub enum EquippableSlot {
    Head,
    Chest,
    Legs,
    Feet,
    Body,
    Mainhand,
    Offhand,
    Saddle,
}

/// The slot named in a data file, if it is one of the known slots.
pub open spec fn equippable_slot_spec(t: Seq<char>) -> Option<EquippableSlot> {
    if t == "head"@ {
        Some(EquippableSlot::Head)
    } else if t == "chest"@ {
        Some(EquippableSlot::Chest)
    } else if t == "legs"@ {
        Some(EquippableSlot::Legs)
    } else if t == "feet"@ {
        Some(EquippableSlot::Feet)
    } else if t == "body"@ {
        Some(EquippableSlot::Body)
    } else if t == "mainhand"@ {
        Some(EquippableSlot::Mainhand)
    } else if t == "offhand"@ {
        Some(EquippableSlot::Offhand)
    } else if t == "saddle"@ {
        Some(EquippableSlot::Saddle)
    } else {
        None
    }
}

/// The slot named in a data file, if it is one of the known slots.
pub fn equippable_slot(t: &str) -> (s: Option<EquippableSlot>)
    ensures
        s == equippable_slot_spec(t@),
{
    if str_eq(t, "head") {
        Some(EquippableSlot::Head)
    } else if str_eq(t, "chest") {
        Some(EquippableSlot::Chest)
    } else if str_eq(t, "legs") {
        Some(EquippableSlot::Legs)
    } else if str_eq(t, "feet") {
        Some(EquippableSlot::Feet)
    } else if str_eq(t, "body") {
        Some(EquippableSlot::Body)
    } else if str_eq(t, "mainhand") {
        Some(EquippableSlot::Mainhand)
    } else if str_eq(t, "offhand") {
        Some(EquippableSlot::Offhand)
    } else if str_eq(t, "saddle") {
        Some(EquippableSlot::Saddle)
    } else {
        None
    }
}

/// The text that names each slot in data files.
pub open spec fn slot_name(s: EquippableSlot) -> Seq<char> {
    match s {
        EquippableSlot::Head => seq!['h', 'e', 'a', 'd'],
        EquippableSlot::Chest => seq!['c', 'h', 'e', 's', 't'],
        EquippableSlot::Legs => seq!['l', 'e', 'g', 's'],
        EquippableSlot::Feet => seq!['f', 'e', 'e', 't'],
        EquippableSlot::Body => seq!['b', 'o', 'd', 'y'],
        EquippableSlot::Mainhand => seq!['m', 'a', 'i', 'n', 'h', 'a', 'n', 'd'],
        EquippableSlot::Offhand => seq!['o', 'f', 'f', 'h', 'a', 'n', 'd'],
        EquippableSlot::Saddle => seq!['s', 'a', 'd', 'd', 'l', 'e'],
    }
}

/// Each slot's name leads to that slot, and a text leads to a slot only
/// when it is that slot's name.
pub proof fn lemma_slot_names(s: EquippableSlot, t: Seq<char>)
    ensures
        equippable_slot_spec(slot_name(s)) == Some(s),
        equippable_slot_spec(t) matches Some(x) ==> t == slot_name(x),
{
    reveal_strlit("head");
    reveal_strlit("chest");
    reveal_strlit("legs");
    reveal_strlit("feet");
    reveal_strlit("body");
    reveal_strlit("mainhand");
    reveal_strlit("offhand");
    reveal_strlit("saddle");
    assert("head"@ =~= slot_name(EquippableSlot::Head));
    assert("chest"@ =~= slot_name(EquippableSlot::Chest));
    assert("legs"@ =~= slot_name(EquippableSlot::Legs));
    assert("feet"@ =~= slot_name(EquippableSlot::Feet));
    assert("body"@ =~= slot_name(EquippableSlot::Body));
    assert("mainhand"@ =~= slot_name(EquippableSlot::Mainhand));
    assert("offhand"@ =~= slot_name(EquippableSlot::Offhand));
    assert("saddle"@ =~= slot_name(EquippableSlot::Saddle));
    assert(slot_name(EquippableSlot::Head) != slot_name(EquippableSlot::Legs));
    assert(slot_name(EquippableSlot::Head) != slot_name(EquippableSlot::Feet));
    assert(slot_name(EquippableSlot::Head) != slot_name(EquippableSlot::Body));
    assert(slot_name(EquippableSlot::Legs) != slot_name(EquippableSlot::Feet));
    assert(slot_name(EquippableSlot::Legs) != slot_name(EquippableSlot::Body));
    assert(slot_name(EquippableSlot::Feet) != slot_name(EquippableSlot::Body));
}

/// An equippable component whose slot text names a slot gives the builder
/// call that equips in that slot.
pub proof fn lemma_equippable_call(v: &ComponentValue, s: EquippableSlot)
    requires
        v.slot matches Some(t) && t@ == slot_name(s),
    ensures
        builder_call_spec(ComponentKey::Equippable, v) == Some(BuilderCall::Equippable(s)),
{
    lemma_slot_names(s, slot_name(s));
}

/// What the builder reads of a component's value: the value as an
/// integer, as a boolean, and the text under `slot`, each where it is one.
#[derive(Debug)]
pub struct ComponentValue {
    pub int_value: Option<i64>,
    pub bool_value: Option<bool>,
    pub slot: Option<String>,
}

/// A value given to the item builder. Tools, food, consumables, cooldowns,
/// remainders and use effects are built from the component's value.
#[derive(Debug, Clone, Copy, PartialEq, Eq, Structural)]
pub enum BuilderCall {
    MaxStackSize(i32),
    MaxDamage(i32),
    Damage(i32),
    RepairCost(i32),
    Unbreakable,
    Glider,
    EnchantmentGlintOverride(bool),
    Equippable(EquippableSlot),
    Tool,
    Food,
    Consumable,
    UseCooldown,
    UseRemainder,
    UseEffects,
}

/// Whether a component's value has what its builder call reads: the
/// number components an integer, the glint override a boolean.
pub open spec fn component_value_readable(k: ComponentKey, v: &ComponentValue) -> bool {
    match k {
        ComponentKey::MaxStackSize | ComponentKey::MaxDamage | ComponentKey::Damage
        | ComponentKey::RepairCost => v.int_value is Some,
        ComponentKey::EnchantmentGlintOverride => v.bool_value is Some,
        _ => true,
    }
}

/// The builder call for a component: numbers are cut to 32 bits; a stack
/// size of 64 and a repair cost of 0 give none; an equippable gives one
/// only for a known slot.
pub open spec fn builder_call_spec(k: ComponentKey, v: &ComponentValue) -> Option<BuilderCall> {
    match k {
        ComponentKey::MaxStackSize => {
            let n = v.int_value->Some_0 as i32;
            if n != 64 {
                Some(BuilderCall::MaxStackSize(n))
            } else {
                None
            }
        },
        ComponentKey::MaxDamage => Some(BuilderCall::MaxDamage(v.int_value->Some_0 as i32)),
        ComponentKey::Damage => Some(BuilderCall::Damage(v.int_value->Some_0 as i32)),
        ComponentKey::RepairCost => {
            let n = v.int_value->Some_0 as i32;
            if n != 0 {
                Some(BuilderCall::RepairCost(n))
            } else {
                None
            }
        },
        ComponentKey::Unbreakable => Some(BuilderCall::Unbreakable),
        ComponentKey::Glider => Some(BuilderCall::Glider),
        ComponentKey::EnchantmentGlintOverride => Some(
            BuilderCall::EnchantmentGlintOverride(v.bool_value->Some_0),
        ),
        ComponentKey::Equippable => match v.slot {
            Some(t) => match equippable_slot_spec(t@) {
                Some(s) => Some(BuilderCall::Equippable(s)),
                None => None,
            },
            None => None,
        },
        ComponentKey::Tool => Some(BuilderCall::Tool),
        ComponentKey::Food => Some(BuilderCall::Food),
        ComponentKey::Consumable => Some(BuilderCall::Consumable),
        ComponentKey::UseCooldown => Some(BuilderCall::UseCooldown),
        ComponentKey::UseRemainder => Some(BuilderCall::UseRemainder),
        ComponentKey::UseEffects => Some(BuilderCall::UseEffects),
    }
}

/// The builder call for a component (see `builder_call_spec`).
pub fn builder_call(k: ComponentKey, v: &ComponentValue) -> (c: Option<BuilderCall>)
    requires
        component_value_readable(k, v),
    ensures
        c == builder_call_spec(k, v),
{
    match k {
        ComponentKey::MaxStackSize => {
            let n = v.int_value.unwrap() as i32;
            if n != 64 {
                Some(BuilderCall::MaxStackSize(n))
            } else {
                None
            }
        },
        ComponentKey::MaxDamage => Some(BuilderCall::MaxDamage(v.int_value.unwrap() as i32)),
        ComponentKey::Damage => Some(BuilderCall::Damage(v.int_value.unwrap() as i32)),
        ComponentKey::RepairCost => {
            let n = v.int_value.unwrap() as i32;
            if n != 0 {
                Some(BuilderCall::RepairCost(n))
            } else {
                None
            }
        },
        ComponentKey::Unbreakable => Some(BuilderCall::Unbreakable),
        ComponentKey::Glider => Some(BuilderCall::Glider),
        ComponentKey::EnchantmentGlintOverride => Some(
            BuilderCall::EnchantmentGlintOverride(v.bool_value.unwrap()),
        ),
        ComponentKey::Equippable => match &v.slot {
            Some(t) => match equippable_slot(t.as_str()) {
                Some(s) => Some(BuilderCall::Equippable(s)),
                None => None,
            },
            None => None,
        },
        ComponentKey::Tool => Some(BuilderCall::Tool),
        ComponentKey::Food => Some(BuilderCall::Food),
        ComponentKey::Consumable => Some(BuilderCall::Consumable),
        ComponentKey::UseCooldown => Some(BuilderCall::UseCooldown),
        ComponentKey::UseRemainder => Some(BuilderCall::UseRemainder),
        ComponentKey::UseEffects => Some(BuilderCall::UseEffects),
    }
}

/// Whether each component that the builder sets has what its call reads.
pub open spec fn components_readable(cs: Seq<(String, ComponentValue)>) -> bool {
    forall|i: int| 0 <= i < cs.len() ==> match component_key_spec((#[trigger] cs[i]).0@) {
        Some(k) => component_value_readable(k, &cs[i].1),
        None => true,
    }
}

/// The call a component gives, if its key is one the builder sets.
pub open spec fn component_call(c: (String, ComponentValue)) -> Option<BuilderCall> {
    match component_key_spec(c.0@) {
        Some(k) => builder_call_spec(k, &c.1),
        None => None,
    }
}

/// The builder calls of an item's components, in order, each with the
/// index of the component that gives it.
pub open spec fn builder_calls_spec(cs: Seq<(String, ComponentValue)>) -> Seq<(usize, BuilderCall)>
    decreases cs.len(),
{
    if cs.len() == 0 {
        Seq::empty()
    } else {
        let before = builder_calls_spec(cs.drop_last());
        match component_call(cs.last()) {
            Some(c) => before.push(((cs.len() - 1) as usize, c)),
            None => before,
        }
    }
}

/// The builder calls of an item's components, in the order the components
/// are listed, each with the index of the component that gives it.
pub fn builder_calls(components: &Vec<(String, ComponentValue)>) -> (v: Vec<(usize, BuilderCall)>)
    requires
        components_readable(components@),
    ensures
        v@ == builder_calls_spec(components@),
{
    let mut v: Vec<(usize, BuilderCall)> = Vec::new();
    let n = components.len();
    let mut k: usize = 0;
    while k < n
        invariant
            n == components@.len(),
            k <= n,
            components_readable(components@),
            v@ == builder_calls_spec(components@.take(k as int)),
        decreases n - k,
    {
        proof {
            assert(components@.take(k + 1).drop_last() =~= components@.take(k as int));
            assert(components@.take(k + 1).last() == components@[k as int]);
        }
        let ghost c = components@[k as int];
        let key = component_key(components[k].0.as_str());
        if let Some(kk) = key {
            assert(component_value_readable(kk, &c.1));
            if let Some(call) = builder_call(kk, &components[k].1) {
                v.push((k, call));
            }
        }
        k = k + 1;
    }
    assert(components@.take(n as int) =~= components@);
    v
}

/// The builder calls of an item's components, without the indices.
pub open spec fn calls_of(cs: Seq<(String, ComponentValue)>) -> Seq<BuilderCall> {
    builder_calls_spec(cs).map_values(|p: (usize, BuilderCall)| p.1)
}

/// A component under a key the builder does not set adds no builder call,
/// wherever it stands among the others.
pub proof fn lemma_unhandled_component_adds_no_call(
    cs: Seq<(String, ComponentValue)>,
    i: int,
    c: (String, ComponentValue),
)
    requires
        0 <= i <= cs.len(),
        component_key_spec(c.0@) is None,
    ensures
        calls_of(cs.insert(i, c)) == calls_of(cs),
    decreases cs.len(),
{
    let cs2 = cs.insert(i, c);
    if i == cs.len() {
        assert(cs2.drop_last() =~= cs);
        assert(cs2.last() == c);
        assert(component_call(c) is None);
    } else {
        assert(cs2.drop_last() =~= cs.drop_last().insert(i, c));
        assert(cs2.last() == cs.last());
        lemma_unhandled_component_adds_no_call(cs.drop_last(), i, c);
        let before2 = builder_calls_spec(cs2.drop_last());
        let before = builder_calls_spec(cs.drop_last());
        match component_call(cs.last()) {
            Some(call) => {
                assert(builder_calls_spec(cs2) == before2.push(((cs2.len() - 1) as usize, call)));
                assert(builder_calls_spec(cs) == before.push(((cs.len() - 1) as usize, call)));
                assert(before2.push(((cs2.len() - 1) as usize, call)).map_values(
                    |p: (usize, BuilderCall)| p.1,
                ) =~= calls_of(cs2.drop_last()).push(call));
                assert(before.push(((cs.len() - 1) as usize, call)).map_values(
                    |p: (usize, BuilderCall)| p.1,
                ) =~= calls_of(cs.drop_last()).push(call));
            },
            None => {},
        }
    }
}

/// How an item is constructed by the generated registry.
#[derive(Debug, Clone, Copy, PartialEq, Eq)]
pub enum ItemConstruction {
    /// From its block; `custom_name` when the item's name differs from the block's.
    FromBlock { custom_name: bool },
    /// As an item of its own, with the common components and a crafting remainder.
    Plain { craft_remainder: Option<&'static str> },
}

/// How an item is constructed: a block item from its block (under its own
/// name when it differs from the block's), any other item on its own with
/// its crafting remainder.
pub fn item_construction(name: &str, block_item: Option<&str>) -> (c: ItemConstruction)
    ensures
        block_item matches Some(b) ==> c == (ItemConstruction::FromBlock { custom_name: b@ != name@ }),
        block_item is None ==> (c matches ItemConstruction::Plain { craft_remainder } && (match craft_remainder_spec(
            name@,
        ) {
            Some(t) => craft_remainder is Some && craft_remainder->Some_0@ == t,
            None => craft_remainder is None,
        })),
{
    match block_item {
        Some(b) => ItemConstruction::FromBlock { custom_name: !str_eq(b, name) },
        None => ItemConstruction::Plain { craft_remainder: get_craft_remainder(name) },
    }
}

/// The damage per block of a tool from a data file: 1 unless given, cut to 32 bits.
pub fn tool_damage_per_block(value: Option<i64>) -> (d: i32)
    ensures
        d == (match value {
            Some(x) => x as i32,
            None => 1i32,
        }),
{
    match value {
        Some(x) => x as i32,
        None => 1,
    }
}

/// Whether a tool from a data file can destroy blocks in creative mode: yes unless given.
pub fn tool_can_destroy_in_creative(value: Option<bool>) -> (b: bool)
    ensures
        b == (match value {
            Some(x) => x,
            None => true,
        }),
{
    value.unwrap_or(true)
}

/// The blocks of a tool rule: each text read as a block or tag reference.
pub fn tool_rule_blocks(blocks: &Vec<String>) -> (v: Vec<Identifier>)
    ensures
        v@.len() == blocks@.len(),
        forall|i: int| 0 <= i < v@.len() ==> (#[trigger] v@[i])@ == block_or_tag_spec(blocks@[i]@),
{
    let mut v: Vec<Identifier> = Vec::new();
    let n = blocks.len();
    let mut k: usize = 0;
    while k < n
        invariant
            n == blocks@.len(),
            k <= n,
            v@.len() == k,
            forall|i: int| 0 <= i < k ==> (#[trigger] v@[i])@ == block_or_tag_spec(blocks@[i]@),
        decreases n - k,
    {
        v.push(parse_block_or_tag(blocks[k].as_str()));
        k = k + 1;
    }
    v
}

/// The data-file key of each component the builder sets.
pub open spec fn component_key_name(k: ComponentKey) -> Seq<char> {
    match k {
        ComponentKey::MaxStackSize => "minecraft:max_stack_size"@,
        ComponentKey::MaxDamage => "minecraft:max_damage"@,
        ComponentKey::Damage => "minecraft:damage"@,
        ComponentKey::RepairCost => "minecraft:repair_cost"@,
        ComponentKey::Unbreakable => "minecraft:unbreakable"@,
        ComponentKey::Glider => "minecraft:glider"@,
        ComponentKey::EnchantmentGlintOverride => "minecraft:enchantment_glint_override"@,
        ComponentKey::Equippable => "minecraft:equippable"@,
        ComponentKey::Tool => "minecraft:tool"@,
        ComponentKey::Food => "minecraft:food"@,
        ComponentKey::Consumable => "minecraft:consumable"@,
        ComponentKey::UseCooldown => "minecraft:use_cooldown"@,
        ComponentKey::UseRemainder => "minecraft:use_remainder"@,
        ComponentKey::UseEffects => "minecraft:use_effects"@,
    }
}

/// Each component's data-file key leads to that component, and a key leads
/// to a component only when it is that component's key.
pub proof fn lemma_component_key_names(k: ComponentKey, t: Seq<char>)
    ensures
        component_key_spec(component_key_name(k)) == Some(k),
        component_key_spec(t) matches Some(x) ==> t == component_key_name(x),
{
    reveal_strlit("minecraft:max_stack_size");
    reveal_strlit("minecraft:max_damage");
    reveal_strlit("minecraft:damage");
    reveal_strlit("minecraft:repair_cost");
    reveal_strlit("minecraft:unbreakable");
    reveal_strlit("minecraft:glider");
    reveal_strlit("minecraft:enchantment_glint_override");
    reveal_strlit("minecraft:equippable");
    reveal_strlit("minecraft:tool");
    reveal_strlit("minecraft:food");
    reveal_strlit("minecraft:consumable");
    reveal_strlit("minecraft:use_cooldown");
    reveal_strlit("minecraft:use_remainder");
    reveal_strlit("minecraft:use_effects");
    let n = |x: ComponentKey| component_key_name(x);
    assert(n(ComponentKey::MaxStackSize).len() == 24);
    assert(n(ComponentKey::MaxDamage).len() == 20);
    assert(n(ComponentKey::Damage).len() == 16);
    assert(n(ComponentKey::RepairCost).len() == 21);
    assert(n(ComponentKey::Unbreakable).len() == 21);
    assert(n(ComponentKey::Glider).len() == 16);
    assert(n(ComponentKey::EnchantmentGlintOverride).len() == 36);
    assert(n(ComponentKey::Equippable).len() == 20);
    assert(n(ComponentKey::Tool).len() == 14);
    assert(n(ComponentKey::Food).len() == 14);
    assert(n(ComponentKey::Consumable).len() == 20);
    assert(n(ComponentKey::UseCooldown).len() == 22);
    assert(n(ComponentKey::UseRemainder).len() == 23);
    assert(n(ComponentKey::UseEffects).len() == 21);
    assert(n(ComponentKey::MaxDamage)[10] != n(ComponentKey::Equippable)[10]);
    assert(n(ComponentKey::MaxDamage)[10] != n(ComponentKey::Consumable)[10]);
    assert(n(ComponentKey::Equippable)[10] != n(ComponentKey::Consumable)[10]);
    assert(n(ComponentKey::Damage)[10] != n(ComponentKey::Glider)[10]);
    assert(n(ComponentKey::Tool)[10] != n(ComponentKey::Food)[10]);
    assert(n(ComponentKey::RepairCost)[10] != n(ComponentKey::Unbreakable)[10]);
    assert(n(ComponentKey::RepairCost)[10] != n(ComponentKey::UseEffects)[10]);
    assert(n(ComponentKey::Unbreakable)[11] != n(ComponentKey::UseEffects)[11]);
}

/// What the builder does with each number and flag: a stack size other
/// than 64, any damage or maximum damage, and a repair cost other than 0 are
/// set, each cut to 32 bits; the glint override is set to its flag;
/// unbreakable and glider are set with no value; every component built
/// from its value gives its call.
pub proof fn lemma_builder_call_values(v: &ComponentValue)
    ensures
        v.int_value matches Some(x) ==> {
            &&& builder_call_spec(ComponentKey::MaxStackSize, v) == (if x as i32 == 64 {
                None
            } else {
                Some(BuilderCall::MaxStackSize(x as i32))
            })
            &&& builder_call_spec(ComponentKey::MaxDamage, v) == Some(BuilderCall::MaxDamage(x as i32))
            &&& builder_call_spec(ComponentKey::Damage, v) == Some(BuilderCall::Damage(x as i32))
            &&& builder_call_spec(ComponentKey::RepairCost, v) == (if x as i32 == 0 {
                None
            } else {
                Some(BuilderCall::RepairCost(x as i32))
            })
        },
        v.bool_value matches Some(b) ==> builder_call_spec(ComponentKey::EnchantmentGlintOverride, v)
            == Some(BuilderCall::EnchantmentGlintOverride(b)),
        builder_call_spec(ComponentKey::Unbreakable, v) == Some(BuilderCall::Unbreakable),
        builder_call_spec(ComponentKey::Glider, v) == Some(BuilderCall::Glider),
        builder_call_spec(ComponentKey::Tool, v) == Some(BuilderCall::Tool),
        builder_call_spec(ComponentKey::Food, v) == Some(BuilderCall::Food),
        builder_call_spec(ComponentKey::Consumable, v) == Some(BuilderCall::Consumable),
        builder_call_spec(ComponentKey::UseCooldown, v) == Some(BuilderCall::UseCooldown),
        builder_call_spec(ComponentKey::UseRemainder, v) == Some(BuilderCall::UseRemainder),
        builder_call_spec(ComponentKey::UseEffects, v) == Some(BuilderCall::UseEffects),
{
}

/// A data-file effect entry that gives only its id is an effect of no
/// amplification lasting zero ticks, not ambient, visible, with its icon,
/// and no hidden effect; every field that is given is kept, the duration
/// -1 standing for an infinite effect.
pub proof fn lemma_json_instance_defaults(
    id: Seq<char>,
    amplifier: u64,
    duration: i64,
    ambient: bool,
    visible: bool,
    show_icon: bool,
    hidden: MobEffectInstanceModel,
)
    ensures
        json_instance(id, None, None, None, None, None, None) == (MobEffectInstanceModel {
            effect: LazyMobEffectModel::Raw(parse_identifier_text(id)),
            amplifier: 0,
            duration: Some(0i32),
            ambient: false,
            visible: true,
            show_icon: true,
            hidden_effect: None,
        }),
        ({
            let m = json_instance(
                id,
                Some(amplifier),
                Some(duration),
                Some(ambient),
                Some(visible),
                Some(show_icon),
                Some(hidden),
            );
            &&& m.amplifier == amplifier as i32
            &&& m.duration == (if duration as i32 == -1 {
                None
            } else {
                Some(duration as i32)
            })
            &&& m.ambient == ambient
            &&& m.visible == visible
            &&& m.show_icon == show_icon
            &&& m.hidden_effect == Some(Box::new(hidden))
        }),
{
}

/// The kind named by each type text of a consume effect in data files.
pub proof fn lemma_consume_effect_kind_names()
    ensures
        consume_effect_kind_spec("minecraft:apply_effects"@) == Some(ConsumeEffectKind::ApplyEffects),
        consume_effect_kind_spec("minecraft:remove_effects"@) == Some(ConsumeEffectKind::RemoveEffects),
        consume_effect_kind_spec("minecraft:clear_all_effects"@) == Some(
            ConsumeEffectKind::ClearAllEffects,
        ),
        consume_effect_kind_spec("minecraft:teleport_randomly"@) == Some(
            ConsumeEffectKind::TeleportRandomly,
        ),
        consume_effect_kind_spec("minecraft:play_sound"@) == Some(ConsumeEffectKind::PlaySound),
{
    crate::components::consume_effect::lemma_type_names_distinct();
}

} // verus!
