//! The NBT values that components are stored as: tags, lists and
//! compounds of named tags, with lookup by name.
use vstd::prelude::*;
use crate::identifier::str_eq;

verus! {

/// A named-binary-tag value, as far as components use them.
#[derive(Debug)]
pub enum NbtTag {
    Byte(i8),
    Int(i32),
    /// A float, as its bit pattern.
    Float(u32),
    String(String),
    List(NbtList),
    Compound(NbtCompound),
    /// Any other kind of tag (short, long, double, arrays).
    Other,
}

/// A list tag, as far as components use them.
#[derive(Debug)]
pub enum NbtList {
    Empty,
    Strings(Vec<String>),
    Compounds(Vec<NbtCompound>),
    /// A list of any other kind of tag.
    Other,
}

/// Named tags in order; lookups find the first tag with a name.
#[derive(Debug)]
pub struct NbtCompound {
    pub values: Vec<(String, NbtTag)>,
}

/// The first tag named `name`, if any.
pub open spec fn find_entry(entries: Seq<(String, NbtTag)>, name: Seq<char>) -> Option<NbtTag>
    decreases entries.len(),
{
    if entries.len() == 0 {
        None
    } else if entries[0].0@ == name {
        Some(entries[0].1)
    } else {
        find_entry(entries.skip(1), name)
    }
}

/// The value of a byte tag.
pub open spec fn tag_byte(t: NbtTag) -> Option<i8> {
    match t {
        NbtTag::Byte(b) => Some(b),
        _ => None,
    }
}

/// The value of an int tag.
pub open spec fn tag_int(t: NbtTag) -> Option<i32> {
    match t {
        NbtTag::Int(i) => Some(i),
        _ => None,
    }
}

/// The bits of a float tag.
pub open spec fn tag_float(t: NbtTag) -> Option<u32> {
    match t {
        NbtTag::Float(f) => Some(f),
        _ => None,
    }
}

/// The text of a string tag.
pub open spec fn tag_string(t: NbtTag) -> Option<Seq<char>> {
    match t {
        NbtTag::String(s) => Some(s@),
        _ => None,
    }
}

/// The first tag named `name` in a compound tag, if the tag is a compound.
pub open spec fn tag_get(t: NbtTag, name: Seq<char>) -> Option<NbtTag> {
    match t {
        NbtTag::Compound(c) => find_entry(c.values@, name),
        _ => None,
    }
}

/// The byte value of the first tag named `name`, if it is a byte tag.
pub open spec fn entry_byte(c: NbtCompound, name: Seq<char>) -> Option<i8> {
    match find_entry(c.values@, name) {
        Some(t) => tag_byte(t),
        None => None,
    }
}

/// The int value of the first tag named `name`, if it is an int tag.
pub open spec fn entry_int(c: NbtCompound, name: Seq<char>) -> Option<i32> {
    match find_entry(c.values@, name) {
        Some(t) => tag_int(t),
        None => None,
    }
}

/// The float bits of the first tag named `name`, if it is a float tag.
pub open spec fn entry_float(c: NbtCompound, name: Seq<char>) -> Option<u32> {
    match find_entry(c.values@, name) {
        Some(t) => tag_float(t),
        None => None,
    }
}

/// The text of the first tag named `name`, if it is a string tag.
pub open spec fn entry_string(c: NbtCompound, name: Seq<char>) -> Option<Seq<char>> {
    match find_entry(c.values@, name) {
        Some(t) => tag_string(t),
        None => None,
    }
}

/// The byte of a boolean.
pub open spec fn bool_nbt_byte(b: bool) -> i8 {
    if b {
        1
    } else {
        0
    }
}

/// The first tag named like entry `i` is that entry's tag, when no earlier
/// entry has its name.
pub proof fn lemma_find_entry_at(entries: Seq<(String, NbtTag)>, i: int)
    requires
        0 <= i < entries.len(),
        forall|j: int| 0 <= j < i ==> (#[trigger] entries[j]).0@ != entries[i].0@,
    ensures
        find_entry(entries, entries[i].0@) == Some(entries[i].1),
    decreases i,
{
    if i > 0 {
        let rest = entries.skip(1);
        assert(rest[i - 1] == entries[i]);
        assert forall|j: int| 0 <= j < i - 1 implies (#[trigger] rest[j]).0@ != rest[i - 1].0@ by {
            assert(rest[j] == entries[j + 1]);
        }
        lemma_find_entry_at(rest, i - 1);
    }
}

/// No tag is found under a name that no entry has.
pub proof fn lemma_find_entry_absent(entries: Seq<(String, NbtTag)>, name: Seq<char>)
    requires
        forall|j: int| 0 <= j < entries.len() ==> (#[trigger] entries[j]).0@ != name,
    ensures
        find_entry(entries, name) is None,
    decreases entries.len(),
{
    if entries.len() > 0 {
        let rest = entries.skip(1);
        assert forall|j: int| 0 <= j < rest.len() implies (#[trigger] rest[j]).0@ != name by {
            assert(rest[j] == entries[j + 1]);
        }
        lemma_find_entry_absent(rest, name);
    }
}

/// A tag that is found is the tag of some entry.
pub proof fn lemma_find_entry_member(entries: Seq<(String, NbtTag)>, name: Seq<char>)
    ensures
        find_entry(entries, name) matches Some(t) ==> exists|i: int|
            0 <= i < entries.len() && (#[trigger] entries[i]).1 == t,
    decreases entries.len(),
{
    if entries.len() > 0 && entries[0].0@ != name {
        let rest = entries.skip(1);
        lemma_find_entry_member(rest, name);
        if let Some(t) = find_entry(rest, name) {
            let i = choose|i: int| 0 <= i < rest.len() && (#[trigger] rest[i]).1 == t;
            assert(entries[i + 1] == rest[i]);
        }
    }
}

/// Pushing an entry keeps the first tag of every name already present.
pub proof fn lemma_find_entry_push(entries: Seq<(String, NbtTag)>, e: (String, NbtTag), name: Seq<char>)
    ensures
        find_entry(entries.push(e), name) == (match find_entry(entries, name) {
            Some(t) => Some(t),
            None => if e.0@ == name {
                Some(e.1)
            } else {
                None
            },
        }),
    decreases entries.len(),
{
    if entries.len() > 0 {
        assert(entries.push(e)[0] == entries[0]);
        assert(entries.push(e).skip(1) =~= entries.skip(1).push(e));
        lemma_find_entry_push(entries.skip(1), e, name);
    } else {
        assert(entries.push(e)[0] == e);
        assert(entries.push(e).skip(1) =~= Seq::<(String, NbtTag)>::empty());
        assert(find_entry(Seq::<(String, NbtTag)>::empty(), name) is None);
    }
}

impl NbtTag {
    /// The value if this is a byte tag.
    pub fn as_byte(&self) -> (r: Option<i8>)
        ensures
            r == tag_byte(*self),
    {
        match self {
            NbtTag::Byte(b) => Some(*b),
            _ => None,
        }
    }

    /// The value if this is an int tag.
    pub fn as_int(&self) -> (r: Option<i32>)
        ensures
            r == tag_int(*self),
    {
        match self {
            NbtTag::Int(i) => Some(*i),
            _ => None,
        }
    }

    /// The bits if this is a float tag.
    pub fn as_float(&self) -> (r: Option<u32>)
        ensures
            r == tag_float(*self),
    {
        match self {
            NbtTag::Float(f) => Some(*f),
            _ => None,
        }
    }

    /// The text if this is a string tag.
    pub fn as_string(&self) -> (r: Option<&String>)
        ensures
            r is Some <==> tag_string(*self) is Some,
            r matches Some(s) ==> s@ == tag_string(*self)->Some_0,
    {
        match self {
            NbtTag::String(s) => Some(s),
            _ => None,
        }
    }

    /// The list if this is a list tag.
    pub fn as_list(&self) -> (r: Option<&NbtList>)
        ensures
            r is Some <==> *self is List,
            r matches Some(l) ==> *self == NbtTag::List(*l),
    {
        match self {
            NbtTag::List(l) => Some(l),
            _ => None,
        }
    }

    /// The compound if this is a compound tag.
    pub fn as_compound(&self) -> (r: Option<&NbtCompound>)
        ensures
            r is Some <==> *self is Compound,
            r matches Some(c) ==> *self == NbtTag::Compound(*c),
    {
        match self {
            NbtTag::Compound(c) => Some(c),
            _ => None,
        }
    }
}

impl NbtCompound {
    /// A compound with no tags.
    pub fn new() -> (c: Self)
        ensures
            c.values@.len() == 0,
    {
        NbtCompound { values: Vec::new() }
    }

    /// Appends a named tag.
    pub fn insert(&mut self, name: &str, tag: NbtTag)
        ensures
            final(self).values@.len() == old(self).values@.len() + 1,
            final(self).values@.drop_last() == old(self).values@,
            final(self).values@.last().0@ == name@,
            final(self).values@.last().1 == tag,
    {
        self.values.push((String::from_str(name), tag));
        assert(self.values@.drop_last() =~= old(self).values@);
    }

    /// The byte value of the first tag with the given name, if it is a byte tag.
    pub fn get_byte(&self, name: &str) -> (r: Option<i8>)
        ensures
            r == entry_byte(*self, name@),
    {
        match self.get(name) {
            Some(t) => t.as_byte(),
            None => None,
        }
    }

    /// The int value of the first tag with the given name, if it is an int tag.
    pub fn get_int(&self, name: &str) -> (r: Option<i32>)
        ensures
            r == entry_int(*self, name@),
    {
        match self.get(name) {
            Some(t) => t.as_int(),
            None => None,
        }
    }

    /// The float bits of the first tag with the given name, if it is a float tag.
    pub fn get_float(&self, name: &str) -> (r: Option<u32>)
        ensures
            r == entry_float(*self, name@),
    {
        match self.get(name) {
            Some(t) => t.as_float(),
            None => None,
        }
    }

    /// The text of the first tag with the given name, if it is a string tag.
    pub fn get_string(&self, name: &str) -> (r: Option<&String>)
        ensures
            r is Some <==> entry_string(*self, name@) is Some,
            r matches Some(s) ==> s@ == entry_string(*self, name@)->Some_0,
    {
        match self.get(name) {
            Some(t) => t.as_string(),
            None => None,
        }
    }

    /// The first tag with the given name, if any.
    pub fn get(&self, name: &str) -> (r: Option<&NbtTag>)
        ensures
            r is Some <==> find_entry(self.values@, name@) is Some,
            r matches Some(t) ==> *t == find_entry(self.values@, name@)->Some_0,
    {
        let n = self.values.len();
        let mut k: usize = 0;
        assert(self.values@.skip(0) =~= self.values@);
        while k < n
            invariant
                n == self.values@.len(),
                k <= n,
                find_entry(self.values@, name@) == find_entry(self.values@.skip(k as int), name@),
            decreases n - k,
        {
            let entry = &self.values[k];
            assert(self.values@.skip(k as int)[0] == self.values@[k as int]);
            assert(self.values@.skip(k as int).skip(1) =~= self.values@.skip(k + 1));
            if str_eq(entry.0.as_str(), name) {
                return Some(&entry.1);
            }
            k = k + 1;
        }
        None
    }
}

} // verus!
