//! Namespaced keys such as `minecraft:speed`.
use vstd::prelude::*;
use crate::codec::{ByteReader, DecodeError, Parsed, parse_string, reads_as, string_bytes, write_string};

verus! {

/// The namespace of the vanilla game.
pub open spec fn vanilla_namespace() -> Seq<char> {
    seq!['m', 'i', 'n', 'e', 'c', 'r', 'a', 'f', 't']
}

/// An identifier as the contracts see it.
pub struct IdentifierModel {
    pub namespace: Seq<char>,
    pub path: Seq<char>,
}

/// The text form `namespace:path`.
pub open spec fn identifier_text(id: IdentifierModel) -> Seq<char> {
    id.namespace + seq![':'] + id.path
}

/// A text `namespace:path` split at its first colon; without a colon the
/// whole text is a path in the vanilla namespace.
pub open spec fn parse_identifier_text(t: Seq<char>) -> IdentifierModel {
    if exists|i: int| 0 <= i < t.len() && t[i] == ':' {
        let i = first_index_of(t, ':');
        IdentifierModel { namespace: t.take(i), path: t.skip(i + 1) }
    } else {
        IdentifierModel { namespace: vanilla_namespace(), path: t }
    }
}

/// The first position of `c` in `t` (meaningful when `c` occurs in `t`).
pub open spec fn first_index_of(t: Seq<char>, c: char) -> int {
    choose|i: int| 0 <= i < t.len() && t[i] == c && forall|j: int| 0 <= j < i ==> t[j] != c
}

/// Whether the text holds no colon.
pub open spec fn no_colon(t: Seq<char>) -> bool {
    forall|i: int| 0 <= i < t.len() ==> t[i] != ':'
}

/// The text form of an identifier whose namespace has no colon reads back
/// as that identifier.
pub proof fn lemma_identifier_text_roundtrip(id: IdentifierModel)
    requires
        no_colon(id.namespace),
    ensures
        parse_identifier_text(identifier_text(id)) == id,
{
    let t = identifier_text(id);
    let n = id.namespace.len() as int;
    assert(t[n] == ':');
    assert(forall|j: int| 0 <= j < n ==> t[j] == id.namespace[j]);
    assert(0 <= n < t.len() && t[n] == ':' && forall|j: int| 0 <= j < n ==> t[j] != ':');
    let k = first_index_of(t, ':');
    assert(k == n) by {
        if k < n {
            assert(t[k] == id.namespace[k]);
        }
    }
    assert(t.take(n) =~= id.namespace);
    assert(t.skip(n + 1) =~= id.path);
}

/// A namespaced key.
#[derive(Debug, PartialEq, Eq, Hash)]
pub struct Identifier {
    pub namespace: String,
    pub path: String,
}

impl View for Identifier {
    type V = IdentifierModel;

    open spec fn view(&self) -> IdentifierModel {
        IdentifierModel { namespace: self.namespace@, path: self.path@ }
    }
}

impl Clone for Identifier {
    fn clone(&self) -> (r: Self)
        ensures
            r@ == self@,
    {
        Identifier { namespace: self.namespace.clone(), path: self.path.clone() }
    }
}

impl Identifier {
    /// An identifier with the given namespace and path.
    pub fn new(namespace: String, path: String) -> (r: Self)
        ensures
            r@ == (IdentifierModel { namespace: namespace@, path: path@ }),
    {
        Identifier { namespace, path }
    }

    /// An identifier in the vanilla namespace `minecraft`.
    pub fn vanilla(path: String) -> (r: Self)
        ensures
            r@ == (IdentifierModel { namespace: vanilla_namespace(), path: path@ }),
    {
        let namespace = String::from_str("minecraft");
        proof {
            reveal_strlit("minecraft");
            assert(namespace@ =~= vanilla_namespace());
        }
        Identifier { namespace, path }
    }

    /// The text form `namespace:path`.
    pub fn to_string(&self) -> (s: String)
        ensures
            s@ == identifier_text(self@),
    {
        let mut s = self.namespace.clone();
        s.append(":");
        s.append(self.path.as_str());
        proof {
            reveal_strlit(":");
        }
        s
    }

    /// Reads a text `namespace:path`; without a colon the text is a path in
    /// the vanilla namespace.
    pub fn parse(text: &str) -> (r: Self)
        ensures
            r@ == parse_identifier_text(text@),
    {
        let n = text.unicode_len();
        let mut i: usize = 0;
        while i < n
            invariant
                n == text@.len(),
                i <= n,
                forall|j: int| 0 <= j < i ==> text@[j] != ':',
            decreases n - i,
        {
            if text.get_char(i) == ':' {
                let namespace = String::from_str(text.substring_char(0, i));
                let path = String::from_str(text.substring_char(i + 1, n));
                proof {
                    let t = text@;
                    assert(0 <= i < t.len() && t[i as int] == ':');
                    let k = first_index_of(t, ':');
                    assert(k == i as int) by {
                        if k < i {
                        } else if k > i {
                        }
                    }
                    assert(namespace@ =~= t.take(i as int));
                    assert(path@ =~= t.skip(i + 1));
                }
                return Identifier { namespace, path };
            }
            i = i + 1;
        }
        Identifier::vanilla(String::from_str(text))
    }

    /// Appends the text form as a length-prefixed string.
    pub fn write(&self, out: &mut Vec<u8>)
        ensures
            final(out)@ == old(out)@ + string_bytes(identifier_text(self@)),
    {
        let s = self.to_string();
        write_string(out, s.as_str());
    }
}

/// An identifier read as a length-prefixed text `namespace:path`.
pub open spec fn parse_identifier(s: Seq<u8>) -> Parsed<IdentifierModel> {
    match parse_string(s) {
        Ok((t, rest)) => Ok((parse_identifier_text(t), rest)),
        Err(e) => Err(e),
    }
}

/// Reads an identifier written as its text form.
pub fn read_identifier(r: &mut ByteReader) -> (res: Result<Identifier, DecodeError>)
    requires
        old(r).wf(),
    ensures
        final(r).wf(),
        final(r).input() == old(r).input(),
        reads_as(res, final(r).rest(), parse_identifier(old(r).rest())),
{
    let s = r.read_string()?;
    Ok(Identifier::parse(s.as_str()))
}

/// Two strings with the same characters.
pub fn str_eq(a: &str, b: &str) -> (r: bool)
    ensures
        r == (a@ == b@),
{
    let x = a.to_owned();
    let y = b.to_owned();
    x == y
}

/// The text with every occurrence of `p` taken out, scanning from the left.
pub open spec fn remove_all(t: Seq<char>, p: Seq<char>) -> Seq<char>
    decreases t.len(),
{
    if t.len() == 0 {
        Seq::empty()
    } else if p.len() > 0 && p.len() <= t.len() && t.take(p.len() as int) == p {
        remove_all(t.skip(p.len() as int), p)
    } else {
        seq![t[0]] + remove_all(t.skip(1), p)
    }
}

/// `t` with every occurrence of `p` taken out, scanning from the left
/// (what `str::replace(p, "")` gives).
pub fn remove_all_occurrences(t: &str, p: &str) -> (r: String)
    ensures
        r@ == remove_all(t@, p@),
{
    let n = t.unicode_len();
    let m = p.unicode_len();
    let mut out = String::new();
    let mut i: usize = 0;
    assert(t@.skip(0) =~= t@);
    while i < n
        invariant
            n == t@.len(),
            m == p@.len(),
            i <= n,
            remove_all(t@, p@) == out@ + remove_all(t@.skip(i as int), p@),
        decreases n - i,
    {
        let ghost rest = t@.skip(i as int);
        if m > 0 && m <= n - i && str_eq(t.substring_char(i, i + m), p) {
            assert(rest.take(m as int) =~= t@.subrange(i as int, i + m));
            assert(rest.skip(m as int) =~= t@.skip(i + m));
            i = i + m;
        } else {
            if m > 0 && m <= n - i {
                assert(rest.take(m as int) =~= t@.subrange(i as int, i + m));
            }
            let c = t.substring_char(i, i + 1);
            let ghost before = out@;
            out.append(c);
            assert(c@ =~= seq![rest[0]]);
            assert(rest.skip(1) =~= t@.skip(i + 1));
            assert(before + (seq![rest[0]] + remove_all(rest.skip(1), p@)) =~= out@ + remove_all(
                t@.skip(i + 1),
                p@,
            ));
            i = i + 1;
        }
    }
    assert(t@.skip(n as int) =~= Seq::<char>::empty());
    assert(out@ + Seq::<char>::empty() =~= out@);
    out
}

/// Identifiers with the same text are equal.
pub fn identifier_eq(a: &Identifier, b: &Identifier) -> (r: bool)
    ensures
        r == (a@ == b@),
{
    a.namespace == b.namespace && a.path == b.path
}

} // verus!
