//! The untyped JSON tree and key lookup with alias resolution.
use vstd::prelude::*;

verus! {

/// An untyped JSON value, as it stands in a feed before typed decoding.
pub enum JsonValue {
    Null,
    Bool(bool),
    /// A JSON number, kept as the text it was written with.
    Number(String),
    Str(String),
    Array(Vec<JsonValue>),
    /// The members of an object, in source order.
    Object(Vec<(String, JsonValue)>),
}

/// The value of the first member whose key is exactly `key`.
pub open spec fn get_key(entries: Seq<(String, JsonValue)>, key: Seq<char>) -> Option<JsonValue>
    decreases entries.len(),
{
    if entries.len() == 0 {
        None
    } else if entries[0].0@ == key {
        Some(entries[0].1)
    } else {
        get_key(entries.drop_first(), key)
    }
}

/// The value found under the first alias, in priority order, that the object holds.
pub open spec fn resolve(entries: Seq<(String, JsonValue)>, aliases: Seq<Seq<char>>) -> Option<JsonValue>
    decreases aliases.len(),
{
    if aliases.len() == 0 {
        None
    } else {
        match get_key(entries, aliases[0]) {
            Some(v) => Some(v),
            None => resolve(entries, aliases.drop_first()),
        }
    }
}

/// The views of a list of key names.
pub open spec fn names_view(names: Seq<&str>) -> Seq<Seq<char>> {
    names.map_values(|n: &str| n@)
}

/// Character-wise equality of two strings.
pub fn text_eq(a: &str, b: &str) -> (r: bool)
    ensures
        r == (a@ == b@),
{
    let n = a.unicode_len();
    if n != b.unicode_len() {
        return false;
    }
    let mut i: usize = 0;
    while i < n
        invariant
            n == a@.len(),
            n == b@.len(),
            i <= n,
            forall|j: int| 0 <= j < i ==> a@[j] == b@[j],
        decreases n - i,
    {
        if a.get_char(i) != b.get_char(i) {
            return false;
        }
        i = i + 1;
    }
    assert(a@ =~= b@);
    true
}

/// The value of the first member whose key is exactly `key`, if any.
pub fn find_key<'a>(entries: &'a Vec<(String, JsonValue)>, key: &str) -> (r: Option<&'a JsonValue>)
    ensures
        r is Some <==> get_key(entries@, key@) is Some,
        r is Some ==> *r->0 == get_key(entries@, key@)->0,
{
    let mut i: usize = 0;
    assert(entries@.subrange(0, entries@.len() as int) =~= entries@);
    while i < entries.len()
        invariant
            i <= entries@.len(),
            get_key(entries@, key@) == get_key(entries@.subrange(i as int, entries@.len() as int), key@),
        decreases entries@.len() - i,
    {
        let ghost rest = entries@.subrange(i as int, entries@.len() as int);
        assert(rest.drop_first() =~= entries@.subrange(i + 1, entries@.len() as int));
        if text_eq(entries[i].0.as_str(), key) {
            return Some(&entries[i].1);
        }
        i = i + 1;
    }
    None
}

/// Alias resolution: the value under the first of `aliases` that the object holds.
pub fn get_field<'a>(entries: &'a Vec<(String, JsonValue)>, aliases: &[&str]) -> (r: Option<&'a JsonValue>)
    ensures
        r is Some <==> resolve(entries@, names_view(aliases@)) is Some,
        r is Some ==> *r->0 == resolve(entries@, names_view(aliases@))->0,
{
    let mut i: usize = 0;
    assert(aliases@.subrange(0, aliases@.len() as int) =~= aliases@);
    while i < aliases.len()
        invariant
            i <= aliases@.len(),
            resolve(entries@, names_view(aliases@)) == resolve(
                entries@,
                names_view(aliases@.subrange(i as int, aliases@.len() as int)),
            ),
        decreases aliases@.len() - i,
    {
        let ghost rest = aliases@.subrange(i as int, aliases@.len() as int);
        assert(names_view(rest).drop_first() =~= names_view(
            aliases@.subrange(i + 1, aliases@.len() as int),
        ));
        assert(names_view(rest)[0] == aliases@[i as int]@);
        let found = find_key(entries, aliases[i]);
        if found.is_some() {
            return found;
        }
        i = i + 1;
    }
    assert(names_view(aliases@.subrange(i as int, aliases@.len() as int)) =~= Seq::<Seq<char>>::empty());
    None
}

/// The members of an object; nothing for any other value.
pub open spec fn entries_of(v: JsonValue) -> Seq<(String, JsonValue)> {
    match v {
        JsonValue::Object(e) => e@,
        _ => Seq::empty(),
    }
}

/// The elements of an array document, or of the array an object document
/// holds under the first of `keys` present.
pub open spec fn items_of(doc: JsonValue, keys: Seq<&str>) -> Option<Seq<JsonValue>> {
    match doc {
        JsonValue::Array(a) => Some(a@),
        JsonValue::Object(e) => match resolve(e@, names_view(keys)) {
            Some(JsonValue::Array(a)) => Some(a@),
            _ => None,
        },
        _ => None,
    }
}

/// The array a feed document carries, as `items_of` describes it.
pub fn find_items<'a>(doc: &'a JsonValue, keys: &[&str]) -> (r: Option<&'a Vec<JsonValue>>)
    ensures
        r is Some <==> items_of(*doc, keys@) is Some,
        r is Some ==> r->0@ == items_of(*doc, keys@)->0,
{
    match doc {
        JsonValue::Array(a) => Some(a),
        JsonValue::Object(e) => match get_field(e, keys) {
            Some(JsonValue::Array(a)) => Some(a),
            _ => None,
        },
        _ => None,
    }
}

/// Alias priority: the value under an earlier alias wins over any later one,
/// and where the first alias is absent the second one is consulted.
pub proof fn law_alias_priority(entries: Seq<(String, JsonValue)>, aliases: Seq<Seq<char>>)
    requires
        aliases.len() >= 2,
    ensures
        get_key(entries, aliases[0]) is Some ==> resolve(entries, aliases) == get_key(entries, aliases[0]),
        get_key(entries, aliases[0]) is None ==> resolve(entries, aliases) == resolve(entries, aliases.drop_first()),
        get_key(entries, aliases[0]) is None && get_key(entries, aliases[1]) is Some
            ==> resolve(entries, aliases) == get_key(entries, aliases[1]),
{
    assert(aliases.drop_first()[0] == aliases[1]);
}

/// A member put in front of an object changes no lookup of a key other than its own.
pub proof fn lemma_resolve_other_key(entries: Seq<(String, JsonValue)>, k: String, v: JsonValue, aliases: Seq<&str>)
    requires
        forall|i: int| 0 <= i < aliases.len() ==> (#[trigger] aliases[i])@ != k@,
    ensures
        resolve(seq![(k, v)] + entries, names_view(aliases)) == resolve(entries, names_view(aliases)),
    decreases aliases.len(),
{
    if aliases.len() > 0 {
        let s = seq![(k, v)] + entries;
        assert(s.drop_first() =~= entries);
        assert(s[0] == (k, v));
        assert(names_view(aliases).drop_first() =~= names_view(aliases.drop_first()));
        assert(names_view(aliases)[0] == aliases[0]@);
        lemma_resolve_other_key(entries, k, v, aliases.drop_first());
    }
}

} // verus!
