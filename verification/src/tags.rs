//! The tag mapping of a protocol event.
use vstd::prelude::*;

verus! {

/// One key of the tag mapping with its optional value.
#[derive(Debug)]
pub struct Tag {
    pub key: String,
    pub value: Option<String>,
}

/// What the mapping holds under `key`: `None` where the key is absent,
/// `Some(None)` where it stands without a value. Of two entries with one key
/// the later one counts.
pub open spec fn lookup(tags: Seq<Tag>, key: Seq<char>) -> Option<Option<Seq<char>>>
    decreases tags.len(),
{
    if tags.len() == 0 {
        None
    } else if tags.last().key@ == key {
        Some(crate::text::text_view(tags.last().value))
    } else {
        lookup(tags.drop_last(), key)
    }
}

/// Whether the mapping has `key`, whatever its value.
pub open spec fn has_key(tags: Seq<Tag>, key: Seq<char>) -> bool {
    lookup(tags, key).is_some()
}

/// The value under `key`, where the key is present and has one.
pub open spec fn value_of(tags: Seq<Tag>, key: Seq<char>) -> Option<Seq<char>> {
    match lookup(tags, key) {
        Some(Some(v)) => Some(v),
        _ => None,
    }
}

/// The characters of a lookup result.
pub open spec fn found_view(r: Option<Option<String>>) -> Option<Option<Seq<char>>> {
    match r {
        Some(v) => Some(crate::text::text_view(v)),
        None => None,
    }
}

/// Looks `key` up in the mapping.
pub fn find(tags: &Vec<Tag>, key: &str) -> (r: Option<Option<String>>)
    ensures
        found_view(r) == lookup(tags@, key@),
{
    let wanted = key.to_owned();
    let mut i: usize = tags.len();
    assert(tags@.take(i as int) == tags@);
    while i > 0
        invariant
            i <= tags.len(),
            wanted@ == key@,
            lookup(tags@, key@) == lookup(tags@.take(i as int), key@),
        decreases i,
    {
        assert(tags@.take(i as int).drop_last() == tags@.take(i as int - 1));
        assert(tags@.take(i as int).last() == tags@[i as int - 1]);
        i = i - 1;
        if tags[i].key == wanted {
            return Some(crate::text::copy_text(&tags[i].value));
        }
    }
    None
}

/// Whether the mapping has `key`, whatever its value.
pub fn contains_key(tags: &Vec<Tag>, key: &str) -> (r: bool)
    ensures
        r == has_key(tags@, key@),
{
    find(tags, key).is_some()
}

/// The value under `key`, where the key is present and has one.
pub fn value(tags: &Vec<Tag>, key: &str) -> (r: Option<String>)
    ensures
        crate::text::text_view(r) == value_of(tags@, key@),
{
    match find(tags, key) {
        Some(Some(v)) => Some(v),
        _ => None,
    }
}

} // verus!
