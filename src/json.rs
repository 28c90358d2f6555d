//! A structured-object value: the shape every peer message takes on the
//! wire before it is rendered as text.
use vstd::prelude::*;

verus! {

/// A self-describing structured value. Objects keep their entries in order.
#[derive(Debug, PartialEq)]
pub enum Json {
    Null,
    Bool(bool),
    Number(u64),
    /// Any other number (negative or fractional), as its text.
    OtherNumber(String),
    Str(String),
    Array(Vec<Json>),
    Object(Vec<(String, Json)>),
}

/// The value stored under `key` in an object's entries: the first entry
/// whose key is `key`, if any.
pub open spec fn field(entries: Seq<(String, Json)>, key: Seq<char>) -> Option<Json>
    decreases entries.len(),
{
    if entries.len() == 0 {
        None
    } else if entries[0].0@ == key {
        Some(entries[0].1)
    } else {
        field(entries.drop_first(), key)
    }
}

/// A lookup passes over leading entries whose keys differ.
pub proof fn lemma_field_skip(entries: Seq<(String, Json)>, key: Seq<char>, i: int)
    requires
        0 <= i <= entries.len(),
        forall|j: int| 0 <= j < i ==> entries[j].0@ != key,
    ensures
        field(entries, key) == field(entries.subrange(i, entries.len() as int), key),
    decreases i,
{
    if i == 0 {
        assert(entries.subrange(0, entries.len() as int) =~= entries);
    } else {
        lemma_field_skip(entries, key, i - 1);
        let rest = entries.subrange(i - 1, entries.len() as int);
        assert(rest.drop_first() =~= entries.subrange(i, entries.len() as int));
    }
}

proof fn lemma_field_remove_other(entries: Seq<(String, Json)>, i: int, key: Seq<char>)
    requires
        0 <= i < entries.len(),
        entries[i].0@ != key,
    ensures
        field(entries.remove(i), key) == field(entries, key),
    decreases i,
{
    if i == 0 {
        assert(entries.remove(0) =~= entries.drop_first());
    } else {
        let rest = entries.remove(i);
        assert(rest[0] == entries[0]);
        if entries[0].0@ != key {
            assert(rest.drop_first() =~= entries.drop_first().remove(i - 1));
            lemma_field_remove_other(entries.drop_first(), i - 1, key);
        }
    }
}

/// Removes the value stored under `key` and returns it. The value stored
/// under every other key stays as it was.
pub fn take_field(entries: &mut Vec<(String, Json)>, key: &String) -> (r: Option<Json>)
    ensures
        r == field(old(entries)@, key@),
        forall|k: Seq<char>| k != key@ ==> field(final(entries)@, k) == field(old(entries)@, k),
{
    let ghost orig = entries@;
    let mut i: usize = 0;
    while i < entries.len()
        invariant
            entries@ == orig,
            orig == old(entries)@,
            0 <= i <= entries.len(),
            forall|j: int| 0 <= j < i ==> entries@[j].0@ != key@,
        decreases entries.len() - i,
    {
        if entries[i].0 == *key {
            proof {
                lemma_field_skip(orig, key@, i as int);
                let tail = orig.subrange(i as int, orig.len() as int);
                assert(tail[0] == orig[i as int]);
                assert forall|k: Seq<char>| k != key@ implies field(orig.remove(i as int), k) == field(orig, k) by {
                    lemma_field_remove_other(orig, i as int, k);
                }
            }
            let (_, v) = entries.remove(i);
            return Some(v);
        }
        i = i + 1;
    }
    proof {
        lemma_field_skip(orig, key@, i as int);
    }
    None
}

} // verus!
