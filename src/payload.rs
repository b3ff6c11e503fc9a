//! Caller input as it reaches the normalizer: a positional array, a named object, or
//! something that is neither.
use vstd::prelude::*;

verus! {

/// Caller-supplied JSON, with every value already held as its compact JSON text.
pub enum InputPayload {
    /// Positional form: the elements in order.
    Array(Vec<String>),
    /// Named form: (key, value) entries; the keys are distinct.
    Object(Vec<(String, String)>),
    /// Malformed JSON or a JSON scalar; the text says which.
    Invalid(String),
}

/// The (key, value) entries of an object payload, as character sequences.
pub open spec fn pairs_of(entries: Seq<(String, String)>) -> Seq<(Seq<char>, Seq<char>)> {
    entries.map_values(|e: (String, String)| (e.0@, e.1@))
}

/// The keys of a sequence of entries, in order.
pub open spec fn keys_of(pairs: Seq<(Seq<char>, Seq<char>)>) -> Seq<Seq<char>> {
    pairs.map_values(|p: (Seq<char>, Seq<char>)| p.0)
}

/// The value of the first entry whose key is `key`; empty where there is none.
pub open spec fn value_for(pairs: Seq<(Seq<char>, Seq<char>)>, key: Seq<char>) -> Seq<char>
    decreases pairs.len(),
{
    if pairs.len() == 0 {
        Seq::empty()
    } else if pairs[0].0 == key {
        pairs[0].1
    } else {
        value_for(pairs.drop_first(), key)
    }
}

} // verus!
