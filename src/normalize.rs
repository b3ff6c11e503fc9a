//! Validation of caller input against a method signature, producing the ordered argument
//! list that a call carries.
use vstd::prelude::*;

use crate::payload::{keys_of, pairs_of, value_for, InputPayload};
use crate::signature::{arg_names, MethodSignature};
use crate::suggest::{
    best_suggestion, edit_distance, lemma_suggestion_exists_iff_close, suggestion, views_of,
    MAX_SUGGESTION_DISTANCE,
};

verus! {

/// An unexpected field name together with the closest expected name, if one is close enough.
pub struct Suggestion {
    pub token: String,
    pub best_match: Option<String>,
}

/// Why an input could not be turned into an argument list.
pub enum NormalizationError {
    /// A named-form input whose fields do not match the signature: the expected names it
    /// lacks, in signature order, and the keys it has that the signature does not name,
    /// in input order.
    FieldMismatch { missing: Vec<String>, unknown: Vec<Suggestion> },
    /// The input was neither a JSON array nor a JSON object.
    NotArrayOrObject,
}

pub open spec fn opt_view(o: Option<String>) -> Option<Seq<char>> {
    match o {
        Some(s) => Some(s@),
        None => None,
    }
}

/// The expected names that do not occur among the keys, in signature order.
pub open spec fn missing_names(keys: Seq<Seq<char>>, names: Seq<Seq<char>>) -> Seq<Seq<char>> {
    names.filter(|n: Seq<char>| !keys.contains(n))
}

/// The keys that the signature does not name, in input order.
pub open spec fn unknown_keys(keys: Seq<Seq<char>>, names: Seq<Seq<char>>) -> Seq<Seq<char>> {
    keys.filter(|k: Seq<char>| !names.contains(k))
}

/// The value given for each expected name, in signature order.
pub open spec fn ordered_values(pairs: Seq<(Seq<char>, Seq<char>)>, names: Seq<Seq<char>>) -> Seq<
    Seq<char>,
> {
    names.map_values(|n: Seq<char>| value_for(pairs, n))
}

/// Whether an object payload with these entries is accepted against these names.
pub open spec fn object_accepted(pairs: Seq<(Seq<char>, Seq<char>)>, names: Seq<Seq<char>>) -> bool {
    missing_names(keys_of(pairs), names).len() == 0 && unknown_keys(keys_of(pairs), names).len()
        == 0
}

pub open spec fn tokens_of(s: Seq<Suggestion>) -> Seq<Seq<char>> {
    s.map_values(|x: Suggestion| x.token@)
}

proof fn lemma_filter_step(s: Seq<Seq<char>>, i: int, pred: spec_fn(Seq<char>) -> bool)
    requires
        0 <= i < s.len(),
    ensures
        s.subrange(0, i + 1).filter(pred) == if pred(s[i]) {
            s.subrange(0, i).filter(pred).push(s[i])
        } else {
            s.subrange(0, i).filter(pred)
        },
{
    reveal(Seq::filter);
    assert(s.subrange(0, i + 1).drop_last() =~= s.subrange(0, i));
}

proof fn lemma_filter_empty(s: Seq<Seq<char>>, pred: spec_fn(Seq<char>) -> bool)
    ensures
        s.filter(pred).len() == 0 <==> forall|i: int| 0 <= i < s.len() ==> !pred(#[trigger] s[i]),
    decreases s.len(),
{
    reveal(Seq::filter);
    if s.len() > 0 {
        let t = s.drop_last();
        lemma_filter_empty(t, pred);
        assert(forall|i: int| 0 <= i < t.len() ==> #[trigger] t[i] == s[i]);
        if s.filter(pred).len() == 0 {
            assert forall|i: int| 0 <= i < s.len() implies !pred(#[trigger] s[i]) by {
                if i < t.len() {
                    assert(t[i] == s[i]);
                }
            }
        }
    }
}

proof fn lemma_value_for_first(pairs: Seq<(Seq<char>, Seq<char>)>, key: Seq<char>, j: int)
    requires
        0 <= j < pairs.len(),
        pairs[j].0 == key,
        forall|k: int| 0 <= k < j ==> pairs[k].0 != key,
    ensures
        value_for(pairs, key) == pairs[j].1,
    decreases j,
{
    if j > 0 {
        lemma_value_for_first(pairs.drop_first(), key, j - 1);
    }
}

proof fn lemma_value_for_absent(pairs: Seq<(Seq<char>, Seq<char>)>, key: Seq<char>)
    requires
        !keys_of(pairs).contains(key),
    ensures
        value_for(pairs, key) == Seq::<char>::empty(),
    decreases pairs.len(),
{
    if pairs.len() > 0 {
        assert(keys_of(pairs)[0] == pairs[0].0);
        let rest = pairs.drop_first();
        if keys_of(rest).contains(key) {
            let k = choose|k: int| 0 <= k < keys_of(rest).len() && keys_of(rest)[k] == key;
            assert(keys_of(pairs)[k + 1] == key);
        }
        lemma_value_for_absent(rest, key);
    }
}

proof fn lemma_value_for_member(pairs: Seq<(Seq<char>, Seq<char>)>, key: Seq<char>, value: Seq<char>)
    requires
        keys_of(pairs).no_duplicates(),
        pairs.contains((key, value)),
    ensures
        value_for(pairs, key) == value,
{
    let j = choose|j: int| 0 <= j < pairs.len() && pairs[j] == (key, value);
    assert forall|k: int| 0 <= k < j implies pairs[k].0 != key by {
        assert(keys_of(pairs)[k] == pairs[k].0);
        assert(keys_of(pairs)[j] == pairs[j].0);
    }
    lemma_value_for_first(pairs, key, j);
}

proof fn lemma_keys_contain(pairs: Seq<(Seq<char>, Seq<char>)>, key: Seq<char>)
    ensures
        keys_of(pairs).contains(key) <==> exists|v: Seq<char>| pairs.contains((key, v)),
{
    if keys_of(pairs).contains(key) {
        let k = choose|k: int| 0 <= k < keys_of(pairs).len() && keys_of(pairs)[k] == key;
        assert(pairs[k] == (key, pairs[k].1));
        assert(pairs.contains((key, pairs[k].1)));
    }
    if exists|v: Seq<char>| pairs.contains((key, v)) {
        let v = choose|v: Seq<char>| pairs.contains((key, v));
        let j = choose|j: int| 0 <= j < pairs.len() && pairs[j] == (key, v);
        assert(keys_of(pairs)[j] == key);
    }
}

/// An object payload whose keys are exactly the signature's argument names, in whatever
/// order, is accepted, and its argument list gives, at each position, the value of the
/// argument declared there.
pub proof fn lemma_exact_keys_accepted(pairs: Seq<(Seq<char>, Seq<char>)>, names: Seq<Seq<char>>)
    requires
        keys_of(pairs).to_set() == names.to_set(),
    ensures
        object_accepted(pairs, names),
        ordered_values(pairs, names).len() == names.len(),
        forall|i: int|
            0 <= i < names.len() ==> #[trigger] ordered_values(pairs, names)[i] == value_for(
                pairs,
                names[i],
            ),
{
    let keys = keys_of(pairs);
    lemma_filter_empty(names, |n: Seq<char>| !keys.contains(n));
    lemma_filter_empty(keys, |k: Seq<char>| !names.contains(k));
    assert forall|i: int| 0 <= i < names.len() implies keys.contains(#[trigger] names[i]) by {
        assert(names.to_set().contains(names[i]));
    }
    assert forall|i: int| 0 <= i < keys.len() implies names.contains(#[trigger] keys[i]) by {
        assert(keys.to_set().contains(keys[i]));
    }
}

/// The order of an object payload's entries does not matter: two payloads with the same
/// entries, each with distinct keys, are accepted or rejected alike, lack the same names,
/// and give the same argument list.
pub proof fn lemma_key_order_irrelevant(
    first: Seq<(Seq<char>, Seq<char>)>,
    second: Seq<(Seq<char>, Seq<char>)>,
    names: Seq<Seq<char>>,
)
    requires
        keys_of(first).no_duplicates(),
        keys_of(second).no_duplicates(),
        first.to_set() == second.to_set(),
    ensures
        object_accepted(first, names) == object_accepted(second, names),
        missing_names(keys_of(first), names) == missing_names(keys_of(second), names),
        ordered_values(first, names) == ordered_values(second, names),
{
    let k1 = keys_of(first);
    let k2 = keys_of(second);
    assert forall|key: Seq<char>| k1.contains(key) <==> k2.contains(key) by {
        lemma_keys_contain(first, key);
        lemma_keys_contain(second, key);
        if k1.contains(key) {
            let v = choose|v: Seq<char>| first.contains((key, v));
            assert(first.to_set().contains((key, v)));
        }
        if k2.contains(key) {
            let v = choose|v: Seq<char>| second.contains((key, v));
            assert(second.to_set().contains((key, v)));
        }
    }
    let p1 = |n: Seq<char>| !k1.contains(n);
    let p2 = |n: Seq<char>| !k2.contains(n);
    assert(p1 =~= p2);
    lemma_filter_empty(k1, |k: Seq<char>| !names.contains(k));
    lemma_filter_empty(k2, |k: Seq<char>| !names.contains(k));
    if unknown_keys(k1, names).len() == 0 {
        assert forall|i: int| 0 <= i < k2.len() implies names.contains(#[trigger] k2[i]) by {
            assert(k2.contains(k2[i]));
            let j = choose|j: int| 0 <= j < k1.len() && k1[j] == k2[i];
        }
    }
    if unknown_keys(k2, names).len() == 0 {
        assert forall|i: int| 0 <= i < k1.len() implies names.contains(#[trigger] k1[i]) by {
            assert(k1.contains(k1[i]));
            let j = choose|j: int| 0 <= j < k2.len() && k2[j] == k1[i];
        }
    }
    assert forall|i: int| 0 <= i < names.len() implies value_for(first, #[trigger] names[i])
        == value_for(second, names[i]) by {
        let n = names[i];
        lemma_keys_contain(first, n);
        if k1.contains(n) {
            let v = choose|v: Seq<char>| first.contains((n, v));
            assert(first.to_set().contains((n, v)));
            assert(second.to_set().contains((n, v)));
            lemma_value_for_member(first, n, v);
            lemma_value_for_member(second, n, v);
        } else {
            lemma_value_for_absent(first, n);
            lemma_value_for_absent(second, n);
        }
    }
    assert(ordered_values(first, names) =~= ordered_values(second, names));
}

/// An object payload that lacks an expected name is rejected, and that name is reported
/// missing.
pub proof fn lemma_missing_name_reported(
    pairs: Seq<(Seq<char>, Seq<char>)>,
    names: Seq<Seq<char>>,
    name: Seq<char>,
)
    requires
        names.contains(name),
        !keys_of(pairs).contains(name),
    ensures
        missing_names(keys_of(pairs), names).contains(name),
        !object_accepted(pairs, names),
{
    let keys = keys_of(pairs);
    let i = choose|i: int| 0 <= i < names.len() && names[i] == name;
    names.lemma_filter_contains(|n: Seq<char>| !keys.contains(n), i);
}

/// An object payload whose keys are a strict subset of the expected names is rejected.
pub proof fn lemma_strict_subset_rejected(pairs: Seq<(Seq<char>, Seq<char>)>, names: Seq<Seq<char>>)
    requires
        keys_of(pairs).to_set().subset_of(names.to_set()),
        keys_of(pairs).to_set() != names.to_set(),
    ensures
        !object_accepted(pairs, names),
{
    let keys = keys_of(pairs);
    if forall|n: Seq<char>| names.contains(n) ==> keys.contains(n) {
        assert(keys.to_set() =~= names.to_set());
    }
    let n = choose|n: Seq<char>| names.contains(n) && !keys.contains(n);
    lemma_missing_name_reported(pairs, names, n);
}

/// An object payload with a key that the signature does not name is rejected, and that key
/// is reported unknown. A suggestion for it exists exactly when some expected name lies
/// within the suggestion distance, and then names such a name.
pub proof fn lemma_unknown_key_reported(
    pairs: Seq<(Seq<char>, Seq<char>)>,
    names: Seq<Seq<char>>,
    key: Seq<char>,
)
    requires
        keys_of(pairs).contains(key),
        !names.contains(key),
    ensures
        unknown_keys(keys_of(pairs), names).contains(key),
        !object_accepted(pairs, names),
        suggestion(key, names) is Some <==> exists|i: int|
            0 <= i < names.len() && edit_distance(key, #[trigger] names[i]) <= MAX_SUGGESTION_DISTANCE,
        suggestion(key, names) matches Some(c) ==> names.contains(c) && edit_distance(key, c)
            <= MAX_SUGGESTION_DISTANCE,
{
    let keys = keys_of(pairs);
    let i = choose|i: int| 0 <= i < keys.len() && keys[i] == key;
    keys.lemma_filter_contains(|k: Seq<char>| !names.contains(k), i);
    lemma_suggestion_exists_iff_close(key, names);
}

fn index_of_key(entries: &Vec<(String, String)>, key: &String) -> (r: Option<usize>)
    ensures
        r matches Some(j) ==> {
            &&& j < entries@.len()
            &&& entries@[j as int].0@ == key@
            &&& forall|k: int| 0 <= k < j ==> entries@[k].0@ != key@
        },
        r is None ==> !keys_of(pairs_of(entries@)).contains(key@),
{
    let mut j: usize = 0;
    while j < entries.len()
        invariant
            j <= entries@.len(),
            forall|k: int| 0 <= k < j ==> entries@[k].0@ != key@,
        decreases entries.len() - j,
    {
        if entries[j].0 == *key {
            return Some(j);
        }
        j = j + 1;
    }
    proof {
        let keys = keys_of(pairs_of(entries@));
        if keys.contains(key@) {
            let k = choose|k: int| 0 <= k < keys.len() && keys[k] == key@;
            assert(entries@[k].0@ == key@);
        }
    }
    None
}

pub(crate) fn names_contain(names: &Vec<String>, key: &String) -> (r: bool)
    ensures
        r == views_of(names@).contains(key@),
{
    let mut j: usize = 0;
    while j < names.len()
        invariant
            j <= names@.len(),
            forall|k: int| 0 <= k < j ==> names@[k]@ != key@,
        decreases names.len() - j,
    {
        if names[j] == *key {
            assert(views_of(names@)[j as int] == key@);
            return true;
        }
        j = j + 1;
    }
    false
}

pub(crate) fn clone_all(v: &Vec<String>) -> (r: Vec<String>)
    ensures
        r@ == v@,
{
    let mut r: Vec<String> = Vec::new();
    let mut i: usize = 0;
    while i < v.len()
        invariant
            i <= v@.len(),
            r@ == v@.subrange(0, i as int),
        decreases v.len() - i,
    {
        r.push(v[i].clone());
        i = i + 1;
    }
    assert(r@ =~= v@);
    r
}

/// Normalizes a named-form payload: reports the fields that do not match the signature,
/// or lists the values in the signature's argument order.
pub fn normalize_object(entries: &Vec<(String, String)>, signature: &MethodSignature) -> (r: Result<
    Vec<String>,
    NormalizationError,
>)
    ensures
        ({
            let pairs = pairs_of(entries@);
            let names = signature.names();
            &&& r is Ok <==> object_accepted(pairs, names)
            &&& r matches Ok(list) ==> views_of(list@) == ordered_values(pairs, names)
            &&& r matches Err(e) ==> e matches NormalizationError::FieldMismatch { missing, unknown } && {
                &&& views_of(missing@) == missing_names(keys_of(pairs), names)
                &&& tokens_of(unknown@) == unknown_keys(keys_of(pairs), names)
                &&& forall|i: int|
                    0 <= i < unknown@.len() ==> opt_view(#[trigger] unknown@[i].best_match)
                        == suggestion(unknown@[i].token@, names)
            }
        }),
{
    let ghost pairs = pairs_of(entries@);
    let ghost keys = keys_of(pairs);
    let ghost names = signature.names();
    let expected = signature.argument_names();
    assert(views_of(expected@) =~= names);
    let ghost miss_pred = |n: Seq<char>| !keys.contains(n);
    let ghost unk_pred = |k: Seq<char>| !names.contains(k);

    let mut missing: Vec<String> = Vec::new();
    let mut i: usize = 0;
    while i < expected.len()
        invariant
            views_of(expected@) == names,
            keys == keys_of(pairs_of(entries@)),
            miss_pred == (|n: Seq<char>| !keys.contains(n)),
            i <= expected@.len(),
            views_of(missing@) == names.subrange(0, i as int).filter(miss_pred),
        decreases expected.len() - i,
    {
        proof {
            lemma_filter_step(names, i as int, miss_pred);
        }
        let found = index_of_key(entries, &expected[i]);
        if found.is_none() {
            missing.push(expected[i].clone());
            assert(views_of(missing@) =~= names.subrange(0, i as int).filter(miss_pred).push(names[i as int]));
        } else {
            assert(keys[found.unwrap() as int] == names[i as int]);
        }
        i = i + 1;
    }
    assert(names.subrange(0, names.len() as int) =~= names);

    let mut unknown: Vec<Suggestion> = Vec::new();
    let mut j: usize = 0;
    while j < entries.len()
        invariant
            views_of(expected@) == names,
            pairs == pairs_of(entries@),
            keys == keys_of(pairs),
            unk_pred == (|k: Seq<char>| !names.contains(k)),
            j <= entries@.len(),
            tokens_of(unknown@) == keys.subrange(0, j as int).filter(unk_pred),
            forall|k: int|
                0 <= k < unknown@.len() ==> opt_view(#[trigger] unknown@[k].best_match) == suggestion(
                    unknown@[k].token@,
                    names,
                ),
        decreases entries.len() - j,
    {
        proof {
            lemma_filter_step(keys, j as int, unk_pred);
        }
        let key = &entries[j].0;
        if !names_contain(&expected, key) {
            let best = best_suggestion(key.as_str(), expected.as_slice());
            unknown.push(Suggestion { token: key.clone(), best_match: best });
            assert(tokens_of(unknown@) =~= keys.subrange(0, j as int).filter(unk_pred).push(keys[j as int]));
        }
        j = j + 1;
    }
    assert(keys.subrange(0, keys.len() as int) =~= keys);

    if missing.len() > 0 || unknown.len() > 0 {
        return Err(NormalizationError::FieldMismatch { missing, unknown });
    }
    proof {
        lemma_filter_empty(names, miss_pred);
    }
    let mut ordered: Vec<String> = Vec::new();
    let mut i: usize = 0;
    while i < expected.len()
        invariant
            views_of(expected@) == names,
            pairs == pairs_of(entries@),
            keys == keys_of(pairs),
            forall|k: int| 0 <= k < names.len() ==> !miss_pred(#[trigger] names[k]),
            miss_pred == (|n: Seq<char>| !keys.contains(n)),
            i <= expected@.len(),
            views_of(ordered@) == ordered_values(pairs, names).subrange(0, i as int),
        decreases expected.len() - i,
    {
        assert(!miss_pred(names[i as int]));
        let found = index_of_key(entries, &expected[i]);
        let at = found.unwrap();
        proof {
            assert forall|k: int| 0 <= k < at implies (#[trigger] pairs[k]).0 != names[i as int] by {
                assert(entries@[k].0@ != expected@[i as int]@);
            }
            assert(pairs[at as int].0 == names[i as int]);
            lemma_value_for_first(pairs, names[i as int], at as int);
            assert(ordered_values(pairs, names)[i as int] == entries@[at as int].1@);
        }
        let ghost before = ordered@;
        let v = entries[at].1.clone();
        ordered.push(v);
        assert(ordered@ == before.push(v));
        assert(views_of(ordered@) =~= views_of(before).push(v@));
        assert(ordered_values(pairs, names).subrange(0, i + 1) =~= ordered_values(pairs, names).subrange(0, i as int).push(ordered_values(pairs, names)[i as int]));
        i = i + 1;
    }
    assert(views_of(ordered@) =~= ordered_values(pairs, names));
    Ok(ordered)
}

/// Normalizes caller input against a signature. Positional input is passed through in
/// order, without checks against the signature; named input is validated and ordered by
/// the signature; anything else is rejected.
pub fn normalize(payload: &InputPayload, signature: &MethodSignature) -> (r: Result<
    Vec<String>,
    NormalizationError,
>)
    ensures
        payload matches InputPayload::Array(items) ==> r matches Ok(list) && list@ == items@,
        payload matches InputPayload::Object(entries) ==> ({
            let pairs = pairs_of(entries@);
            let names = signature.names();
            &&& r is Ok <==> object_accepted(pairs, names)
            &&& r matches Ok(list) ==> views_of(list@) == ordered_values(pairs, names)
            &&& r matches Err(e) ==> e matches NormalizationError::FieldMismatch { missing, unknown } && {
                &&& views_of(missing@) == missing_names(keys_of(pairs), names)
                &&& tokens_of(unknown@) == unknown_keys(keys_of(pairs), names)
                &&& forall|i: int|
                    0 <= i < unknown@.len() ==> opt_view(#[trigger] unknown@[i].best_match)
                        == suggestion(unknown@[i].token@, names)
            }
        }),
        payload is Invalid ==> r matches Err(NormalizationError::NotArrayOrObject),
{
    match payload {
        InputPayload::Array(items) => Ok(clone_all(items)),
        InputPayload::Object(entries) => normalize_object(entries, signature),
        InputPayload::Invalid(_) => Err(NormalizationError::NotArrayOrObject),
    }
}

} // verus!
