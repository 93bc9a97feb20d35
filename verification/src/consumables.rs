//! Active consumable decoding.
//!
//! A consumable entry is a two-element tuple: an integer id and a
//! four-element tuple (integer, integer, boolean, float).  The list of
//! entries is wrapped in two historically different outer shapes: older
//! clients write the list directly; clients at or above 13.2.0 wrap it in a
//! dictionary under the fixed key `consumablesDict`.  Any shape mismatch
//! fails the whole decode with a message naming the violated expectation.
use vstd::prelude::*;

use vstd::utf8::decode_utf8;
use vstd::utf8::valid_utf8;

use crate::envelope::ErrorType;
use crate::envelope::SetConsumable;
use crate::envelope::SetConsumablesResult;
use crate::pickle::decode_value_tree;
use crate::pickle::decoded_pickle;
use crate::text::string_from_utf8;
use crate::value::GenericValue;
use crate::version::create_version;
use crate::version::packed_version;

verus! {

/// Whether a node is a well-formed consumable value tuple: exactly four
/// elements, (integer, integer, boolean, float).
pub open spec fn entry_inner_ok(w: GenericValue) -> bool {
    &&& w matches GenericValue::FixedTuple(u)
    &&& u@.len() == 4
    &&& u@[0] is Integer
    &&& u@[1] is Integer
    &&& u@[2] is Boolean
    &&& u@[3] is Float
}

/// Whether a node is one well-formed consumable entry: exactly two
/// elements, an integer id and the value tuple.
pub open spec fn entry_ok(v: GenericValue) -> bool {
    &&& v matches GenericValue::FixedTuple(o)
    &&& o@.len() == 2
    &&& o@[0] is Integer
    &&& entry_inner_ok(o@[1])
}

/// The record a well-formed consumable entry decodes to.
pub open spec fn entry_of(v: GenericValue) -> SetConsumable
    recommends
        entry_ok(v),
{
    SetConsumable {
        id: v->FixedTuple_0@[0]->Integer_0,
        u1: v->FixedTuple_0@[1]->FixedTuple_0@[0]->Integer_0,
        count: v->FixedTuple_0@[1]->FixedTuple_0@[1]->Integer_0,
        u2: v->FixedTuple_0@[1]->FixedTuple_0@[2]->Boolean_0,
        u3_bits: v->FixedTuple_0@[1]->FixedTuple_0@[3]->Float_0,
    }
}

/// The message a malformed consumable entry fails with: the first
/// structural expectation it violates, checked outer shape first.
pub open spec fn entry_err(v: GenericValue) -> Seq<char> {
    if !(v is FixedTuple) {
        "consumable value is not a tuple"@
    } else if v->FixedTuple_0@.len() != 2 {
        "consumable tuple has length != 2 (id, value_tuple)"@
    } else if !(v->FixedTuple_0@[0] is Integer) {
        "consumable id is not an integer"@
    } else if !(v->FixedTuple_0@[1] is FixedTuple) {
        "consumable value is not a tuple"@
    } else if v->FixedTuple_0@[1]->FixedTuple_0@.len() != 4 {
        "consumable tuple has length != 4 (id, value_tuple)"@
    } else if !(v->FixedTuple_0@[1]->FixedTuple_0@[0] is Integer) {
        "consumable field is not an integer"@
    } else if !(v->FixedTuple_0@[1]->FixedTuple_0@[1] is Integer) {
        "consumable field is not an integer"@
    } else if !(v->FixedTuple_0@[1]->FixedTuple_0@[2] is Boolean) {
        "consumable field is not a boolean"@
    } else {
        "consumable field is not a float"@
    }
}

/// Whether every entry of a consumable list is well-formed.
pub open spec fn entries_ok(s: Seq<GenericValue>) -> bool {
    forall|i: int| 0 <= i < s.len() ==> entry_ok(#[trigger] s[i])
}

/// The records a well-formed consumable list decodes to, in order.
pub open spec fn entries_of(s: Seq<GenericValue>) -> Seq<SetConsumable> {
    s.map(|_i: int, e: GenericValue| entry_of(e))
}

/// The message the first malformed entry of a consumable list fails with.
pub open spec fn entries_err(s: Seq<GenericValue>) -> Seq<char>
    decreases s.len(),
{
    if s.len() == 0 {
        Seq::empty()
    } else if !entry_ok(s[0]) {
        entry_err(s[0])
    } else {
        entries_err(s.drop_first())
    }
}

/// The outcome owed for a bare consumable list value: the decoded records,
/// or the first violated expectation's message.
pub open spec fn consumables_list_outcome(v: GenericValue) -> Result<Seq<SetConsumable>, Seq<char>> {
    match v {
        GenericValue::Sequence(l) => if entries_ok(l@) {
            Result::Ok(entries_of(l@))
        } else {
            Result::Err(entries_err(l@))
        },
        _ => Result::Err("value is not a list"@),
    }
}

/// Whether a dictionary key is text: a UTF-8-valid byte string.
pub open spec fn key_text_ok(k: GenericValue) -> bool {
    k matches GenericValue::ByteString(b) && valid_utf8(b@)
}

/// Whether every key of a dictionary is text.
pub open spec fn dict_keys_ok(pairs: Seq<(GenericValue, GenericValue)>) -> bool {
    forall|i: int| 0 <= i < pairs.len() ==> key_text_ok(#[trigger] pairs[i].0)
}

/// Whether a dictionary key is the fixed key `consumablesDict`.
pub open spec fn is_consumables_key(k: GenericValue) -> bool {
    key_text_ok(k) && decode_utf8(k->ByteString_0@) == "consumablesDict"@
}

/// The value of the last entry under the key `consumablesDict`, if any.
pub open spec fn dict_lookup(pairs: Seq<(GenericValue, GenericValue)>) -> Option<GenericValue>
    decreases pairs.len(),
{
    if pairs.len() == 0 {
        Option::None
    } else if is_consumables_key(pairs.last().0) {
        Option::Some(pairs.last().1)
    } else {
        dict_lookup(pairs.drop_last())
    }
}

/// The outcome owed for a dictionary-wrapped consumable value.
pub open spec fn consumables_dict_outcome(v: GenericValue) -> Result<Seq<SetConsumable>, Seq<char>> {
    match v {
        GenericValue::Mapping(pairs) => if !dict_keys_ok(pairs@) {
            Result::Err("consumables dict key is not a string"@)
        } else {
            match dict_lookup(pairs@) {
                Option::Some(inner) => consumables_list_outcome(inner),
                Option::None => Result::Err("no such key 'consumablesDict'"@),
            }
        },
        _ => Result::Err("value is not a dict"@),
    }
}

/// The outcome consumable decoding owes for a decoded value tree: clients
/// at or above 13.2.0 wrap the list in a dictionary, older clients write
/// it directly.
pub open spec fn consumables_outcome(version: u32, v: GenericValue) -> Result<
    Seq<SetConsumable>,
    Seq<char>,
> {
    if version >= packed_version(13, 2, 0, 0) {
        consumables_dict_outcome(v)
    } else {
        consumables_list_outcome(v)
    }
}

/// Decodes one consumable entry, checking each structural expectation in
/// order.
fn decode_entry(v: GenericValue) -> (r: Result<SetConsumable, String>)
    ensures
        r is Ok <==> entry_ok(v),
        r matches Ok(c) ==> c == entry_of(v),
        r matches Err(e) ==> e@ == entry_err(v),
{
    let o = match v {
        GenericValue::FixedTuple(o) => o,
        _ => { return Err(String::from_str("consumable value is not a tuple")) },
    };
    if o.len() != 2 {
        return Err(String::from_str("consumable tuple has length != 2 (id, value_tuple)"));
    }
    let mut o = o;
    let second = o.pop().unwrap();
    let first = o.pop().unwrap();
    let id = match first {
        GenericValue::Integer(i) => i,
        _ => { return Err(String::from_str("consumable id is not an integer")) },
    };
    let u = match second {
        GenericValue::FixedTuple(u) => u,
        _ => { return Err(String::from_str("consumable value is not a tuple")) },
    };
    if u.len() != 4 {
        return Err(String::from_str("consumable tuple has length != 4 (id, value_tuple)"));
    }
    let mut u = u;
    let e3 = u.pop().unwrap();
    let e2 = u.pop().unwrap();
    let e1 = u.pop().unwrap();
    let e0 = u.pop().unwrap();
    let u1 = match e0 {
        GenericValue::Integer(i) => i,
        _ => { return Err(String::from_str("consumable field is not an integer")) },
    };
    let count = match e1 {
        GenericValue::Integer(i) => i,
        _ => { return Err(String::from_str("consumable field is not an integer")) },
    };
    let u2 = match e2 {
        GenericValue::Boolean(b) => b,
        _ => { return Err(String::from_str("consumable field is not a boolean")) },
    };
    let u3_bits = match e3 {
        GenericValue::Float(f) => f,
        _ => { return Err(String::from_str("consumable field is not a float")) },
    };
    Ok(SetConsumable { id, u1, count, u2, u3_bits })
}

/// A malformed consumable entry's message is never empty.
proof fn lemma_entry_err_nonempty(v: GenericValue)
    ensures
        entry_err(v).len() > 0,
{
    reveal_strlit("consumable value is not a tuple");
    reveal_strlit("consumable tuple has length != 2 (id, value_tuple)");
    reveal_strlit("consumable id is not an integer");
    reveal_strlit("consumable tuple has length != 4 (id, value_tuple)");
    reveal_strlit("consumable field is not an integer");
    reveal_strlit("consumable field is not a boolean");
    reveal_strlit("consumable field is not a float");
}

/// When a prefix of a consumable list passes and the next entry fails, the
/// whole list reports that entry's message.
proof fn lemma_entries_err_at(s: Seq<GenericValue>, i: int)
    requires
        0 <= i < s.len(),
        forall|j: int| 0 <= j < i ==> entry_ok(#[trigger] s[j]),
        !entry_ok(s[i]),
    ensures
        entries_err(s) == entry_err(s[i]),
    decreases i,
{
    if i > 0 {
        lemma_entries_err_at(s.drop_first(), i - 1);
    }
}

/// Decodes a consumable list's entries, stopping at the first malformed
/// one.
fn decode_entries(l: Vec<GenericValue>) -> (r: Result<Vec<SetConsumable>, String>)
    ensures
        r is Ok <==> entries_ok(l@),
        r matches Ok(cs) ==> cs@ == entries_of(l@),
        r matches Err(e) ==> e@ == entries_err(l@) && e@.len() > 0,
{
    let ghost orig = l@;
    let mut rest = l;
    let mut out: Vec<SetConsumable> = Vec::new();
    proof {
        assert(rest@ =~= orig.skip(0));
    }
    while rest.len() > 0
        invariant
            orig == l@,
            out@.len() + rest@.len() == orig.len(),
            rest@ =~= orig.skip(out@.len() as int),
            forall|j: int|
                0 <= j < out@.len() ==> entry_ok(#[trigger] orig[j]) && out@[j] == entry_of(
                    orig[j],
                ),
        decreases rest@.len(),
    {
        let ghost n = out@.len() as int;
        let e = rest.remove(0);
        proof {
            assert(orig.skip(n)[0] == orig[n]);
            assert(orig.skip(n).drop_first() =~= orig.skip(n + 1));
        }
        match decode_entry(e) {
            Ok(c) => {
                out.push(c);
            },
            Err(err) => {
                proof {
                    lemma_entries_err_at(orig, n);
                    lemma_entry_err_nonempty(orig[n]);
                }
                return Err(err);
            },
        }
    }
    proof {
        assert(orig.skip(out@.len() as int).len() == 0);
        assert(out@ =~= entries_of(orig));
    }
    Ok(out)
}

/// Decodes a bare consumable list value into its envelope: exactly the
/// records the list owes, or the first violated expectation's message.
pub fn parse_set_consumables_tuple(value: GenericValue) -> (r: SetConsumablesResult)
    ensures
        match consumables_list_outcome(value) {
            Result::Ok(cs) => !r.is_error && r.value@ == cs && r.error@.len() == 0,
            Result::Err(m) => r.is_error && r.error@ == m && r.value@.len() == 0,
        },
        r.is_error ==> r.error@.len() > 0,
{
    proof {
        reveal_strlit("value is not a list");
    }
    match value {
        GenericValue::Sequence(l) => {
            match decode_entries(l) {
                Ok(cs) => SetConsumablesResult::new_result(cs),
                Err(e) => SetConsumablesResult::new_error_from_str(e),
            }
        },
        _ => SetConsumablesResult::new_error_from_str(String::from_str("value is not a list")),
    }
}

/// Coerces a dictionary key to its text, if it is a UTF-8-valid byte
/// string.
fn key_to_string(k: GenericValue) -> (r: Option<String>)
    ensures
        r is Some <==> key_text_ok(k),
        r matches Some(s) ==> s@ == decode_utf8(k->ByteString_0@),
{
    match k {
        GenericValue::ByteString(b) => string_from_utf8(b),
        _ => Option::None,
    }
}

/// Looks the fixed key `consumablesDict` up in a dictionary's entries
/// (last entry wins) and decodes its value as the consumable list.
fn consumables_from_dict_pairs(pairs: Vec<(GenericValue, GenericValue)>) -> (r:
    SetConsumablesResult)
    ensures
        !dict_keys_ok(pairs@) ==> r.is_error && r.error@ == "consumables dict key is not a string"@
            && r.value@.len() == 0,
        dict_keys_ok(pairs@) ==> match dict_lookup(pairs@) {
            Option::Some(inner) => match consumables_list_outcome(inner) {
                Result::Ok(cs) => !r.is_error && r.value@ == cs && r.error@.len() == 0,
                Result::Err(m) => r.is_error && r.error@ == m && r.value@.len() == 0,
            },
            Option::None => r.is_error && r.error@ == "no such key 'consumablesDict'"@
                && r.value@.len() == 0,
        },
        r.is_error ==> r.error@.len() > 0,
{
    let expected = String::from_str("consumablesDict");
    let ghost orig = pairs@;
    let mut rest = pairs;
    let mut found: Option<GenericValue> = Option::None;
    let ghost mut k: int = 0;
    proof {
        assert(rest@ =~= orig.skip(0));
        assert(orig.take(0) =~= Seq::<(GenericValue, GenericValue)>::empty());
    }
    while rest.len() > 0
        invariant
            orig == pairs@,
            expected@ == "consumablesDict"@,
            0 <= k <= orig.len(),
            rest@ =~= orig.skip(k),
            forall|j: int| 0 <= j < k ==> key_text_ok(#[trigger] orig[j].0),
            found == dict_lookup(orig.take(k)),
        decreases rest@.len(),
    {
        let (key, val) = rest.remove(0);
        proof {
            assert(orig.skip(k)[0] == orig[k]);
            assert(orig.skip(k).drop_first() =~= orig.skip(k + 1));
            assert(orig.take(k + 1).drop_last() =~= orig.take(k));
            assert(orig.take(k + 1).last() == orig[k]);
        }
        match key_to_string(key) {
            Option::Some(key_s) => {
                if key_s == expected {
                    found = Option::Some(val);
                }
            },
            Option::None => {
                proof {
                    assert(!key_text_ok(orig[k].0));
                    reveal_strlit("consumables dict key is not a string");
                }
                return SetConsumablesResult::new_error_from_str(
                    String::from_str("consumables dict key is not a string"),
                );
            },
        }
        proof {
            k = k + 1;
        }
    }
    proof {
        assert(orig.skip(k).len() == 0);
        assert(orig.take(k) =~= orig);
    }
    match found {
        Option::Some(inner) => parse_set_consumables_tuple(inner),
        Option::None => {
            proof {
                reveal_strlit("no such key 'consumablesDict'");
            }
            SetConsumablesResult::new_error_from_str(
                String::from_str("no such key 'consumablesDict'"),
            )
        },
    }
}

/// Decodes the active consumables of a byte buffer: the producing client's
/// packed version picks between the dictionary-wrapped and the bare outer
/// shape.
pub fn parse_set_consumables(data: &[u8], version: u32) -> (r: SetConsumablesResult)
    ensures
        decoded_pickle(data@) matches Err(m) ==> (r.is_error && r.error@ == m && r.value@.len()
            == 0),
        decoded_pickle(data@) matches Ok(v) ==> (match consumables_outcome(version, v) {
            Result::Ok(cs) => !r.is_error && r.value@ == cs && r.error@.len() == 0,
            Result::Err(m) => r.is_error && r.error@ == m && r.value@.len() == 0,
        }),
        r.is_error ==> r.error@.len() > 0,
{
    proof {
        reveal_strlit("value is not a dict");
    }
    match decode_value_tree(data) {
        Err(e) => SetConsumablesResult::new_error(e),
        Ok(v) => {
            if version >= create_version(13, 2, 0, 0) {
                match v {
                    GenericValue::Mapping(pairs) => consumables_from_dict_pairs(pairs),
                    _ => SetConsumablesResult::new_error_from_str(
                        String::from_str("value is not a dict"),
                    ),
                }
            } else {
                parse_set_consumables_tuple(v)
            }
        },
    }
}

} // verus!
