//! Damage statistics decoding: a flat dictionary whose keys are
//! (damage type, damage flag) integer pairs and whose values are
//! (hit count, damage amount) pairs; one record per entry, in the
//! dictionary's own order.
use vstd::prelude::*;

use crate::envelope::ErrorType;
use crate::envelope::ReceiveDamageStat;
use crate::envelope::ReceiveDamageStatResult;
use crate::pickle::decode_value_tree;
use crate::pickle::decoded_pickle;
use crate::value::GenericValue;

verus! {

/// Whether a dictionary key is a (damage type, damage flag) integer pair.
pub open spec fn damage_key_ok(k: GenericValue) -> bool {
    &&& k matches GenericValue::FixedTuple(a)
    &&& a@.len() == 2
    &&& a@[0] is Integer
    &&& a@[1] is Integer
}

/// Whether a dictionary value is a (hit count, damage amount) pair.
pub open spec fn damage_val_ok(v: GenericValue) -> bool {
    &&& v matches GenericValue::FixedTuple(b)
    &&& b@.len() == 2
    &&& b@[0] is Integer
    &&& b@[1] is Float
}

/// Whether one dictionary entry is a well-formed damage statistic.
pub open spec fn damage_entry_ok(p: (GenericValue, GenericValue)) -> bool {
    damage_key_ok(p.0) && damage_val_ok(p.1)
}

/// The record a well-formed damage entry decodes to.
pub open spec fn damage_entry_of(p: (GenericValue, GenericValue)) -> ReceiveDamageStat
    recommends
        damage_entry_ok(p),
{
    ReceiveDamageStat {
        damage_type: p.0->FixedTuple_0@[0]->Integer_0,
        damage_flag: p.0->FixedTuple_0@[1]->Integer_0,
        hits: p.1->FixedTuple_0@[0]->Integer_0,
        damage_bits: p.1->FixedTuple_0@[1]->Float_0,
    }
}

/// The message a malformed damage entry fails with, key checked first.
pub open spec fn damage_entry_err(p: (GenericValue, GenericValue)) -> Seq<char> {
    if !damage_key_ok(p.0) {
        "damage stat key is not a pair of integers"@
    } else {
        "damage stat value is not a pair of hits and damage"@
    }
}

/// Whether every entry of a damage dictionary is well-formed.
pub open spec fn damage_entries_ok(pairs: Seq<(GenericValue, GenericValue)>) -> bool {
    forall|i: int| 0 <= i < pairs.len() ==> damage_entry_ok(#[trigger] pairs[i])
}

/// The records a well-formed damage dictionary decodes to, in order.
pub open spec fn damage_entries_of(pairs: Seq<(GenericValue, GenericValue)>) -> Seq<
    ReceiveDamageStat,
> {
    pairs.map(|_i: int, p: (GenericValue, GenericValue)| damage_entry_of(p))
}

/// The message the first malformed entry of a damage dictionary fails
/// with.
pub open spec fn damage_entries_err(pairs: Seq<(GenericValue, GenericValue)>) -> Seq<char>
    decreases pairs.len(),
{
    if pairs.len() == 0 {
        Seq::empty()
    } else if !damage_entry_ok(pairs[0]) {
        damage_entry_err(pairs[0])
    } else {
        damage_entries_err(pairs.drop_first())
    }
}

/// The outcome damage decoding owes for a decoded value tree: one record
/// per dictionary entry, or the first violated expectation's message.
pub open spec fn damage_outcome(v: GenericValue) -> Result<Seq<ReceiveDamageStat>, Seq<char>> {
    match v {
        GenericValue::Mapping(pairs) => if damage_entries_ok(pairs@) {
            Result::Ok(damage_entries_of(pairs@))
        } else {
            Result::Err(damage_entries_err(pairs@))
        },
        _ => Result::Err("value is not a dict"@),
    }
}

/// Decodes one damage dictionary entry.
fn decode_damage_entry(k: GenericValue, v: GenericValue) -> (r: Result<ReceiveDamageStat, String>)
    ensures
        r is Ok <==> damage_entry_ok((k, v)),
        r matches Ok(d) ==> d == damage_entry_of((k, v)),
        r matches Err(e) ==> e@ == damage_entry_err((k, v)),
{
    let a = match k {
        GenericValue::FixedTuple(a) => a,
        _ => { return Err(String::from_str("damage stat key is not a pair of integers")) },
    };
    if a.len() != 2 {
        return Err(String::from_str("damage stat key is not a pair of integers"));
    }
    let mut a = a;
    let a1 = a.pop().unwrap();
    let a0 = a.pop().unwrap();
    let (damage_type, damage_flag) = match (a0, a1) {
        (GenericValue::Integer(x), GenericValue::Integer(y)) => (x, y),
        _ => { return Err(String::from_str("damage stat key is not a pair of integers")) },
    };
    let b = match v {
        GenericValue::FixedTuple(b) => b,
        _ => {
            return Err(String::from_str("damage stat value is not a pair of hits and damage"))
        },
    };
    if b.len() != 2 {
        return Err(String::from_str("damage stat value is not a pair of hits and damage"));
    }
    let mut b = b;
    let b1 = b.pop().unwrap();
    let b0 = b.pop().unwrap();
    let (hits, damage_bits) = match (b0, b1) {
        (GenericValue::Integer(x), GenericValue::Float(y)) => (x, y),
        _ => {
            return Err(String::from_str("damage stat value is not a pair of hits and damage"))
        },
    };
    Ok(ReceiveDamageStat { damage_type, damage_flag, hits, damage_bits })
}

/// A malformed damage entry's message is never empty.
proof fn lemma_damage_entry_err_nonempty(p: (GenericValue, GenericValue))
    ensures
        damage_entry_err(p).len() > 0,
{
    reveal_strlit("damage stat key is not a pair of integers");
    reveal_strlit("damage stat value is not a pair of hits and damage");
}

/// When a prefix of a damage dictionary passes and the next entry fails,
/// the whole dictionary reports that entry's message.
proof fn lemma_damage_entries_err_at(pairs: Seq<(GenericValue, GenericValue)>, i: int)
    requires
        0 <= i < pairs.len(),
        forall|j: int| 0 <= j < i ==> damage_entry_ok(#[trigger] pairs[j]),
        !damage_entry_ok(pairs[i]),
    ensures
        damage_entries_err(pairs) == damage_entry_err(pairs[i]),
    decreases i,
{
    if i > 0 {
        lemma_damage_entries_err_at(pairs.drop_first(), i - 1);
    }
}

/// Decodes a damage dictionary's entries, stopping at the first malformed
/// one.
fn decode_damage_entries(pairs: Vec<(GenericValue, GenericValue)>) -> (r: Result<
    Vec<ReceiveDamageStat>,
    String,
>)
    ensures
        r is Ok <==> damage_entries_ok(pairs@),
        r matches Ok(ds) ==> ds@ == damage_entries_of(pairs@),
        r matches Err(e) ==> e@ == damage_entries_err(pairs@) && e@.len() > 0,
{
    let ghost orig = pairs@;
    let mut rest = pairs;
    let mut out: Vec<ReceiveDamageStat> = Vec::new();
    proof {
        assert(rest@ =~= orig.skip(0));
    }
    while rest.len() > 0
        invariant
            orig == pairs@,
            out@.len() + rest@.len() == orig.len(),
            rest@ =~= orig.skip(out@.len() as int),
            forall|j: int|
                0 <= j < out@.len() ==> damage_entry_ok(#[trigger] orig[j]) && out@[j]
                    == damage_entry_of(orig[j]),
        decreases rest@.len(),
    {
        let ghost n = out@.len() as int;
        let (k, v) = rest.remove(0);
        proof {
            assert(orig.skip(n)[0] == orig[n]);
            assert(orig.skip(n).drop_first() =~= orig.skip(n + 1));
        }
        match decode_damage_entry(k, v) {
            Ok(d) => {
                out.push(d);
            },
            Err(err) => {
                proof {
                    lemma_damage_entries_err_at(orig, n);
                    lemma_damage_entry_err_nonempty(orig[n]);
                }
                return Err(err);
            },
        }
    }
    proof {
        assert(orig.skip(out@.len() as int).len() == 0);
        assert(out@ =~= damage_entries_of(orig));
    }
    Ok(out)
}

/// Decodes the damage statistics of a byte buffer: one record per entry of
/// the decoded dictionary.
pub fn parse_receive_damage_stat(data: &[u8]) -> (r: ReceiveDamageStatResult)
    ensures
        decoded_pickle(data@) matches Err(m) ==> (r.is_error && r.error@ == m && r.value@.len()
            == 0),
        decoded_pickle(data@) matches Ok(v) ==> (match damage_outcome(v) {
            Result::Ok(ds) => !r.is_error && r.value@ == ds && r.error@.len() == 0,
            Result::Err(m) => r.is_error && r.error@ == m && r.value@.len() == 0,
        }),
        r.is_error ==> r.error@.len() > 0,
{
    proof {
        reveal_strlit("value is not a dict");
    }
    match decode_value_tree(data) {
        Err(e) => ReceiveDamageStatResult::new_error(e),
        Ok(v) => {
            match v {
                GenericValue::Mapping(pairs) => {
                    match decode_damage_entries(pairs) {
                        Ok(ds) => ReceiveDamageStatResult::new_result(ds),
                        Err(e) => ReceiveDamageStatResult::new_error_from_str(e),
                    }
                },
                _ => ReceiveDamageStatResult::new_error_from_str(
                    String::from_str("value is not a dict"),
                ),
            }
        },
    }
}

} // verus!
