//! The ship components composite field: a byte-string-keyed map of
//! byte-string values, decoded and UTF-8-validated into key/value string
//! pairs, preserving the mapping's own order.  Any element that is not a
//! byte string, or not valid UTF-8, fails the whole field.
use vstd::prelude::*;

use vstd::utf8::decode_utf8;
use vstd::utf8::valid_utf8;

use crate::envelope::kv_seq_view;
use crate::envelope::KeyValuePair;
use crate::text::ascii_chars_of;
use crate::text::is_ascii_bytes;
use crate::text::lemma_ascii_bytes_decode;
use crate::text::string_from_utf8;
use crate::value::GenericValue;

verus! {

/// Whether one mapping entry is a pair of UTF-8-valid byte strings.
pub open spec fn comp_pair_ok(p: (GenericValue, GenericValue)) -> bool {
    &&& p.0 matches GenericValue::ByteString(k) && valid_utf8(k@)
    &&& p.1 matches GenericValue::ByteString(v) && valid_utf8(v@)
}

/// Whether every entry of a components mapping is a pair of UTF-8-valid
/// byte strings.
pub open spec fn components_pairs_ok(pairs: Seq<(GenericValue, GenericValue)>) -> bool {
    forall|i: int| 0 <= i < pairs.len() ==> comp_pair_ok(pairs[i])
}

/// Whether a value is a well-formed components map.
pub open spec fn components_ok(v: GenericValue) -> bool {
    v matches GenericValue::Mapping(pairs) && components_pairs_ok(pairs@)
}

/// The string pair one mapping entry decodes to.
pub open spec fn comp_pair_view(p: (GenericValue, GenericValue)) -> (Seq<char>, Seq<char>)
    recommends
        comp_pair_ok(p),
{
    (decode_utf8(p.0->ByteString_0@), decode_utf8(p.1->ByteString_0@))
}

/// The string pairs a components mapping decodes to, in mapping order.
pub open spec fn components_view(pairs: Seq<(GenericValue, GenericValue)>) -> Seq<
    (Seq<char>, Seq<char>),
> {
    pairs.map(|_i: int, p: (GenericValue, GenericValue)| comp_pair_view(p))
}

/// The error message a components value fails with.
pub open spec fn components_err(v: GenericValue) -> Seq<char> {
    if !(v is Mapping) {
        "ShipComponents value is not a map"@
    } else {
        "ShipComponents map k, v are not ascii"@
    }
}

/// A components failure message is never empty.
pub proof fn lemma_components_err_nonempty(v: GenericValue)
    ensures
        components_err(v).len() > 0,
{
    reveal_strlit("ShipComponents value is not a map");
    reveal_strlit("ShipComponents map k, v are not ascii");
}

/// Decodes a ship components value into key/value string pairs, in the
/// mapping's own order.
pub fn decode_ship_components(v: GenericValue) -> (r: Result<Vec<KeyValuePair>, String>)
    ensures
        r is Ok <==> components_ok(v),
        r matches Ok(ps) ==> (v matches GenericValue::Mapping(pairs) && kv_seq_view(ps@)
            == components_view(pairs@)),
        r matches Err(e) ==> e@ == components_err(v),
{
    match v {
        GenericValue::Mapping(pairs) => decode_component_pairs(pairs),
        _ => Err(String::from_str("ShipComponents value is not a map")),
    }
}

/// Decodes the entries of a components mapping, in order.
fn decode_component_pairs(pairs: Vec<(GenericValue, GenericValue)>) -> (r: Result<
    Vec<KeyValuePair>,
    String,
>)
    ensures
        r is Ok <==> components_pairs_ok(pairs@),
        r matches Ok(ps) ==> kv_seq_view(ps@) == components_view(pairs@),
        r matches Err(e) ==> e@ == "ShipComponents map k, v are not ascii"@,
{
    let ghost orig = pairs@;
    let mut rest = pairs;
    let mut out: Vec<KeyValuePair> = Vec::new();
    proof {
        assert(rest@ =~= orig.skip(0));
    }
    while rest.len() > 0
        invariant
            orig == pairs@,
            out@.len() + rest@.len() == orig.len(),
            rest@ =~= orig.skip(out@.len() as int),
            forall|j: int|
                0 <= j < out@.len() ==> comp_pair_ok(#[trigger] orig[j]) && out@[j]@
                    == comp_pair_view(orig[j]),
        decreases rest@.len(),
    {
        let ghost n = out@.len() as int;
        let (k, val) = rest.remove(0);
        proof {
            assert(orig.skip(n)[0] == orig[n]);
            assert(orig.skip(n).drop_first() =~= orig.skip(n + 1));
        }
        let kv = decode_component_pair(k, val);
        match kv {
            Some(kv) => {
                out.push(kv);
            },
            None => {
                proof {
                    assert(!comp_pair_ok(orig[n]));
                }
                return Err(String::from_str("ShipComponents map k, v are not ascii"));
            },
        }
    }
    proof {
        assert(orig.skip(out@.len() as int).len() == 0);
        assert(out@.len() == orig.len());
        assert(kv_seq_view(out@) =~= components_view(orig));
    }
    Ok(out)
}

/// Decodes one components mapping entry, if both halves are UTF-8-valid
/// byte strings.
fn decode_component_pair(k: GenericValue, v: GenericValue) -> (r: Option<KeyValuePair>)
    ensures
        r is Some <==> comp_pair_ok((k, v)),
        r matches Some(kv) ==> kv@ == comp_pair_view((k, v)),
{
    match (k, v) {
        (GenericValue::ByteString(kb), GenericValue::ByteString(vb)) => {
            match (string_from_utf8(kb), string_from_utf8(vb)) {
                (Some(key), Some(value)) => Some(KeyValuePair { key, value }),
                _ => None,
            }
        },
        _ => None,
    }
}

/// Whether one mapping entry is a pair of all-ASCII byte strings.
pub open spec fn comp_pair_ascii(p: (GenericValue, GenericValue)) -> bool {
    &&& p.0 matches GenericValue::ByteString(k) && is_ascii_bytes(k@)
    &&& p.1 matches GenericValue::ByteString(v) && is_ascii_bytes(v@)
}

/// An all-ASCII components mapping round-trips: decoding succeeds and
/// yields, pair for pair, exactly the characters of the original byte
/// strings.
pub proof fn lemma_ascii_components_round_trip(pairs: Seq<(GenericValue, GenericValue)>)
    requires
        forall|i: int| 0 <= i < pairs.len() ==> comp_pair_ascii(#[trigger] pairs[i]),
    ensures
        components_pairs_ok(pairs),
        components_view(pairs) == pairs.map(
            |_i: int, p: (GenericValue, GenericValue)|
                (ascii_chars_of(p.0->ByteString_0@), ascii_chars_of(p.1->ByteString_0@)),
        ),
{
    assert forall|i: int| 0 <= i < pairs.len() implies comp_pair_ok(#[trigger] pairs[i]) by {
        lemma_ascii_bytes_decode(pairs[i].0->ByteString_0@);
        lemma_ascii_bytes_decode(pairs[i].1->ByteString_0@);
    }
    assert forall|i: int| 0 <= i < pairs.len() implies comp_pair_view(#[trigger] pairs[i]) == (
        ascii_chars_of(pairs[i].0->ByteString_0@),
        ascii_chars_of(pairs[i].1->ByteString_0@),
    ) by {
        lemma_ascii_bytes_decode(pairs[i].0->ByteString_0@);
        lemma_ascii_bytes_decode(pairs[i].1->ByteString_0@);
    }
    assert(components_view(pairs) =~= pairs.map(
        |_i: int, p: (GenericValue, GenericValue)|
            (ascii_chars_of(p.0->ByteString_0@), ascii_chars_of(p.1->ByteString_0@)),
    ));
}

/// A mapping with one entry that is not a UTF-8-valid byte-string pair
/// fails the whole components field.
pub proof fn lemma_bad_component_fails(pairs: Seq<(GenericValue, GenericValue)>, i: int)
    requires
        0 <= i < pairs.len(),
        !comp_pair_ok(pairs[i]),
    ensures
        !components_pairs_ok(pairs),
{
}

} // verus!
