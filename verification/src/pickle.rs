//! The trusted boundary to the generic value-tree deserializer.
//!
//! A byte buffer is decoded by `serde_pickle` into its own tagged value
//! tree, which is then converted node for node into this library's
//! [`GenericValue`].  What the decoded tree holds for given
//! bytes is named by the uninterpreted function [`decoded_pickle`]; all
//! typed extraction downstream of it is verified.
use vstd::prelude::*;

use crate::value::GenericValue;

use serde_pickle::HashableValue as PickleHashable;
use serde_pickle::HashableValue::Bool as HBool;
use serde_pickle::HashableValue::Bytes as HBytes;
use serde_pickle::HashableValue::F64 as HF64;
use serde_pickle::HashableValue::FrozenSet as HFrozenSet;
use serde_pickle::HashableValue::I64 as HI64;
use serde_pickle::HashableValue::Int as HInt;
use serde_pickle::HashableValue::None as HNone;
use serde_pickle::HashableValue::String as HString;
use serde_pickle::HashableValue::Tuple as HTuple;
use serde_pickle::Value as PickleVal;
use serde_pickle::Value::Bool as PBool;
use serde_pickle::Value::Bytes as PBytes;
use serde_pickle::Value::Dict as PDict;
use serde_pickle::Value::F64 as PF64;
use serde_pickle::Value::FrozenSet as PFrozenSet;
use serde_pickle::Value::I64 as PI64;
use serde_pickle::Value::Int as PInt;
use serde_pickle::Value::List as PList;
use serde_pickle::Value::None as PNone;
use serde_pickle::Value::Set as PSet;
use serde_pickle::Value::String as PString;
use serde_pickle::Value::Tuple as PTuple;

use crate::value::GenericValue::Boolean;
use crate::value::GenericValue::ByteString;
use crate::value::GenericValue::FixedTuple;
use crate::value::GenericValue::Float;
use crate::value::GenericValue::Integer;
use crate::value::GenericValue::Mapping;
use crate::value::GenericValue::Null;
use crate::value::GenericValue::Sequence;

verus! {

#[verifier::external_type_specification]
#[verifier::external_body]
pub struct ExPickleValue(serde_pickle::Value);

#[verifier::external_type_specification]
#[verifier::external_body]
pub struct ExPickleHashableValue(serde_pickle::HashableValue);

/// What decoding the given bytes yields: the value tree on success, the
/// deserializer's own message on failure.  Both depend on the bytes alone.
pub uninterp spec fn decoded_pickle(data: Seq<u8>) -> Result<GenericValue, Seq<char>>;

/// Relies on serde_pickle::de::value_from_slice: it decodes a byte buffer
/// into the generic value tree, deterministically in the bytes, and reports
/// malformed input as an error whose message it surfaces verbatim and
/// never empty.
#[verifier::external_body]
pub(crate) fn decode_value_tree(data: &[u8]) -> (r: Result<GenericValue, String>)
    ensures
        r is Ok <==> decoded_pickle(data@) is Ok,
        r matches Ok(v) ==> decoded_pickle(data@) is Ok && v == decoded_pickle(data@)->Ok_0,
        r matches Err(e) ==> decoded_pickle(data@) is Err && e@ == decoded_pickle(data@)->Err_0
            && e@.len() > 0,
{
    match serde_pickle::de::value_from_slice(data, serde_pickle::DeOptions::default()) {
        Ok(v) => conv_value(v),
        Err(e) => Err(e.to_string()),
    }
}

/// Relies on serde_pickle::Value: converts one of its scalar nodes into
/// the library's value tree, variant for variant; floats become their bit
/// patterns, and any other node goes to `conv_nested`.
#[verifier::external_body]
fn conv_value(v: PickleVal) -> (r: Result<GenericValue, String>) {
    match v {
        PNone => Ok(Null),
        PBool(b) => Ok(Boolean(b)),
        PI64(i) => Ok(Integer(i)),
        PF64(f) => Ok(Float(f.to_bits())),
        PBytes(b) => Ok(ByteString(b)),
        PString(s) => Ok(ByteString(s.into_bytes())),
        other => conv_nested(other),
    }
}

/// Relies on serde_pickle::Value: converts its container and big-integer
/// nodes, element for element; sets become sequences, and only an integer
/// beyond 64 bits is refused.
#[verifier::external_body]
fn conv_nested(v: PickleVal) -> (r: Result<GenericValue, String>) {
    match v {
        PInt(i) => i64::try_from(i).map(Integer).map_err(|_| "integer out of range".to_string()),
        PList(l) => Ok(Sequence(conv_values(l)?)),
        PTuple(l) => Ok(FixedTuple(conv_values(l)?)),
        PSet(s) | PFrozenSet(s) => Ok(Sequence(conv_hashables(s.into_iter().collect())?)),
        PDict(d) => Ok(Mapping(conv_dict(d.into_iter().collect())?)),
        other => conv_value(other),
    }
}

/// Relies on serde_pickle::Value: element-wise conversion of a list of its
/// nodes.
#[verifier::external_body]
fn conv_values(l: Vec<PickleVal>) -> (r: Result<Vec<GenericValue>, String>) {
    l.into_iter().map(conv_value).collect()
}

/// Relies on serde_pickle::HashableValue: converts one key node into the
/// library's value tree, variant for variant, as its `into_value` would.
#[verifier::external_body]
fn conv_hashable(v: PickleHashable) -> (r: Result<GenericValue, String>) {
    match v {
        HNone => Ok(Null),
        HBool(b) => Ok(Boolean(b)),
        HI64(i) => Ok(Integer(i)),
        HInt(i) => i64::try_from(i).map(Integer).map_err(|_| "integer out of range".to_string()),
        HF64(f) => Ok(Float(f.to_bits())),
        HBytes(b) => Ok(ByteString(b)),
        HString(s) => Ok(ByteString(s.into_bytes())),
        HTuple(l) => Ok(FixedTuple(conv_hashables(l)?)),
        HFrozenSet(s) => Ok(Sequence(conv_hashables(s.into_iter().collect())?)),
    }
}

/// Relies on serde_pickle::HashableValue: element-wise conversion of a list
/// of key nodes.
#[verifier::external_body]
fn conv_hashables(l: Vec<PickleHashable>) -> (r: Result<Vec<GenericValue>, String>) {
    l.into_iter().map(conv_hashable).collect()
}

/// Relies on serde_pickle::Value: pair-wise conversion of a dictionary's
/// entries, in the dictionary's own order.
#[verifier::external_body]
fn conv_dict(d: Vec<(PickleHashable, PickleVal)>) -> (r: Result<Vec<(GenericValue, GenericValue)>, String>) {
    d.into_iter().map(|(k, v)| Ok((conv_hashable(k)?, conv_value(v)?))).collect()
}

} // verus!
