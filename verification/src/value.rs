//! The generic value tree that a decoded byte blob is turned into before
//! typed extraction.  It mirrors the self-describing serialized form: a
//! tagged union over integers, floats, booleans, byte strings, ordered
//! sequences, fixed tuples and key/value mappings, plus an explicit null.
//!
//! Floating-point payloads are carried as their raw IEEE-754 bit patterns,
//! so that every variant holds plain data that contracts can speak about.
use vstd::prelude::*;

verus! {

/// One node of the generic value tree.
pub enum GenericValue {
    /// The serialized form's null value.
    Null,
    /// A 64-bit signed integer.
    Integer(i64),
    /// A 64-bit float, carried as its IEEE-754 bit pattern.
    Float(u64),
    /// A boolean.
    Boolean(bool),
    /// A byte string; not assumed to be UTF-8.
    ByteString(Vec<u8>),
    /// An ordered list of values.
    Sequence(Vec<GenericValue>),
    /// A fixed-length ordered group of values.
    FixedTuple(Vec<GenericValue>),
    /// An ordered list of key/value pairs; keys are arbitrary values.
    Mapping(Vec<(GenericValue, GenericValue)>),
}

impl GenericValue {
    /// Whether this node is an ordered collection: the wire format writes
    /// record batches and instances as sequences or fixed tuples
    /// interchangeably.
    pub open spec fn is_listlike(self) -> bool {
        self is Sequence || self is FixedTuple
    }

    /// The elements of a list-like node.
    pub open spec fn elems(self) -> Seq<GenericValue>
        recommends
            self.is_listlike(),
    {
        if self is Sequence {
            self->Sequence_0@
        } else {
            self->FixedTuple_0@
        }
    }
}

} // verus!
