//! The generic record extractor.
//!
//! A record instance is an ordered list of (field index, value) pairs.  For
//! each pair the schema table is consulted: an index the table does not
//! know is silently skipped (forward compatibility for yet-undiscovered
//! fields); a known index's value is coerced to the field's expected
//! semantic type, and a coercion failure aborts the whole instance with the
//! first failing pair's message.  Fields absent from the instance keep the
//! output record's defaults; an index repeated within one instance is
//! last-write-wins, an upstream behaviour that is preserved here but not
//! otherwise specified.
use vstd::prelude::*;

use vstd::utf8::decode_utf8;
use vstd::utf8::valid_utf8;

use crate::components::components_err;
use crate::components::components_ok;
use crate::components::components_view;
use crate::components::decode_ship_components;
use crate::envelope::OnArenaStateReceivedPlayer;
use crate::envelope::PlayerV;
use crate::schema::lookup_tag;
use crate::schema::table_lookup;
use crate::schema::FieldTag;
use crate::schema::SchemaTable;
use crate::text::string_from_utf8;
use crate::value::GenericValue;

verus! {

/// Tags whose field is a 64-bit integer.
pub open spec fn tag_expects_int(tag: FieldTag) -> bool {
    ||| tag is EntityId
    ||| tag is Id
    ||| tag is ShipId
    ||| tag is SkinId
    ||| tag is TeamId
    ||| tag is ShipParamsId
    ||| tag is MaxHealth
    ||| tag is ClanColor
}

/// Tags whose field is text, carried as a UTF-8 byte string.
pub open spec fn tag_expects_text(tag: FieldTag) -> bool {
    tag is Name || tag is ClanTag
}

/// Tags whose field is a boolean.
pub open spec fn tag_expects_bool(tag: FieldTag) -> bool {
    tag is IsBot
}

/// Whether a value coerces to the semantic type a tag expects.
pub open spec fn coerce_ok(tag: FieldTag, v: GenericValue) -> bool {
    if tag_expects_int(tag) {
        v is Integer
    } else if tag_expects_text(tag) {
        v matches GenericValue::ByteString(b) && valid_utf8(b@)
    } else if tag_expects_bool(tag) {
        v is Boolean
    } else {
        components_ok(v)
    }
}

/// The message a failed coercion reports.
pub open spec fn coerce_err(tag: FieldTag, v: GenericValue) -> Seq<char> {
    if tag_expects_int(tag) {
        "field value is not an integer"@
    } else if tag_expects_text(tag) {
        if !(v is ByteString) {
            "field value is not a byte string"@
        } else {
            "field value is not valid utf-8"@
        }
    } else if tag_expects_bool(tag) {
        "field value is not a boolean"@
    } else {
        components_err(v)
    }
}

/// Whether one (index, value) pair passes extraction: its index is unknown
/// to the table, or its value coerces to the expected type.
pub open spec fn pair_ok(t: Seq<(i64, FieldTag)>, p: (i64, GenericValue)) -> bool {
    match table_lookup(t, p.0) {
        Option::None => true,
        Option::Some(tag) => coerce_ok(tag, p.1),
    }
}

/// Whether a whole instance passes extraction.
pub open spec fn inst_ok(t: Seq<(i64, FieldTag)>, inst: Seq<(i64, GenericValue)>) -> bool {
    forall|i: int| 0 <= i < inst.len() ==> pair_ok(t, #[trigger] inst[i])
}

/// The message the first failing pair of an instance reports.
pub open spec fn inst_err(t: Seq<(i64, FieldTag)>, inst: Seq<(i64, GenericValue)>) -> Seq<char>
    decreases inst.len(),
{
    if inst.len() == 0 {
        Seq::empty()
    } else if !pair_ok(t, inst[0]) {
        coerce_err(table_lookup(t, inst[0].0)->0, inst[0].1)
    } else {
        inst_err(t, inst.drop_first())
    }
}

/// The value an instance assigns to a tag: that of the last pair whose
/// index the table maps to the tag, if any.
pub open spec fn tag_value(
    t: Seq<(i64, FieldTag)>,
    inst: Seq<(i64, GenericValue)>,
    tag: FieldTag,
) -> Option<GenericValue>
    decreases inst.len(),
{
    if inst.len() == 0 {
        Option::None
    } else if table_lookup(t, inst.last().0) == Option::Some(tag) {
        Option::Some(inst.last().1)
    } else {
        tag_value(t, inst.drop_last(), tag)
    }
}

/// An integer field's extracted value: the assigned integer, or zero.
pub open spec fn int_field(
    t: Seq<(i64, FieldTag)>,
    inst: Seq<(i64, GenericValue)>,
    tag: FieldTag,
) -> i64 {
    match tag_value(t, inst, tag) {
        Option::Some(v) => v->Integer_0,
        Option::None => 0,
    }
}

/// A boolean field's extracted value: the assigned boolean, or false.
pub open spec fn bool_field(
    t: Seq<(i64, FieldTag)>,
    inst: Seq<(i64, GenericValue)>,
    tag: FieldTag,
) -> bool {
    match tag_value(t, inst, tag) {
        Option::Some(v) => v->Boolean_0,
        Option::None => false,
    }
}

/// A text field's extracted value: the assigned byte string's characters,
/// or the empty string.
pub open spec fn text_field(
    t: Seq<(i64, FieldTag)>,
    inst: Seq<(i64, GenericValue)>,
    tag: FieldTag,
) -> Seq<char> {
    match tag_value(t, inst, tag) {
        Option::Some(v) => decode_utf8(v->ByteString_0@),
        Option::None => Seq::empty(),
    }
}

/// The components field's extracted value: the assigned mapping's decoded
/// pairs, or the empty list.
pub open spec fn components_field(
    t: Seq<(i64, FieldTag)>,
    inst: Seq<(i64, GenericValue)>,
) -> Seq<(Seq<char>, Seq<char>)> {
    match tag_value(t, inst, FieldTag::ShipComponents) {
        Option::Some(v) => components_view(v->Mapping_0@),
        Option::None => Seq::empty(),
    }
}

/// The record a passing instance extracts to under a table.
pub open spec fn extracted_player(
    t: Seq<(i64, FieldTag)>,
    inst: Seq<(i64, GenericValue)>,
) -> PlayerV {
    PlayerV {
        entity_id: int_field(t, inst, FieldTag::EntityId),
        id: int_field(t, inst, FieldTag::Id),
        is_bot: bool_field(t, inst, FieldTag::IsBot),
        ship_id: int_field(t, inst, FieldTag::ShipId),
        skin_id: int_field(t, inst, FieldTag::SkinId),
        team_id: int_field(t, inst, FieldTag::TeamId),
        ship_params_id: int_field(t, inst, FieldTag::ShipParamsId),
        max_health: int_field(t, inst, FieldTag::MaxHealth),
        ship_components: components_field(t, inst),
        name: text_field(t, inst, FieldTag::Name),
        clan_tag: text_field(t, inst, FieldTag::ClanTag),
        clan_color: int_field(t, inst, FieldTag::ClanColor),
    }
}

/// Coerces a value to an integer field.
fn coerce_int(v: GenericValue) -> (r: Result<i64, String>)
    ensures
        r is Ok <==> v is Integer,
        r matches Ok(i) ==> v == GenericValue::Integer(i),
        r matches Err(e) ==> e@ == "field value is not an integer"@,
{
    match v {
        GenericValue::Integer(i) => Ok(i),
        _ => Err(String::from_str("field value is not an integer")),
    }
}

/// Coerces a value to a boolean field.
fn coerce_bool(v: GenericValue) -> (r: Result<bool, String>)
    ensures
        r is Ok <==> v is Boolean,
        r matches Ok(b) ==> v == GenericValue::Boolean(b),
        r matches Err(e) ==> e@ == "field value is not a boolean"@,
{
    match v {
        GenericValue::Boolean(b) => Ok(b),
        _ => Err(String::from_str("field value is not a boolean")),
    }
}

/// Coerces a value to a text field: it must be a UTF-8-valid byte string.
fn coerce_text(v: GenericValue) -> (r: Result<String, String>)
    ensures
        r is Ok <==> (v matches GenericValue::ByteString(b) && valid_utf8(b@)),
        r matches Ok(s) ==> (v matches GenericValue::ByteString(b) && s@ == decode_utf8(b@)),
        r matches Err(e) ==> e@ == (if !(v is ByteString) {
            "field value is not a byte string"@
        } else {
            "field value is not valid utf-8"@
        }),
{
    match v {
        GenericValue::ByteString(b) => {
            match string_from_utf8(b) {
                Option::Some(s) => Ok(s),
                Option::None => Err(String::from_str("field value is not valid utf-8")),
            }
        },
        _ => Err(String::from_str("field value is not a byte string")),
    }
}

/// A coercion failure message is never empty.
pub proof fn lemma_coerce_err_nonempty(tag: FieldTag, v: GenericValue)
    ensures
        coerce_err(tag, v).len() > 0,
{
    reveal_strlit("field value is not an integer");
    reveal_strlit("field value is not a byte string");
    reveal_strlit("field value is not valid utf-8");
    reveal_strlit("field value is not a boolean");
    crate::components::lemma_components_err_nonempty(v);
}

/// A failing instance's message is never empty.
pub proof fn lemma_inst_err_nonempty(t: Seq<(i64, FieldTag)>, inst: Seq<(i64, GenericValue)>)
    requires
        !inst_ok(t, inst),
    ensures
        inst_err(t, inst).len() > 0,
    decreases inst.len(),
{
    if inst.len() > 0 {
        if !pair_ok(t, inst[0]) {
            lemma_coerce_err_nonempty(table_lookup(t, inst[0].0)->0, inst[0].1);
        } else {
            let i = choose|i: int| 0 <= i < inst.len() && !pair_ok(t, #[trigger] inst[i]);
            assert(inst.drop_first()[i - 1] == inst[i]);
            assert(!inst_ok(t, inst.drop_first()));
            lemma_inst_err_nonempty(t, inst.drop_first());
        }
    }
}

/// When a prefix of an instance passes and the next pair fails, the whole
/// instance reports that pair's message.
proof fn lemma_inst_err_at(t: Seq<(i64, FieldTag)>, inst: Seq<(i64, GenericValue)>, i: int)
    requires
        0 <= i < inst.len(),
        forall|j: int| 0 <= j < i ==> pair_ok(t, #[trigger] inst[j]),
        !pair_ok(t, inst[i]),
    ensures
        inst_err(t, inst) == coerce_err(table_lookup(t, inst[i].0)->0, inst[i].1),
    decreases i,
{
    if i > 0 {
        lemma_inst_err_at(t, inst.drop_first(), i - 1);
    }
}

/// Extracts one player/bot record from one instance's (index, value)
/// pairs: exactly when every known index's value coerces, the record whose
/// fields are the instance's assignments (defaults where absent); on the
/// first failing pair, that pair's message.
pub fn extract_player(table: &SchemaTable, inst: Vec<(i64, GenericValue)>) -> (r: Result<
    OnArenaStateReceivedPlayer,
    String,
>)
    ensures
        r is Ok <==> inst_ok(table.entries@, inst@),
        r matches Ok(p) ==> p@ == extracted_player(table.entries@, inst@),
        r matches Err(e) ==> e@ == inst_err(table.entries@, inst@),
{
    let ghost t = table.entries@;
    let ghost orig = inst@;
    let mut rest = inst;
    let mut p = OnArenaStateReceivedPlayer::default();
    let ghost mut k: int = 0;
    proof {
        assert(rest@ =~= orig.skip(0));
        assert(orig.take(0) =~= Seq::<(i64, GenericValue)>::empty());
        assert(p@ == extracted_player(t, orig.take(0)));
    }
    while rest.len() > 0
        invariant
            t == table.entries@,
            orig == inst@,
            0 <= k <= orig.len(),
            rest@ =~= orig.skip(k),
            forall|j: int| 0 <= j < k ==> pair_ok(t, #[trigger] orig[j]),
            p@ == extracted_player(t, orig.take(k)),
        decreases rest@.len(),
    {
        let (idx, v) = rest.remove(0);
        proof {
            assert(orig.skip(k)[0] == orig[k]);
            assert(orig.skip(k).drop_first() =~= orig.skip(k + 1));
            assert(orig.take(k + 1).drop_last() =~= orig.take(k));
            assert(orig.take(k + 1).last() == orig[k]);
        }
        match lookup_tag(table, idx) {
            Option::Some(tag) => {
                match tag {
                    FieldTag::EntityId => {
                        match coerce_int(v) {
                            Ok(i) => {
                                p.entity_id = i;
                            },
                            Err(e) => {
                                proof {
                                    lemma_inst_err_at(t, orig, k);
                                }
                                return Err(e);
                            },
                        }
                    },
                    FieldTag::Id => {
                        match coerce_int(v) {
                            Ok(i) => {
                                p.id = i;
                            },
                            Err(e) => {
                                proof {
                                    lemma_inst_err_at(t, orig, k);
                                }
                                return Err(e);
                            },
                        }
                    },
                    FieldTag::ShipId => {
                        match coerce_int(v) {
                            Ok(i) => {
                                p.ship_id = i;
                            },
                            Err(e) => {
                                proof {
                                    lemma_inst_err_at(t, orig, k);
                                }
                                return Err(e);
                            },
                        }
                    },
                    FieldTag::SkinId => {
                        match coerce_int(v) {
                            Ok(i) => {
                                p.skin_id = i;
                            },
                            Err(e) => {
                                proof {
                                    lemma_inst_err_at(t, orig, k);
                                }
                                return Err(e);
                            },
                        }
                    },
                    FieldTag::TeamId => {
                        match coerce_int(v) {
                            Ok(i) => {
                                p.team_id = i;
                            },
                            Err(e) => {
                                proof {
                                    lemma_inst_err_at(t, orig, k);
                                }
                                return Err(e);
                            },
                        }
                    },
                    FieldTag::ShipParamsId => {
                        match coerce_int(v) {
                            Ok(i) => {
                                p.ship_params_id = i;
                            },
                            Err(e) => {
                                proof {
                                    lemma_inst_err_at(t, orig, k);
                                }
                                return Err(e);
                            },
                        }
                    },
                    FieldTag::MaxHealth => {
                        match coerce_int(v) {
                            Ok(i) => {
                                p.max_health = i;
                            },
                            Err(e) => {
                                proof {
                                    lemma_inst_err_at(t, orig, k);
                                }
                                return Err(e);
                            },
                        }
                    },
                    FieldTag::ClanColor => {
                        match coerce_int(v) {
                            Ok(i) => {
                                p.clan_color = i;
                            },
                            Err(e) => {
                                proof {
                                    lemma_inst_err_at(t, orig, k);
                                }
                                return Err(e);
                            },
                        }
                    },
                    FieldTag::IsBot => {
                        match coerce_bool(v) {
                            Ok(b) => {
                                p.is_bot = b;
                            },
                            Err(e) => {
                                proof {
                                    lemma_inst_err_at(t, orig, k);
                                }
                                return Err(e);
                            },
                        }
                    },
                    FieldTag::Name => {
                        match coerce_text(v) {
                            Ok(s) => {
                                p.name = s;
                            },
                            Err(e) => {
                                proof {
                                    lemma_inst_err_at(t, orig, k);
                                }
                                return Err(e);
                            },
                        }
                    },
                    FieldTag::ClanTag => {
                        match coerce_text(v) {
                            Ok(s) => {
                                p.clan_tag = s;
                            },
                            Err(e) => {
                                proof {
                                    lemma_inst_err_at(t, orig, k);
                                }
                                return Err(e);
                            },
                        }
                    },
                    FieldTag::ShipComponents => {
                        match decode_ship_components(v) {
                            Ok(ps) => {
                                p.ship_components = ps;
                            },
                            Err(e) => {
                                proof {
                                    lemma_inst_err_at(t, orig, k);
                                }
                                return Err(e);
                            },
                        }
                    },
                }
            },
            Option::None => {},
        }
        proof {
            k = k + 1;
        }
    }
    proof {
        assert(orig.skip(k).len() == 0);
        assert(orig.take(k) =~= orig);
        assert(inst_ok(t, orig));
    }
    Ok(p)
}

} // verus!
