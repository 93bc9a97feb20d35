//! Extraction laws: what record extraction guarantees beyond the
//! function contracts — completeness on fully-known instances, tolerance
//! and order-independence for unknown indices, and strictness for known
//! ones.
use vstd::prelude::*;

use vstd::seq_lib::group_to_multiset_ensures;

use crate::extract::bool_field;
use crate::extract::coerce_ok;
use crate::extract::extracted_player;
use crate::extract::inst_ok;
use crate::extract::int_field;
use crate::extract::pair_ok;
use crate::extract::tag_value;
use crate::extract::tag_expects_bool;
use crate::extract::tag_expects_int;
use crate::extract::tag_expects_text;
use crate::extract::text_field;
use crate::extract::components_field;
use crate::components::components_ok;
use crate::components::components_view;
use crate::players::batch_ok;
use crate::players::batch_players;
use crate::schema::lemma_table_lookup_injective;
use crate::schema::table_lookup;
use crate::schema::table_wf;
use crate::schema::FieldTag;
use crate::value::GenericValue;

use vstd::utf8::decode_utf8;

verus! {

/// Whether no field index appears twice in an instance.
pub open spec fn indices_distinct(inst: Seq<(i64, GenericValue)>) -> bool {
    forall|i: int, j: int|
        0 <= i < j < inst.len() ==> (#[trigger] inst[i]).0 != (#[trigger] inst[j]).0
}

/// A tag has an assigned value exactly when some pair's index is mapped to
/// it by the table.
pub proof fn lemma_tag_value_present(
    t: Seq<(i64, FieldTag)>,
    inst: Seq<(i64, GenericValue)>,
    tag: FieldTag,
)
    ensures
        tag_value(t, inst, tag) is Some <==> exists|i: int|
            0 <= i < inst.len() && table_lookup(t, (#[trigger] inst[i]).0) == Option::Some(tag),
    decreases inst.len(),
{
    if inst.len() > 0 {
        lemma_tag_value_present(t, inst.drop_last(), tag);
        assert(forall|i: int| 0 <= i < inst.len() - 1 ==> inst.drop_last()[i] == inst[i]);
        if table_lookup(t, inst.last().0) == Option::Some(tag) {
            assert(table_lookup(t, (inst[inst.len() - 1]).0) == Option::Some(tag));
        } else if tag_value(t, inst.drop_last(), tag) is Some {
            let i = choose|i: int|
                0 <= i < inst.drop_last().len() && table_lookup(t, (inst.drop_last()[i]).0)
                    == Option::Some(tag);
            assert(table_lookup(t, (inst[i]).0) == Option::Some(tag));
        } else if exists|i: int|
            0 <= i < inst.len() && table_lookup(t, (#[trigger] inst[i]).0) == Option::Some(tag) {
            let i = choose|i: int|
                0 <= i < inst.len() && table_lookup(t, (#[trigger] inst[i]).0) == Option::Some(
                    tag,
                );
            assert(i < inst.len() - 1);
            assert(table_lookup(t, (inst.drop_last()[i]).0) == Option::Some(tag));
        }
    }
}

/// Under a well-formed table, in an instance without repeated indices, a
/// pair whose index is mapped to a tag is the tag's assignment.
pub proof fn lemma_tag_value_at(
    t: Seq<(i64, FieldTag)>,
    inst: Seq<(i64, GenericValue)>,
    tag: FieldTag,
    i: int,
)
    requires
        table_wf(t),
        indices_distinct(inst),
        0 <= i < inst.len(),
        table_lookup(t, inst[i].0) == Option::Some(tag),
    ensures
        tag_value(t, inst, tag) == Option::Some(inst[i].1),
    decreases inst.len(),
{
    if i < inst.len() - 1 {
        if table_lookup(t, inst.last().0) == Option::Some(tag) {
            lemma_table_lookup_injective(t, inst[i].0, inst.last().0);
            assert(inst[i].0 == inst[inst.len() - 1].0);
            assert(false);
        }
        assert(forall|j: int| 0 <= j < inst.len() - 1 ==> inst.drop_last()[j] == inst[j]);
        lemma_tag_value_at(t, inst.drop_last(), tag, i);
    }
}

/// An instance whose indices are all known to the table, with
/// correctly-typed values, extracts successfully; every present field
/// carries its source value and every absent field its default.
pub proof fn lemma_extraction_complete(t: Seq<(i64, FieldTag)>, inst: Seq<(i64, GenericValue)>)
    requires
        forall|i: int| 0 <= i < inst.len() ==> table_lookup(t, (#[trigger] inst[i]).0) is Some,
        forall|i: int|
            0 <= i < inst.len() ==> coerce_ok(
                table_lookup(t, (#[trigger] inst[i]).0)->0,
                inst[i].1,
            ),
    ensures
        inst_ok(t, inst),
        forall|tag: FieldTag|
            #[trigger] tag_value(t, inst, tag) is Some <==> exists|i: int|
                0 <= i < inst.len() && table_lookup(t, (#[trigger] inst[i]).0) == Option::Some(
                    tag,
                ),
        forall|tag: FieldTag|
            tag_expects_int(tag) ==> #[trigger] int_field(t, inst, tag) == (
            match tag_value(t, inst, tag) {
                Option::Some(v) => v->Integer_0,
                Option::None => 0,
            }),
        forall|tag: FieldTag|
            tag_expects_text(tag) ==> #[trigger] text_field(t, inst, tag) == (
            match tag_value(t, inst, tag) {
                Option::Some(v) => decode_utf8(v->ByteString_0@),
                Option::None => Seq::<char>::empty(),
            }),
        forall|tag: FieldTag|
            tag_expects_bool(tag) ==> #[trigger] bool_field(t, inst, tag) == (
            match tag_value(t, inst, tag) {
                Option::Some(v) => v->Boolean_0,
                Option::None => false,
            }),
{
    assert forall|i: int| 0 <= i < inst.len() implies pair_ok(t, #[trigger] inst[i]) by {
        assert(table_lookup(t, inst[i].0) is Some);
    }
    assert forall|tag: FieldTag| #[trigger] tag_value(t, inst, tag) is Some <==> exists|i: int|
        0 <= i < inst.len() && table_lookup(t, (#[trigger] inst[i]).0) == Option::Some(tag) by {
        lemma_tag_value_present(t, inst, tag);
    }
}

/// A pair whose index is known to the table but whose value has the wrong
/// variant fails the whole instance: no record is produced for it.
pub proof fn lemma_wrong_variant_fails(
    t: Seq<(i64, FieldTag)>,
    inst: Seq<(i64, GenericValue)>,
    i: int,
)
    requires
        0 <= i < inst.len(),
        table_lookup(t, inst[i].0) is Some,
        !coerce_ok(table_lookup(t, inst[i].0)->0, inst[i].1),
    ensures
        !inst_ok(t, inst),
{
    assert(!pair_ok(t, inst[i]));
}

/// Removing a pair whose index the table does not know changes nothing:
/// neither whether extraction succeeds nor the record it produces.
pub proof fn lemma_unknown_index_ignored(
    t: Seq<(i64, FieldTag)>,
    inst: Seq<(i64, GenericValue)>,
    j: int,
)
    requires
        0 <= j < inst.len(),
        table_lookup(t, inst[j].0) is None,
    ensures
        inst_ok(t, inst) == inst_ok(t, inst.remove(j)),
        extracted_player(t, inst) == extracted_player(t, inst.remove(j)),
{
    let rem = inst.remove(j);
    assert forall|i: int| 0 <= i < rem.len() implies #[trigger] rem[i] == if i < j {
        inst[i]
    } else {
        inst[i + 1]
    } by {}
    if inst_ok(t, inst) {
        assert forall|i: int| 0 <= i < rem.len() implies pair_ok(t, #[trigger] rem[i]) by {
            if i < j {
                assert(pair_ok(t, inst[i]));
            } else {
                assert(pair_ok(t, inst[i + 1]));
            }
        }
    }
    if inst_ok(t, rem) {
        assert forall|i: int| 0 <= i < inst.len() implies pair_ok(t, #[trigger] inst[i]) by {
            if i < j {
                assert(inst[i] == rem[i]);
            } else if i == j {
                assert(table_lookup(t, inst[j].0) is None);
            } else {
                assert(inst[i] == rem[i - 1]);
            }
        }
    }
    assert forall|tag: FieldTag| #[trigger] tag_value(t, inst, tag) == tag_value(t, rem, tag) by {
        lemma_tag_value_remove_unknown(t, inst, j, tag);
    }
}

/// In a whole batch, removing one pair whose index the table does not
/// know changes nothing: neither which instances pass extraction nor the
/// records the batch produces.
pub proof fn lemma_batch_unknown_index_ignored(
    t: Seq<(i64, FieldTag)>,
    insts: Seq<Seq<(i64, GenericValue)>>,
    i: int,
    j: int,
)
    requires
        0 <= i < insts.len(),
        0 <= j < insts[i].len(),
        table_lookup(t, insts[i][j].0) is None,
    ensures
        batch_ok(t, insts) == batch_ok(t, insts.update(i, insts[i].remove(j))),
        batch_players(t, insts) == batch_players(t, insts.update(i, insts[i].remove(j))),
{
    let upd = insts.update(i, insts[i].remove(j));
    lemma_unknown_index_ignored(t, insts[i], j);
    assert forall|k: int| 0 <= k < insts.len() implies inst_ok(t, #[trigger] insts[k]) == inst_ok(
        t,
        upd[k],
    ) && extracted_player(t, insts[k]) == extracted_player(t, upd[k]) by {
        if k != i {
            assert(upd[k] == insts[k]);
        }
    }
    assert(batch_ok(t, insts) == batch_ok(t, upd));
    assert(batch_players(t, insts) =~= batch_players(t, upd));
}

/// An instance whose ship components pair holds a well-formed mapping, and
/// whose other pairs pass extraction, extracts successfully to a record
/// whose component pairs are exactly the mapping's decoded entries, in
/// mapping order.
pub proof fn lemma_components_round_trip_in_record(
    t: Seq<(i64, FieldTag)>,
    inst: Seq<(i64, GenericValue)>,
    i: int,
)
    requires
        table_wf(t),
        indices_distinct(inst),
        0 <= i < inst.len(),
        forall|k: int| 0 <= k < inst.len() && k != i ==> pair_ok(t, #[trigger] inst[k]),
        table_lookup(t, inst[i].0) == Option::Some(FieldTag::ShipComponents),
        components_ok(inst[i].1),
    ensures
        inst_ok(t, inst),
        extracted_player(t, inst).ship_components == components_view(inst[i].1->Mapping_0@),
{
    assert(pair_ok(t, inst[i]));
    lemma_tag_value_at(t, inst, FieldTag::ShipComponents, i);
}

/// Removing a pair whose index the table does not know leaves every tag's
/// assignment unchanged.
proof fn lemma_tag_value_remove_unknown(
    t: Seq<(i64, FieldTag)>,
    inst: Seq<(i64, GenericValue)>,
    j: int,
    tag: FieldTag,
)
    requires
        0 <= j < inst.len(),
        table_lookup(t, inst[j].0) is None,
    ensures
        tag_value(t, inst, tag) == tag_value(t, inst.remove(j), tag),
    decreases inst.len(),
{
    let rem = inst.remove(j);
    if j == inst.len() - 1 {
        assert(rem =~= inst.drop_last());
    } else {
        assert(rem.len() == inst.len() - 1);
        assert(rem.last() == inst.last());
        assert(rem.drop_last() =~= inst.drop_last().remove(j));
        assert(forall|i: int| 0 <= i < inst.len() - 1 ==> inst.drop_last()[i] == inst[i]);
        lemma_tag_value_remove_unknown(t, inst.drop_last(), j, tag);
    }
}

/// An element of one sequence is an element of any permutation of it.
proof fn lemma_perm_contains(
    a: Seq<(i64, GenericValue)>,
    b: Seq<(i64, GenericValue)>,
    x: (i64, GenericValue),
)
    requires
        a.to_multiset() == b.to_multiset(),
        b.contains(x),
    ensures
        a.contains(x),
{
    broadcast use group_to_multiset_ensures;

    assert(b.to_multiset().count(x) > 0);
    assert(a.to_multiset().count(x) > 0);
}

/// Index distinctness survives permutation.
proof fn lemma_perm_distinct(a: Seq<(i64, GenericValue)>, b: Seq<(i64, GenericValue)>)
    requires
        indices_distinct(a),
        a.to_multiset() == b.to_multiset(),
    ensures
        indices_distinct(b),
{
    broadcast use group_to_multiset_ensures;

    assert(a.no_duplicates()) by {
        assert forall|i: int, j: int|
            0 <= i < a.len() && 0 <= j < a.len() && i != j implies a[i] != a[j] by {
            if i < j {
                assert(a[i].0 != a[j].0);
            } else {
                assert(a[j].0 != a[i].0);
            }
        }
    }
    a.lemma_multiset_has_no_duplicates();
    b.lemma_multiset_has_no_duplicates_conv();
    assert forall|i: int, j: int| 0 <= i < j < b.len() implies (#[trigger] b[i]).0 != (
    #[trigger] b[j]).0 by {
        if b[i].0 == b[j].0 {
            assert(b[i] != b[j]);
            assert(b.contains(b[i]));
            assert(b.contains(b[j]));
            lemma_perm_contains(a, b, b[i]);
            lemma_perm_contains(a, b, b[j]);
            let i2 = choose|k: int| 0 <= k < a.len() && a[k] == b[i];
            let j2 = choose|k: int| 0 <= k < a.len() && a[k] == b[j];
            assert(i2 != j2);
            if i2 < j2 {
                assert(a[i2].0 != a[j2].0);
            } else {
                assert(a[j2].0 != a[i2].0);
            }
            assert(false);
        }
    }
}

/// Permuting an instance without repeated indices leaves every tag's
/// assignment unchanged.
proof fn lemma_tag_value_perm(
    t: Seq<(i64, FieldTag)>,
    a: Seq<(i64, GenericValue)>,
    b: Seq<(i64, GenericValue)>,
    tag: FieldTag,
)
    requires
        table_wf(t),
        indices_distinct(a),
        indices_distinct(b),
        a.to_multiset() == b.to_multiset(),
    ensures
        tag_value(t, a, tag) == tag_value(t, b, tag),
{
    broadcast use group_to_multiset_ensures;

    lemma_tag_value_present(t, a, tag);
    lemma_tag_value_present(t, b, tag);
    if tag_value(t, a, tag) is Some {
        let i = choose|i: int|
            0 <= i < a.len() && table_lookup(t, (#[trigger] a[i]).0) == Option::Some(tag);
        assert(a.contains(a[i]));
        lemma_perm_contains(b, a, a[i]);
        let j = choose|j: int| 0 <= j < b.len() && b[j] == a[i];
        lemma_tag_value_at(t, a, tag, i);
        lemma_tag_value_at(t, b, tag, j);
    } else if tag_value(t, b, tag) is Some {
        let j = choose|j: int|
            0 <= j < b.len() && table_lookup(t, (#[trigger] b[j]).0) == Option::Some(tag);
        assert(b.contains(b[j]));
        lemma_perm_contains(a, b, b[j]);
        let i = choose|i: int| 0 <= i < a.len() && a[i] == b[j];
        assert(table_lookup(t, (a[i]).0) == Option::Some(tag));
        assert(false);
    }
}

/// Under a well-formed table, permuting the pairs of an instance without
/// repeated indices changes nothing: neither whether extraction succeeds
/// nor the record it produces.  (With a repeated index the wire data is
/// ambiguous and the last pair in instance order wins.)
pub proof fn lemma_extract_permutation(
    t: Seq<(i64, FieldTag)>,
    a: Seq<(i64, GenericValue)>,
    b: Seq<(i64, GenericValue)>,
)
    requires
        table_wf(t),
        indices_distinct(a),
        a.to_multiset() == b.to_multiset(),
    ensures
        inst_ok(t, a) == inst_ok(t, b),
        extracted_player(t, a) == extracted_player(t, b),
{
    broadcast use group_to_multiset_ensures;

    lemma_perm_distinct(a, b);
    assert forall|tag: FieldTag| #[trigger] tag_value(t, a, tag) == tag_value(t, b, tag) by {
        lemma_tag_value_perm(t, a, b, tag);
    }
    if inst_ok(t, a) {
        assert forall|i: int| 0 <= i < b.len() implies pair_ok(t, #[trigger] b[i]) by {
            assert(b.contains(b[i]));
            lemma_perm_contains(a, b, b[i]);
            let j = choose|j: int| 0 <= j < a.len() && a[j] == b[i];
            assert(pair_ok(t, a[j]));
        }
    }
    if inst_ok(t, b) {
        assert forall|i: int| 0 <= i < a.len() implies pair_ok(t, #[trigger] a[i]) by {
            assert(a.contains(a[i]));
            lemma_perm_contains(b, a, a[i]);
            let j = choose|j: int| 0 <= j < b.len() && b[j] == a[i];
            assert(pair_ok(t, b[j]));
        }
    }
    assert(components_field(t, a) == components_field(t, b));
}

} // verus!
