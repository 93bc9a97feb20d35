//! Player and bot state decoding: the decoded value tree is a list of
//! record instances, each an ordered list of (field index, value) pairs;
//! the client version resolves the schema table, and each instance is
//! extracted independently, stopping at the first failing instance.
use vstd::prelude::*;

use crate::envelope::ErrorType;
use crate::envelope::OnArenaStateReceivedPlayer;
use crate::envelope::OnArenaStateReceivedPlayerResult;
use crate::envelope::PlayerV;
use crate::extract::extract_player;
use crate::extract::extracted_player;
use crate::extract::inst_err;
use crate::extract::inst_ok;
use crate::extract::lemma_inst_err_nonempty;
use crate::pickle::decode_value_tree;
use crate::pickle::decoded_pickle;
use crate::schema::resolve_bot_schema;
use crate::schema::resolve_player_schema;
use crate::schema::spec_player_schema;
use crate::schema::table_bot;
use crate::schema::FieldTag;
use crate::schema::SchemaTable;
use crate::value::GenericValue;

verus! {

/// The views of a list of instances.
pub open spec fn insts_views(s: Seq<Vec<(i64, GenericValue)>>) -> Seq<Seq<(i64, GenericValue)>> {
    s.map(|_i: int, v: Vec<(i64, GenericValue)>| v@)
}

/// The views of a list of player records.
pub open spec fn players_views(s: Seq<OnArenaStateReceivedPlayer>) -> Seq<PlayerV> {
    s.map(|_i: int, p: OnArenaStateReceivedPlayer| p@)
}

/// Whether a node is one (field index, value) pair: a two-element
/// collection whose first element is an integer.
pub open spec fn pair_shaped(v: GenericValue) -> bool {
    v.is_listlike() && v.elems().len() == 2 && v.elems()[0] is Integer
}

/// The (index, value) pair a pair-shaped node stands for.
pub open spec fn as_pair(v: GenericValue) -> (i64, GenericValue) {
    (v.elems()[0]->Integer_0, v.elems()[1])
}

/// Whether every node of a sequence is pair-shaped.
pub open spec fn seq_pairs_shaped(s: Seq<GenericValue>) -> bool {
    forall|i: int| 0 <= i < s.len() ==> pair_shaped(#[trigger] s[i])
}

/// The pairs a sequence of pair-shaped nodes stands for.
pub open spec fn seq_as_pairs(s: Seq<GenericValue>) -> Seq<(i64, GenericValue)> {
    s.map(|_i: int, p: GenericValue| as_pair(p))
}

/// Whether a node is one record instance: a collection of pairs.
pub open spec fn instance_shaped(v: GenericValue) -> bool {
    v.is_listlike() && seq_pairs_shaped(v.elems())
}

/// The instance an instance-shaped node stands for.
pub open spec fn as_instance(v: GenericValue) -> Seq<(i64, GenericValue)> {
    seq_as_pairs(v.elems())
}

/// Whether a node is a batch of record instances.
pub open spec fn batch_shaped(v: GenericValue) -> bool {
    v.is_listlike() && forall|i: int| 0 <= i < v.elems().len() ==> instance_shaped(
        #[trigger] v.elems()[i],
    )
}

/// The instances a batch-shaped node stands for.
pub open spec fn as_batch(v: GenericValue) -> Seq<Seq<(i64, GenericValue)>> {
    v.elems().map(|_i: int, e: GenericValue| as_instance(e))
}

/// Whether every instance of a batch passes extraction.
pub open spec fn batch_ok(t: Seq<(i64, FieldTag)>, insts: Seq<Seq<(i64, GenericValue)>>) -> bool {
    forall|i: int| 0 <= i < insts.len() ==> inst_ok(t, #[trigger] insts[i])
}

/// The message the first failing instance of a batch reports.
pub open spec fn batch_err(t: Seq<(i64, FieldTag)>, insts: Seq<Seq<(i64, GenericValue)>>) -> Seq<
    char,
>
    decreases insts.len(),
{
    if insts.len() == 0 {
        Seq::empty()
    } else if !inst_ok(t, insts[0]) {
        inst_err(t, insts[0])
    } else {
        batch_err(t, insts.drop_first())
    }
}

/// The records a passing batch extracts to, instance for instance.
pub open spec fn batch_players(t: Seq<(i64, FieldTag)>, insts: Seq<Seq<(i64, GenericValue)>>) -> Seq<
    PlayerV,
> {
    insts.map(|_i: int, inst: Seq<(i64, GenericValue)>| extracted_player(t, inst))
}

/// The outcome player/bot decoding owes for a decoded value tree under a
/// table: the batch's records, or the first violated expectation's message.
pub open spec fn players_outcome(t: Seq<(i64, FieldTag)>, v: GenericValue) -> Result<
    Seq<PlayerV>,
    Seq<char>,
> {
    if !batch_shaped(v) {
        Result::Err("player data has the wrong shape"@)
    } else if !batch_ok(t, as_batch(v)) {
        Result::Err(batch_err(t, as_batch(v)))
    } else {
        Result::Ok(batch_players(t, as_batch(v)))
    }
}

/// Takes a list-like node apart into its elements.
fn into_elems(v: GenericValue) -> (r: Result<Vec<GenericValue>, String>)
    ensures
        r is Ok <==> v.is_listlike(),
        r matches Ok(l) ==> l@ == v.elems(),
        r matches Err(e) ==> e@ == "player data has the wrong shape"@,
{
    match v {
        GenericValue::Sequence(l) => Ok(l),
        GenericValue::FixedTuple(l) => Ok(l),
        _ => Err(String::from_str("player data has the wrong shape")),
    }
}

/// Takes a pair-shaped node apart into its (index, value) pair.
fn into_pair(v: GenericValue) -> (r: Result<(i64, GenericValue), String>)
    ensures
        r is Ok <==> pair_shaped(v),
        r matches Ok(p) ==> p == as_pair(v),
        r matches Err(e) ==> e@ == "player data has the wrong shape"@,
{
    let l = match v {
        GenericValue::Sequence(l) => l,
        GenericValue::FixedTuple(l) => l,
        _ => { return Err(String::from_str("player data has the wrong shape")) },
    };
    if l.len() != 2 {
        return Err(String::from_str("player data has the wrong shape"));
    }
    let mut l = l;
    let second = l.pop().unwrap();
    let first = l.pop().unwrap();
    match first {
        GenericValue::Integer(idx) => Ok((idx, second)),
        _ => Err(String::from_str("player data has the wrong shape")),
    }
}

/// Takes an instance-shaped node apart into its (index, value) pairs.
fn into_instance(v: GenericValue) -> (r: Result<Vec<(i64, GenericValue)>, String>)
    ensures
        r is Ok <==> instance_shaped(v),
        r matches Ok(ps) ==> ps@ == as_instance(v),
        r matches Err(e) ==> e@ == "player data has the wrong shape"@,
{
    let l = match into_elems(v) {
        Ok(l) => l,
        Err(e) => { return Err(e) },
    };
    let ghost orig = l@;
    let mut rest = l;
    let mut out: Vec<(i64, GenericValue)> = Vec::new();
    proof {
        assert(rest@ =~= orig.skip(0));
    }
    while rest.len() > 0
        invariant
            orig == v.elems(),
            v.is_listlike(),
            out@.len() + rest@.len() == orig.len(),
            rest@ =~= orig.skip(out@.len() as int),
            forall|j: int|
                0 <= j < out@.len() ==> pair_shaped(#[trigger] orig[j]) && out@[j] == as_pair(
                    orig[j],
                ),
        decreases rest@.len(),
    {
        let ghost n = out@.len() as int;
        let e = rest.remove(0);
        proof {
            assert(orig.skip(n)[0] == orig[n]);
            assert(orig.skip(n).drop_first() =~= orig.skip(n + 1));
        }
        match into_pair(e) {
            Ok(p) => {
                out.push(p);
            },
            Err(err) => {
                proof {
                    assert(!pair_shaped(orig[n]));
                }
                return Err(err);
            },
        }
    }
    proof {
        assert(orig.skip(out@.len() as int).len() == 0);
        assert(out@ =~= seq_as_pairs(orig));
    }
    Ok(out)
}

/// Takes a batch-shaped node apart into its instances.
fn into_batch(v: GenericValue) -> (r: Result<Vec<Vec<(i64, GenericValue)>>, String>)
    ensures
        r is Ok <==> batch_shaped(v),
        r matches Ok(ivs) ==> insts_views(ivs@) == as_batch(v),
        r matches Err(e) ==> e@ == "player data has the wrong shape"@,
{
    let l = match into_elems(v) {
        Ok(l) => l,
        Err(e) => { return Err(e) },
    };
    let ghost orig = l@;
    let mut rest = l;
    let mut out: Vec<Vec<(i64, GenericValue)>> = Vec::new();
    proof {
        assert(rest@ =~= orig.skip(0));
    }
    while rest.len() > 0
        invariant
            orig == v.elems(),
            v.is_listlike(),
            out@.len() + rest@.len() == orig.len(),
            rest@ =~= orig.skip(out@.len() as int),
            forall|j: int|
                0 <= j < out@.len() ==> instance_shaped(#[trigger] orig[j]) && out@[j]@
                    == as_instance(orig[j]),
        decreases rest@.len(),
    {
        let ghost n = out@.len() as int;
        let e = rest.remove(0);
        proof {
            assert(orig.skip(n)[0] == orig[n]);
            assert(orig.skip(n).drop_first() =~= orig.skip(n + 1));
        }
        match into_instance(e) {
            Ok(iv) => {
                out.push(iv);
            },
            Err(err) => {
                proof {
                    assert(!instance_shaped(orig[n]));
                }
                return Err(err);
            },
        }
    }
    proof {
        assert(orig.skip(out@.len() as int).len() == 0);
        assert(insts_views(out@) =~= as_batch(v));
    }
    Ok(out)
}

/// A failing batch's message is never empty.
proof fn lemma_batch_err_nonempty(t: Seq<(i64, FieldTag)>, insts: Seq<Seq<(i64, GenericValue)>>)
    requires
        !batch_ok(t, insts),
    ensures
        batch_err(t, insts).len() > 0,
    decreases insts.len(),
{
    if insts.len() > 0 {
        if !inst_ok(t, insts[0]) {
            lemma_inst_err_nonempty(t, insts[0]);
        } else {
            let i = choose|i: int| 0 <= i < insts.len() && !inst_ok(t, #[trigger] insts[i]);
            assert(insts.drop_first()[i - 1] == insts[i]);
            assert(!batch_ok(t, insts.drop_first()));
            lemma_batch_err_nonempty(t, insts.drop_first());
        }
    }
}

/// A player decode failure's message is never empty.
pub proof fn lemma_players_outcome_err_nonempty(t: Seq<(i64, FieldTag)>, v: GenericValue)
    requires
        players_outcome(t, v) is Err,
    ensures
        players_outcome(t, v)->Err_0.len() > 0,
{
    reveal_strlit("player data has the wrong shape");
    if batch_shaped(v) {
        lemma_batch_err_nonempty(t, as_batch(v));
    }
}

/// When a prefix of a batch passes and the next instance fails, the whole
/// batch reports that instance's message.
proof fn lemma_batch_err_at(t: Seq<(i64, FieldTag)>, insts: Seq<Seq<(i64, GenericValue)>>, i: int)
    requires
        0 <= i < insts.len(),
        forall|j: int| 0 <= j < i ==> inst_ok(t, #[trigger] insts[j]),
        !inst_ok(t, insts[i]),
    ensures
        batch_err(t, insts) == inst_err(t, insts[i]),
    decreases i,
{
    if i > 0 {
        lemma_batch_err_at(t, insts.drop_first(), i - 1);
    }
}

/// Extracts every instance of a batch, stopping at the first failure; no
/// partial batch result is returned.
fn extract_batch(table: &SchemaTable, insts: Vec<Vec<(i64, GenericValue)>>) -> (r: Result<
    Vec<OnArenaStateReceivedPlayer>,
    String,
>)
    ensures
        r is Ok <==> batch_ok(table.entries@, insts_views(insts@)),
        r matches Ok(ps) ==> players_views(ps@) == batch_players(
            table.entries@,
            insts_views(insts@),
        ),
        r matches Err(e) ==> e@ == batch_err(table.entries@, insts_views(insts@)),
{
    let ghost t = table.entries@;
    let ghost orig = insts_views(insts@);
    let mut rest = insts;
    let mut out: Vec<OnArenaStateReceivedPlayer> = Vec::new();
    proof {
        assert(insts_views(rest@) =~= orig.skip(0));
    }
    while rest.len() > 0
        invariant
            t == table.entries@,
            orig == insts_views(insts@),
            out@.len() + rest@.len() == orig.len(),
            insts_views(rest@) =~= orig.skip(out@.len() as int),
            forall|j: int|
                0 <= j < out@.len() ==> inst_ok(t, #[trigger] orig[j]) && out@[j]@
                    == extracted_player(t, orig[j]),
        decreases rest@.len(),
    {
        let ghost n = out@.len() as int;
        let inst = rest.remove(0);
        proof {
            assert(orig.skip(n)[0] == orig[n]);
            assert(orig.skip(n).drop_first() =~= orig.skip(n + 1));
            assert(insts_views(rest@) =~= orig.skip(n + 1));
            assert(inst@ == orig[n]);
        }
        match extract_player(table, inst) {
            Ok(p) => {
                out.push(p);
            },
            Err(e) => {
                proof {
                    lemma_batch_err_at(t, orig, n);
                }
                return Err(e);
            },
        }
    }
    proof {
        assert(orig.skip(out@.len() as int).len() == 0);
        assert(players_views(out@) =~= batch_players(t, orig));
    }
    Ok(out)
}

/// Decodes a player/bot batch from a byte buffer under a given table.
fn parse_players_with(table: &SchemaTable, data: &[u8]) -> (r: OnArenaStateReceivedPlayerResult)
    ensures
        decoded_pickle(data@) matches Err(m) ==> (r.is_error && r.error@ == m && r.value@.len()
            == 0),
        decoded_pickle(data@) matches Ok(v) ==> (match players_outcome(table.entries@, v) {
            Result::Ok(ps) => !r.is_error && players_views(r.value@) == ps && r.error@.len() == 0,
            Result::Err(m) => r.is_error && r.error@ == m && r.value@.len() == 0,
        }),
        r.is_error ==> r.error@.len() > 0,
{
    match decode_value_tree(data) {
        Err(e) => OnArenaStateReceivedPlayerResult::new_error(e),
        Ok(v) => {
            proof {
                if players_outcome(table.entries@, v) is Err {
                    lemma_players_outcome_err_nonempty(table.entries@, v);
                }
            }
            match into_batch(v) {
                Err(e) => OnArenaStateReceivedPlayerResult::new_error_from_str(e),
                Ok(ivs) => {
                    match extract_batch(table, ivs) {
                        Ok(ps) => OnArenaStateReceivedPlayerResult::new_result(ps),
                        Err(e) => OnArenaStateReceivedPlayerResult::new_error_from_str(e),
                    }
                },
            }
        },
    }
}

/// Decodes the player records of an arena state blob: the producing
/// client's packed version resolves the schema table the instances are
/// extracted under.
pub fn parse_arena_state_received_players(data: &[u8], version: u32) -> (r:
    OnArenaStateReceivedPlayerResult)
    ensures
        decoded_pickle(data@) matches Err(m) ==> (r.is_error && r.error@ == m && r.value@.len()
            == 0),
        decoded_pickle(data@) matches Ok(v) ==> (match players_outcome(
            spec_player_schema(version),
            v,
        ) {
            Result::Ok(ps) => !r.is_error && players_views(r.value@) == ps && r.error@.len() == 0,
            Result::Err(m) => r.is_error && r.error@ == m && r.value@.len() == 0,
        }),
        r.is_error ==> r.error@.len() > 0,
{
    let table = resolve_player_schema(version);
    parse_players_with(&table, data)
}

/// Decodes the bot records of an arena state blob; bots use one fixed
/// table regardless of version.
pub fn parse_arena_state_received_bots(data: &[u8], _version: u32) -> (r:
    OnArenaStateReceivedPlayerResult)
    ensures
        decoded_pickle(data@) matches Err(m) ==> (r.is_error && r.error@ == m && r.value@.len()
            == 0),
        decoded_pickle(data@) matches Ok(v) ==> (match players_outcome(table_bot(), v) {
            Result::Ok(ps) => !r.is_error && players_views(r.value@) == ps && r.error@.len() == 0,
            Result::Err(m) => r.is_error && r.error@ == m && r.value@.len() == 0,
        }),
        r.is_error ==> r.error@.len() > 0,
{
    let table = resolve_bot_schema();
    parse_players_with(&table, data)
}

} // verus!
