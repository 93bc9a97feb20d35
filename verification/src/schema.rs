//! Schema tables: per-(record kind, version range) mappings from a record
//! instance's small integer field indices to semantic field tags.
//!
//! Indices are not stable across record kinds or version boundaries, so the
//! producing client's version picks the table through a descending threshold
//! ladder.  The tables are plain data; the extractor looks indices up here
//! and silently skips indices no table entry knows.
use vstd::prelude::*;

use crate::version::packed_version;
use crate::version::create_version;

verus! {

/// The semantic fields that player and bot record extraction fills.
#[derive(Debug, Clone, Copy, PartialEq, Eq, Structural)]
pub enum FieldTag {
    EntityId,
    Id,
    IsBot,
    ShipId,
    SkinId,
    TeamId,
    ShipParamsId,
    MaxHealth,
    Name,
    ClanTag,
    ClanColor,
    ShipComponents,
}

/// An ordered mapping from field index to field tag for one record kind in
/// one version range.
pub struct SchemaTable {
    pub entries: Vec<(i64, FieldTag)>,
}

/// A well-formed table maps each index to at most one tag and each tag to at
/// most one index.
pub open spec fn table_wf(t: Seq<(i64, FieldTag)>) -> bool {
    forall|i: int, j: int|
        0 <= i < t.len() && 0 <= j < t.len() && i != j ==> t[i].0 != t[j].0 && t[i].1 != t[j].1
}

impl SchemaTable {
    pub open spec fn wf(&self) -> bool {
        table_wf(self.entries@)
    }
}

/// The tag a table assigns to a field index, if any (first match).
pub open spec fn table_lookup(t: Seq<(i64, FieldTag)>, idx: i64) -> Option<FieldTag>
    decreases t.len(),
{
    if t.len() == 0 {
        None
    } else if t[0].0 == idx {
        Some(t[0].1)
    } else {
        table_lookup(t.drop_first(), idx)
    }
}

/// In a well-formed table no two indices share a tag, so a tag determines
/// the index it was looked up from.
pub proof fn lemma_table_lookup_injective(t: Seq<(i64, FieldTag)>, x: i64, y: i64)
    requires
        table_wf(t),
        table_lookup(t, x) is Some,
        table_lookup(t, x) == table_lookup(t, y),
    ensures
        x == y,
    decreases t.len(),
{
    if t.len() > 0 {
        lemma_table_lookup_mem(t, x);
        lemma_table_lookup_mem(t, y);
        let i = choose|i: int|
            0 <= i < t.len() && t[i].0 == x && t[i].1 == table_lookup(t, x)->0;
        let j = choose|j: int|
            0 <= j < t.len() && t[j].0 == y && t[j].1 == table_lookup(t, y)->0;
        assert(i == j);
    }
}

/// A successful lookup comes from some entry of the table.
pub proof fn lemma_table_lookup_mem(t: Seq<(i64, FieldTag)>, x: i64)
    requires
        table_lookup(t, x) is Some,
    ensures
        exists|i: int| 0 <= i < t.len() && t[i].0 == x && t[i].1 == table_lookup(t, x)->0,
    decreases t.len(),
{
    if t.len() > 0 && t[0].0 != x {
        lemma_table_lookup_mem(t.drop_first(), x);
        let i = choose|i: int|
            0 <= i < t.drop_first().len() && t.drop_first()[i].0 == x && t.drop_first()[i].1
                == table_lookup(t.drop_first(), x)->0;
        assert(t[i + 1].0 == x && t[i + 1].1 == table_lookup(t, x)->0);
    }
}

/// Player/arena-state table for client versions at or above 0.11.11.
pub open spec fn table_player_0_11_11() -> Seq<(i64, FieldTag)> {
    seq![
        (0x02, FieldTag::EntityId),
        (0x04, FieldTag::ClanColor),
        (0x06, FieldTag::ClanTag),
        (0x0B, FieldTag::Id),
        (0x0F, FieldTag::IsBot),
        (0x18, FieldTag::MaxHealth),
        (0x19, FieldTag::Name),
        (0x1F, FieldTag::ShipComponents),
        (0x21, FieldTag::ShipId),
        (0x22, FieldTag::ShipParamsId),
        (0x23, FieldTag::SkinId),
        (0x24, FieldTag::TeamId),
    ]
}

/// Player/arena-state table for client versions at or above 0.10.9 and
/// below 0.11.11.
pub open spec fn table_player_0_10_9() -> Seq<(i64, FieldTag)> {
    seq![
        (0x02, FieldTag::EntityId),
        (0x04, FieldTag::ClanColor),
        (0x06, FieldTag::ClanTag),
        (0x0B, FieldTag::Id),
        (0x0F, FieldTag::IsBot),
        (0x17, FieldTag::MaxHealth),
        (0x18, FieldTag::Name),
        (0x1E, FieldTag::ShipComponents),
        (0x20, FieldTag::ShipId),
        (0x21, FieldTag::ShipParamsId),
        (0x22, FieldTag::SkinId),
        (0x23, FieldTag::TeamId),
    ]
}

/// Player/arena-state table for client versions above 0.10.6 and below
/// 0.10.9.
pub open spec fn table_player_0_10_6() -> Seq<(i64, FieldTag)> {
    seq![
        (0x01, FieldTag::EntityId),
        (0x03, FieldTag::ClanColor),
        (0x05, FieldTag::ClanTag),
        (0x0A, FieldTag::Id),
        (0x0E, FieldTag::IsBot),
        (0x16, FieldTag::MaxHealth),
        (0x17, FieldTag::Name),
        (0x1D, FieldTag::ShipComponents),
        (0x1E, FieldTag::ShipId),
        (0x1F, FieldTag::ShipParamsId),
        (0x20, FieldTag::SkinId),
        (0x21, FieldTag::TeamId),
    ]
}

/// Player/arena-state table for client versions at or below 0.10.6.
pub open spec fn table_player_pre_0_10_6() -> Seq<(i64, FieldTag)> {
    seq![
        (0x01, FieldTag::EntityId),
        (0x03, FieldTag::ClanColor),
        (0x05, FieldTag::ClanTag),
        (0x0A, FieldTag::Id),
        (0x0E, FieldTag::IsBot),
        (0x15, FieldTag::MaxHealth),
        (0x16, FieldTag::Name),
        (0x1C, FieldTag::ShipComponents),
        (0x1D, FieldTag::ShipId),
        (0x1E, FieldTag::ShipParamsId),
        (0x1F, FieldTag::SkinId),
        (0x20, FieldTag::TeamId),
    ]
}

/// Bot table; one fixed layout regardless of version.  Bot instances carry
/// no entity id field.
pub open spec fn table_bot() -> Seq<(i64, FieldTag)> {
    seq![
        (0x03, FieldTag::ClanColor),
        (0x05, FieldTag::ClanTag),
        (0x0A, FieldTag::Id),
        (0x0D, FieldTag::IsBot),
        (0x12, FieldTag::MaxHealth),
        (0x13, FieldTag::Name),
        (0x15, FieldTag::ShipComponents),
        (0x17, FieldTag::ShipId),
        (0x18, FieldTag::ShipParamsId),
        (0x19, FieldTag::SkinId),
        (0x1A, FieldTag::TeamId),
    ]
}

/// The player table the given packed version resolves to: a descending
/// threshold ladder, first match wins, versions at or below the oldest
/// breakpoint use the earliest table.
pub open spec fn spec_player_schema(version: u32) -> Seq<(i64, FieldTag)> {
    if version >= packed_version(0, 11, 11, 0) {
        table_player_0_11_11()
    } else if version >= packed_version(0, 10, 9, 0) {
        table_player_0_10_9()
    } else if version > packed_version(0, 10, 6, 0) {
        table_player_0_10_6()
    } else {
        table_player_pre_0_10_6()
    }
}

/// Every representable version resolves to exactly one player table, and
/// the ladder is monotone at the documented breakpoints: each table is
/// returned exactly on its own version range.
pub proof fn lemma_player_schema_resolution(version: u32)
    ensures
        spec_player_schema(version) == table_player_0_11_11() <==> version >= packed_version(
            0,
            11,
            11,
            0,
        ),
        spec_player_schema(version) == table_player_0_10_9() <==> (packed_version(0, 10, 9, 0)
            <= version < packed_version(0, 11, 11, 0)),
        spec_player_schema(version) == table_player_0_10_6() <==> (packed_version(0, 10, 6, 0)
            < version < packed_version(0, 10, 9, 0)),
        spec_player_schema(version) == table_player_pre_0_10_6() <==> version <= packed_version(
            0,
            10,
            6,
            0,
        ),
{
    assert(table_player_0_11_11()[5].0 != table_player_0_10_9()[5].0);
    assert(table_player_0_11_11()[0].0 != table_player_0_10_6()[0].0);
    assert(table_player_0_11_11()[0].0 != table_player_pre_0_10_6()[0].0);
    assert(table_player_0_10_9()[0].0 != table_player_0_10_6()[0].0);
    assert(table_player_0_10_9()[0].0 != table_player_pre_0_10_6()[0].0);
    assert(table_player_0_10_6()[5].0 != table_player_pre_0_10_6()[5].0);
}

/// Builds the player table for the given packed version.
pub fn resolve_player_schema(version: u32) -> (t: SchemaTable)
    ensures
        t.entries@ == spec_player_schema(version),
        t.wf(),
{
    let entries: Vec<(i64, FieldTag)> = if version >= create_version(0, 11, 11, 0) {
        vec![
            (0x02, FieldTag::EntityId),
            (0x04, FieldTag::ClanColor),
            (0x06, FieldTag::ClanTag),
            (0x0B, FieldTag::Id),
            (0x0F, FieldTag::IsBot),
            (0x18, FieldTag::MaxHealth),
            (0x19, FieldTag::Name),
            (0x1F, FieldTag::ShipComponents),
            (0x21, FieldTag::ShipId),
            (0x22, FieldTag::ShipParamsId),
            (0x23, FieldTag::SkinId),
            (0x24, FieldTag::TeamId),
        ]
    } else if version >= create_version(0, 10, 9, 0) {
        vec![
            (0x02, FieldTag::EntityId),
            (0x04, FieldTag::ClanColor),
            (0x06, FieldTag::ClanTag),
            (0x0B, FieldTag::Id),
            (0x0F, FieldTag::IsBot),
            (0x17, FieldTag::MaxHealth),
            (0x18, FieldTag::Name),
            (0x1E, FieldTag::ShipComponents),
            (0x20, FieldTag::ShipId),
            (0x21, FieldTag::ShipParamsId),
            (0x22, FieldTag::SkinId),
            (0x23, FieldTag::TeamId),
        ]
    } else if version > create_version(0, 10, 6, 0) {
        vec![
            (0x01, FieldTag::EntityId),
            (0x03, FieldTag::ClanColor),
            (0x05, FieldTag::ClanTag),
            (0x0A, FieldTag::Id),
            (0x0E, FieldTag::IsBot),
            (0x16, FieldTag::MaxHealth),
            (0x17, FieldTag::Name),
            (0x1D, FieldTag::ShipComponents),
            (0x1E, FieldTag::ShipId),
            (0x1F, FieldTag::ShipParamsId),
            (0x20, FieldTag::SkinId),
            (0x21, FieldTag::TeamId),
        ]
    } else {
        vec![
            (0x01, FieldTag::EntityId),
            (0x03, FieldTag::ClanColor),
            (0x05, FieldTag::ClanTag),
            (0x0A, FieldTag::Id),
            (0x0E, FieldTag::IsBot),
            (0x15, FieldTag::MaxHealth),
            (0x16, FieldTag::Name),
            (0x1C, FieldTag::ShipComponents),
            (0x1D, FieldTag::ShipId),
            (0x1E, FieldTag::ShipParamsId),
            (0x1F, FieldTag::SkinId),
            (0x20, FieldTag::TeamId),
        ]
    };
    proof {
        assert(entries@ =~= spec_player_schema(version));
    }
    SchemaTable { entries }
}

/// Builds the bot table; bots use one fixed layout regardless of version.
pub fn resolve_bot_schema() -> (t: SchemaTable)
    ensures
        t.entries@ == table_bot(),
        t.wf(),
{
    let entries: Vec<(i64, FieldTag)> = vec![
        (0x03, FieldTag::ClanColor),
        (0x05, FieldTag::ClanTag),
        (0x0A, FieldTag::Id),
        (0x0D, FieldTag::IsBot),
        (0x12, FieldTag::MaxHealth),
        (0x13, FieldTag::Name),
        (0x15, FieldTag::ShipComponents),
        (0x17, FieldTag::ShipId),
        (0x18, FieldTag::ShipParamsId),
        (0x19, FieldTag::SkinId),
        (0x1A, FieldTag::TeamId),
    ];
    proof {
        assert(entries@ =~= table_bot());
    }
    SchemaTable { entries }
}

/// Looks a field index up in a schema table.
pub fn lookup_tag(t: &SchemaTable, idx: i64) -> (r: Option<FieldTag>)
    ensures
        r == table_lookup(t.entries@, idx),
{
    let n = t.entries.len();
    let mut i: usize = 0;
    proof {
        assert(t.entries@.skip(0) =~= t.entries@);
    }
    while i < n
        invariant
            n == t.entries@.len(),
            i <= n,
            table_lookup(t.entries@, idx) == table_lookup(t.entries@.skip(i as int), idx),
        decreases n - i,
    {
        let (e_idx, e_tag) = t.entries[i];
        if e_idx == idx {
            proof {
                assert(t.entries@.skip(i as int)[0] == t.entries@[i as int]);
            }
            return Some(e_tag);
        }
        proof {
            assert(t.entries@.skip(i as int).drop_first() =~= t.entries@.skip(i as int + 1));
        }
        i = i + 1;
    }
    proof {
        assert(t.entries@.skip(n as int).len() == 0);
    }
    None
}

} // verus!
