//! Decodes opaque, dynamically-typed serialized byte blobs from a game's
//! replay stream into strongly-typed records: player and bot state, damage
//! statistics and active consumables.
//!
//! The wire layout of these records changed across client releases without a
//! shared schema, so extraction is driven by per-version schema tables: a
//! version resolver picks the table, a generic extractor walks each record
//! instance's (index, value) pairs, and composite sub-decoders handle the
//! structured fields.  Every boundary operation returns a result envelope
//! that carries either the decoded records or a descriptive error message.
pub mod components;
pub mod consumables;
pub mod damage;
pub mod envelope;
pub mod extract;
pub mod laws;
pub mod pickle;
pub mod players;
pub mod schema;
pub mod text;
pub mod value;
pub mod version;

pub use consumables::parse_set_consumables;
pub use consumables::parse_set_consumables_tuple;
pub use damage::parse_receive_damage_stat;
pub use envelope::ErrorType;
pub use envelope::KeyValuePair;
pub use envelope::OnArenaStateReceivedPlayer;
pub use envelope::OnArenaStateReceivedPlayerResult;
pub use envelope::ReceiveDamageStat;
pub use envelope::ReceiveDamageStatResult;
pub use envelope::SetConsumable;
pub use envelope::SetConsumablesResult;
pub use players::parse_arena_state_received_bots;
pub use players::parse_arena_state_received_players;
pub use value::GenericValue;
pub use version::create_version;
pub use version::packed_version;
