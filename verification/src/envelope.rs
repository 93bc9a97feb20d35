//! Typed output records and the uniform success/failure envelopes the
//! boundary operations return.
//!
//! An envelope either carries the decoded record collection (no message) or
//! a descriptive error message (empty collection) — never both.  Float
//! payloads are carried as their raw IEEE-754 bit patterns.
use vstd::prelude::*;

verus! {

/// One damage statistics record.  `damage_bits` holds the wire float's
/// IEEE-754 double bit pattern.
#[derive(Debug, Clone, Copy, PartialEq, Eq, Structural)]
pub struct ReceiveDamageStat {
    pub damage_type: i64,
    pub damage_flag: i64,
    pub hits: i64,
    pub damage_bits: u64,
}

/// One key/value pair of a decoded ship components map.
#[derive(Debug, Clone)]
pub struct KeyValuePair {
    pub key: String,
    pub value: String,
}

impl View for KeyValuePair {
    type V = (Seq<char>, Seq<char>);

    open spec fn view(&self) -> Self::V {
        (self.key@, self.value@)
    }
}

/// The images of a sequence of key/value pairs.
pub open spec fn kv_seq_view(s: Seq<KeyValuePair>) -> Seq<(Seq<char>, Seq<char>)> {
    s.map(|_i: int, kv: KeyValuePair| kv@)
}

/// One decoded player or bot record.  Fields a record instance does not
/// carry keep their zero-equivalent defaults.
#[derive(Debug, Clone)]
pub struct OnArenaStateReceivedPlayer {
    pub entity_id: i64,
    pub id: i64,
    pub is_bot: bool,
    pub ship_id: i64,
    pub skin_id: i64,
    pub team_id: i64,
    pub ship_params_id: i64,
    pub max_health: i64,
    pub ship_components: Vec<KeyValuePair>,
    pub name: String,
    pub clan_tag: String,
    pub clan_color: i64,
}

/// The mathematical image of a player record: every text field as a
/// character sequence.
pub struct PlayerV {
    pub entity_id: i64,
    pub id: i64,
    pub is_bot: bool,
    pub ship_id: i64,
    pub skin_id: i64,
    pub team_id: i64,
    pub ship_params_id: i64,
    pub max_health: i64,
    pub ship_components: Seq<(Seq<char>, Seq<char>)>,
    pub name: Seq<char>,
    pub clan_tag: Seq<char>,
    pub clan_color: i64,
}

impl View for OnArenaStateReceivedPlayer {
    type V = PlayerV;

    open spec fn view(&self) -> PlayerV {
        PlayerV {
            entity_id: self.entity_id,
            id: self.id,
            is_bot: self.is_bot,
            ship_id: self.ship_id,
            skin_id: self.skin_id,
            team_id: self.team_id,
            ship_params_id: self.ship_params_id,
            max_health: self.max_health,
            ship_components: kv_seq_view(self.ship_components@),
            name: self.name@,
            clan_tag: self.clan_tag@,
            clan_color: self.clan_color,
        }
    }
}

/// The image of a freshly created player record: all fields at their
/// zero-equivalent defaults.
pub open spec fn player_default() -> PlayerV {
    PlayerV {
        entity_id: 0,
        id: 0,
        is_bot: false,
        ship_id: 0,
        skin_id: 0,
        team_id: 0,
        ship_params_id: 0,
        max_health: 0,
        ship_components: Seq::empty(),
        name: Seq::empty(),
        clan_tag: Seq::empty(),
        clan_color: 0,
    }
}

impl Default for OnArenaStateReceivedPlayer {
    /// A record with every field at its zero-equivalent default.
    fn default() -> (r: Self)
        ensures
            r@ == player_default(),
    {
        let r = OnArenaStateReceivedPlayer {
            entity_id: 0,
            id: 0,
            is_bot: false,
            ship_id: 0,
            skin_id: 0,
            team_id: 0,
            ship_params_id: 0,
            max_health: 0,
            ship_components: Vec::new(),
            name: String::new(),
            clan_tag: String::new(),
            clan_color: 0,
        };
        proof {
            assert(r@.ship_components =~= Seq::<(Seq<char>, Seq<char>)>::empty());
        }
        r
    }
}

/// One active consumable record.  `u3_bits` holds the wire float's IEEE-754
/// double bit pattern.
#[derive(Debug, Clone, Copy, PartialEq, Eq, Structural)]
pub struct SetConsumable {
    pub id: i64,
    pub u1: i64,
    pub count: i64,
    pub u2: bool,
    pub u3_bits: u64,
}

/// A success/failure envelope: either a record collection, or a descriptive
/// error message and an empty collection.
pub trait ErrorType<T, E>: Sized {
    /// Whether this envelope carries a failure.
    spec fn spec_is_error(&self) -> bool;

    /// The message this envelope carries.
    spec fn spec_error(&self) -> Seq<char>;

    /// The record collection this envelope carries.
    spec fn spec_value(&self) -> T;

    /// Whether the carried record collection is empty.
    spec fn value_is_empty(&self) -> bool;

    /// The message text of an error value.
    spec fn err_view(err: &E) -> Seq<char>;

    /// Wraps an error from the underlying deserializer.
    fn new_error(err: E) -> (r: Self)
        ensures
            r.spec_is_error(),
            r.spec_error() == Self::err_view(&err),
            r.value_is_empty();

    /// Wraps a descriptive error message.
    fn new_error_from_str(err: String) -> (r: Self)
        ensures
            r.spec_is_error(),
            r.spec_error() == err@,
            r.value_is_empty();

    /// Wraps a successfully decoded record collection.
    fn new_result(res: T) -> (r: Self)
        ensures
            !r.spec_is_error(),
            r.spec_value() == res,
            r.spec_error() == Seq::<char>::empty();
}

/// Envelope for damage statistics decoding.
#[derive(Debug)]
pub struct ReceiveDamageStatResult {
    pub is_error: bool,
    pub error: String,
    pub value: Vec<ReceiveDamageStat>,
}

impl ErrorType<Vec<ReceiveDamageStat>, String> for ReceiveDamageStatResult {
    open spec fn spec_is_error(&self) -> bool {
        self.is_error
    }

    open spec fn spec_error(&self) -> Seq<char> {
        self.error@
    }

    open spec fn spec_value(&self) -> Vec<ReceiveDamageStat> {
        self.value
    }

    open spec fn value_is_empty(&self) -> bool {
        self.value@.len() == 0
    }

    open spec fn err_view(err: &String) -> Seq<char> {
        err@
    }

    fn new_error(err: String) -> (r: Self) {
        ReceiveDamageStatResult { is_error: true, error: err, value: Vec::new() }
    }

    fn new_error_from_str(err: String) -> (r: Self) {
        ReceiveDamageStatResult { is_error: true, error: err, value: Vec::new() }
    }

    fn new_result(res: Vec<ReceiveDamageStat>) -> (r: Self) {
        ReceiveDamageStatResult { is_error: false, error: String::new(), value: res }
    }
}

/// Envelope for player and bot state decoding.
#[derive(Debug)]
pub struct OnArenaStateReceivedPlayerResult {
    pub is_error: bool,
    pub error: String,
    pub value: Vec<OnArenaStateReceivedPlayer>,
}

impl ErrorType<Vec<OnArenaStateReceivedPlayer>, String> for OnArenaStateReceivedPlayerResult {
    open spec fn spec_is_error(&self) -> bool {
        self.is_error
    }

    open spec fn spec_error(&self) -> Seq<char> {
        self.error@
    }

    open spec fn spec_value(&self) -> Vec<OnArenaStateReceivedPlayer> {
        self.value
    }

    open spec fn value_is_empty(&self) -> bool {
        self.value@.len() == 0
    }

    open spec fn err_view(err: &String) -> Seq<char> {
        err@
    }

    fn new_error(err: String) -> (r: Self) {
        OnArenaStateReceivedPlayerResult { is_error: true, error: err, value: Vec::new() }
    }

    fn new_error_from_str(err: String) -> (r: Self) {
        OnArenaStateReceivedPlayerResult { is_error: true, error: err, value: Vec::new() }
    }

    fn new_result(res: Vec<OnArenaStateReceivedPlayer>) -> (r: Self) {
        OnArenaStateReceivedPlayerResult { is_error: false, error: String::new(), value: res }
    }
}

/// Envelope for consumable decoding.
#[derive(Debug)]
pub struct SetConsumablesResult {
    pub is_error: bool,
    pub error: String,
    pub value: Vec<SetConsumable>,
}

impl ErrorType<Vec<SetConsumable>, String> for SetConsumablesResult {
    open spec fn spec_is_error(&self) -> bool {
        self.is_error
    }

    open spec fn spec_error(&self) -> Seq<char> {
        self.error@
    }

    open spec fn spec_value(&self) -> Vec<SetConsumable> {
        self.value
    }

    open spec fn value_is_empty(&self) -> bool {
        self.value@.len() == 0
    }

    open spec fn err_view(err: &String) -> Seq<char> {
        err@
    }

    fn new_error(err: String) -> (r: Self) {
        SetConsumablesResult { is_error: true, error: err, value: Vec::new() }
    }

    fn new_error_from_str(err: String) -> (r: Self) {
        SetConsumablesResult { is_error: true, error: err, value: Vec::new() }
    }

    fn new_result(res: Vec<SetConsumable>) -> (r: Self) {
        SetConsumablesResult { is_error: false, error: String::new(), value: res }
    }
}

} // verus!
