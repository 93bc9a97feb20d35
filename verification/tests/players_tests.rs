use replay_analyzer::create_version;
use replay_analyzer::extract::extract_player;
use replay_analyzer::parse_arena_state_received_bots;
use replay_analyzer::parse_arena_state_received_players;
use replay_analyzer::schema::resolve_bot_schema;
use replay_analyzer::schema::resolve_player_schema;
use replay_analyzer::GenericValue;

fn begin() -> Vec<u8> {
    vec![0x80, 0x02]
}

fn done(mut b: Vec<u8>) -> Vec<u8> {
    b.push(b'.');
    b
}

fn put_u8(b: &mut Vec<u8>, n: u8) {
    b.push(b'K');
    b.push(n);
}

fn put_bytes(b: &mut Vec<u8>, s: &[u8]) {
    b.push(b'U');
    b.push(s.len() as u8);
    b.extend_from_slice(s);
}

/// One (index, integer value) pair.
fn put_int_pair(b: &mut Vec<u8>, idx: u8, v: u8) {
    put_u8(b, idx);
    put_u8(b, v);
    b.push(0x86);
}

/// One (index, byte-string value) pair.
fn put_bytes_pair(b: &mut Vec<u8>, idx: u8, v: &[u8]) {
    put_u8(b, idx);
    put_bytes(b, v);
    b.push(0x86);
}

#[test]
fn full_player_record_is_extracted() {
    // One instance under the newest player table, every extracted field
    // present, plus an index the table does not know.
    let mut b = begin();
    b.push(b']');
    b.push(b'(');
    {
        b.push(b']');
        b.push(b'(');
        put_int_pair(&mut b, 0x02, 100);  // entity id
        put_int_pair(&mut b, 0x04, 3);  // clan color
        put_bytes_pair(&mut b, 0x06, b"CLAN");  // clan tag
        put_int_pair(&mut b, 0x0B, 7);  // id
        // is-bot flag: True
        put_u8(&mut b, 0x0F);
        b.push(0x88);
        b.push(0x86);
        put_int_pair(&mut b, 0x18, 250);  // max health
        put_bytes_pair(&mut b, 0x19, b"PlayerOne");  // name
        // ship components {b"engine": b"mod1"}
        put_u8(&mut b, 0x1F);
        b.push(b'}');
        put_bytes(&mut b, b"engine");
        put_bytes(&mut b, b"mod1");
        b.push(b's');
        b.push(0x86);
        put_int_pair(&mut b, 0x21, 42);  // ship id
        put_int_pair(&mut b, 0x22, 9);  // ship params id
        put_int_pair(&mut b, 0x23, 2);  // skin id
        put_int_pair(&mut b, 0x24, 1);  // team id
        put_int_pair(&mut b, 0x7F, 5);  // unknown index, silently skipped
        b.push(b'e');
    }
    b.push(b'e');
    let r = parse_arena_state_received_players(&done(b), create_version(0, 11, 11, 0));
    assert!(!r.is_error, "{}", r.error);
    assert_eq!(r.value.len(), 1);
    let p = &r.value[0];
    assert_eq!(p.entity_id, 100);
    assert_eq!(p.id, 7);
    assert!(p.is_bot);
    assert_eq!(p.ship_id, 42);
    assert_eq!(p.skin_id, 2);
    assert_eq!(p.team_id, 1);
    assert_eq!(p.ship_params_id, 9);
    assert_eq!(p.max_health, 250);
    assert_eq!(p.name, "PlayerOne");
    assert_eq!(p.clan_tag, "CLAN");
    assert_eq!(p.clan_color, 3);
    assert_eq!(p.ship_components.len(), 1);
    assert_eq!(p.ship_components[0].key, "engine");
    assert_eq!(p.ship_components[0].value, "mod1");
}

#[test]
fn absent_fields_keep_defaults() {
    // An instance carrying only the ship id.
    let mut b = begin();
    b.push(b']');
    b.push(b'(');
    b.push(b']');
    b.push(b'(');
    put_int_pair(&mut b, 0x21, 42);
    b.push(b'e');
    b.push(b'e');
    let r = parse_arena_state_received_players(&done(b), create_version(0, 11, 11, 0));
    assert!(!r.is_error, "{}", r.error);
    let p = &r.value[0];
    assert_eq!(p.ship_id, 42);
    assert_eq!(p.entity_id, 0);
    assert_eq!(p.max_health, 0);
    assert_eq!(p.name, "");
    assert_eq!(p.clan_tag, "");
    assert!(!p.is_bot);
    assert!(p.ship_components.is_empty());
}

#[test]
fn empty_batch_gives_no_records() {
    let mut b = begin();
    b.push(b']');
    let r = parse_arena_state_received_players(&done(b), create_version(0, 11, 11, 0));
    assert!(!r.is_error);
    assert!(r.value.is_empty());
}

#[test]
fn non_list_top_value_is_rejected() {
    let mut b = begin();
    b.push(b'}');
    let r = parse_arena_state_received_players(&done(b), create_version(0, 11, 11, 0));
    assert!(r.is_error);
    assert_eq!(r.error, "player data has the wrong shape");
}

#[test]
fn wrong_variant_at_known_index_is_rejected() {
    // Max health (0x18 under the newest table) carries a byte string.
    let mut b = begin();
    b.push(b']');
    b.push(b'(');
    b.push(b']');
    b.push(b'(');
    put_bytes_pair(&mut b, 0x18, b"oops");
    b.push(b'e');
    b.push(b'e');
    let r = parse_arena_state_received_players(&done(b), create_version(0, 11, 11, 0));
    assert!(r.is_error);
    assert_eq!(r.error, "field value is not an integer");
    assert!(r.value.is_empty());
}

#[test]
fn version_breakpoint_switches_the_table() {
    // Index 0x17 is max health under the 0.10.9 table but unknown under
    // the 0.11.11 table.
    let mut bytes_builder = || {
        let mut b = begin();
        b.push(b']');
        b.push(b'(');
        b.push(b']');
        b.push(b'(');
        put_int_pair(&mut b, 0x17, 200);
        b.push(b'e');
        b.push(b'e');
        done(b)
    };
    let older = parse_arena_state_received_players(&bytes_builder(), create_version(0, 10, 9, 0));
    assert!(!older.is_error);
    assert_eq!(older.value[0].max_health, 200);
    let newer = parse_arena_state_received_players(&bytes_builder(), create_version(0, 11, 11, 0));
    assert!(!newer.is_error);
    assert_eq!(newer.value[0].max_health, 0);
}

#[test]
fn exact_breakpoint_version_resolves_post_threshold_table() {
    // Index 0x18 is max health at the 0.11.11 threshold and the name
    // field one build below it, so the same bytes decode on one side and
    // fail coercion on the other.
    let mut bytes_builder = || {
        let mut b = begin();
        b.push(b']');
        b.push(b'(');
        b.push(b']');
        b.push(b'(');
        put_int_pair(&mut b, 0x18, 77);
        b.push(b'e');
        b.push(b'e');
        done(b)
    };
    let at = parse_arena_state_received_players(&bytes_builder(), 0x000B_0B00);
    assert!(!at.is_error);
    assert_eq!(at.value[0].max_health, 77);
    let below = parse_arena_state_received_players(&bytes_builder(), 0x000B_0B00 - 1);
    assert!(below.is_error);
    assert_eq!(below.error, "field value is not a byte string");
}

#[test]
fn non_utf8_component_fails_the_record() {
    let mut b = begin();
    b.push(b']');
    b.push(b'(');
    b.push(b']');
    b.push(b'(');
    put_u8(&mut b, 0x1F);
    b.push(b'}');
    put_bytes(&mut b, b"k");
    put_bytes(&mut b, &[0xFF, 0xFE]);
    b.push(b's');
    b.push(0x86);
    b.push(b'e');
    b.push(b'e');
    let r = parse_arena_state_received_players(&done(b), create_version(0, 11, 11, 0));
    assert!(r.is_error);
    assert_eq!(r.error, "ShipComponents map k, v are not ascii");
}

#[test]
fn ascii_components_round_trip() {
    let mut b = begin();
    b.push(b']');
    b.push(b'(');
    b.push(b']');
    b.push(b'(');
    put_u8(&mut b, 0x1F);
    b.push(b'}');
    b.push(b'(');
    put_bytes(&mut b, b"engine");
    put_bytes(&mut b, b"mod1");
    put_bytes(&mut b, b"hull");
    put_bytes(&mut b, b"mod2");
    b.push(b'u');
    b.push(0x86);
    b.push(b'e');
    b.push(b'e');
    let r = parse_arena_state_received_players(&done(b), create_version(0, 11, 11, 0));
    assert!(!r.is_error, "{}", r.error);
    let mut pairs: Vec<(String, String)> = r.value[0]
        .ship_components
        .iter()
        .map(|kv| (kv.key.clone(), kv.value.clone()))
        .collect();
    pairs.sort();
    assert_eq!(
        pairs,
        vec![
            ("engine".to_string(), "mod1".to_string()),
            ("hull".to_string(), "mod2".to_string()),
        ],
    );
}

#[test]
fn bot_records_use_the_fixed_bot_table() {
    // Index 0x17 is the bot table's ship id, whatever the version says.
    let mut bytes_builder = || {
        let mut b = begin();
        b.push(b']');
        b.push(b'(');
        b.push(b']');
        b.push(b'(');
        put_int_pair(&mut b, 0x17, 42);
        b.push(b'e');
        b.push(b'e');
        done(b)
    };
    let a = parse_arena_state_received_bots(&bytes_builder(), create_version(0, 10, 0, 0));
    let b = parse_arena_state_received_bots(&bytes_builder(), create_version(13, 9, 0, 0));
    assert!(!a.is_error && !b.is_error);
    assert_eq!(a.value[0].ship_id, 42);
    assert_eq!(b.value[0].ship_id, 42);
}

#[test]
fn bot_is_bot_flag_is_extracted() {
    // The wire carries the bot table's is-bot index with a Boolean value;
    // the output record carries that value.
    let mut b = begin();
    b.push(b']');
    b.push(b'(');
    b.push(b']');
    b.push(b'(');
    put_u8(&mut b, 0x0D);
    b.push(0x88);
    b.push(0x86);
    b.push(b'e');
    b.push(b'e');
    let r = parse_arena_state_received_bots(&done(b), create_version(13, 0, 0, 0));
    assert!(!r.is_error, "{}", r.error);
    assert!(r.value[0].is_bot);
}

#[test]
fn is_bot_index_moves_with_the_table() {
    // The is-bot flag sits at a different index in the oldest player
    // table; under the resolved table the Boolean is still extracted.
    let table = resolve_player_schema(create_version(0, 10, 0, 0));
    let inst = vec![(0x0Ei64, GenericValue::Boolean(true))];
    let p = extract_player(&table, inst).unwrap();
    assert!(p.is_bot);
}

#[test]
fn non_boolean_is_bot_value_is_rejected() {
    let table = resolve_player_schema(create_version(0, 11, 11, 0));
    let inst = vec![(0x0Fi64, GenericValue::Integer(1))];
    let r = extract_player(&table, inst);
    assert_eq!(r.unwrap_err(), "field value is not a boolean");
}

#[test]
fn permuting_distinct_indices_yields_the_same_record() {
    let table = resolve_player_schema(create_version(0, 11, 11, 0));
    let inst_a = vec![
        (0x21i64, GenericValue::Integer(42)),
        (0x19i64, GenericValue::ByteString(b"Someone".to_vec())),
        (0x24i64, GenericValue::Integer(2)),
    ];
    let inst_b = vec![
        (0x24i64, GenericValue::Integer(2)),
        (0x21i64, GenericValue::Integer(42)),
        (0x19i64, GenericValue::ByteString(b"Someone".to_vec())),
    ];
    let a = extract_player(&table, inst_a).unwrap();
    let b = extract_player(&table, inst_b).unwrap();
    assert_eq!(a.ship_id, b.ship_id);
    assert_eq!(a.team_id, b.team_id);
    assert_eq!(a.name, b.name);
    assert_eq!(a.entity_id, b.entity_id);
    assert_eq!(a.name, "Someone");
}

#[test]
fn unknown_index_value_is_ignored_whatever_it_holds() {
    let table = resolve_bot_schema();
    let with_unknown = vec![
        (0x17i64, GenericValue::Integer(9)),
        (999i64, GenericValue::Null),
        (1000i64, GenericValue::Boolean(true)),
    ];
    let without = vec![(0x17i64, GenericValue::Integer(9))];
    let a = extract_player(&table, with_unknown).unwrap();
    let b = extract_player(&table, without).unwrap();
    assert_eq!(a.ship_id, 9);
    assert_eq!(a.ship_id, b.ship_id);
    assert_eq!(a.max_health, b.max_health);
    assert_eq!(a.name, b.name);
}

#[test]
fn repeated_index_is_last_write_wins() {
    let table = resolve_bot_schema();
    let inst = vec![
        (0x17i64, GenericValue::Integer(1)),
        (0x17i64, GenericValue::Integer(2)),
    ];
    let p = extract_player(&table, inst).unwrap();
    assert_eq!(p.ship_id, 2);
}
