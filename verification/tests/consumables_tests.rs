use replay_analyzer::create_version;
use replay_analyzer::parse_set_consumables;
use replay_analyzer::parse_set_consumables_tuple;
use replay_analyzer::GenericValue;
use replay_analyzer::SetConsumable;

fn begin() -> Vec<u8> {
    vec![0x80, 0x02]
}

fn done(mut b: Vec<u8>) -> Vec<u8> {
    b.push(b'.');
    b
}

fn put_u8(b: &mut Vec<u8>, n: u8) {
    b.push(b'K');
    b.push(n);
}

fn put_f64(b: &mut Vec<u8>, f: f64) {
    b.push(b'G');
    b.extend_from_slice(&f.to_be_bytes());
}

fn put_bool(b: &mut Vec<u8>, v: bool) {
    b.push(if v { 0x88 } else { 0x89 });
}

fn put_bytes(b: &mut Vec<u8>, s: &[u8]) {
    b.push(b'U');
    b.push(s.len() as u8);
    b.extend_from_slice(s);
}

/// One consumable entry `(id, (u1, count, u2, u3))`.
fn put_entry(b: &mut Vec<u8>, id: u8, u1: u8, count: u8, u2: bool, u3: f64) {
    put_u8(b, id);
    b.push(b'(');
    put_u8(b, u1);
    put_u8(b, count);
    put_bool(b, u2);
    put_f64(b, u3);
    b.push(b't');
    b.push(0x86);
}

/// `[(1, (10, 5, True, 0.5)), (2, (20, 3, False, 1.5))]`.
fn consumable_list() -> Vec<u8> {
    let mut b = Vec::new();
    b.push(b']');
    b.push(b'(');
    put_entry(&mut b, 1, 10, 5, true, 0.5);
    put_entry(&mut b, 2, 20, 3, false, 1.5);
    b.push(b'e');
    b
}

fn expected_records() -> Vec<(i64, i64, i64, bool, f64)> {
    vec![(1, 10, 5, true, 0.5), (2, 20, 3, false, 1.5)]
}

fn record_tuples(v: &[SetConsumable]) -> Vec<(i64, i64, i64, bool, f64)> {
    v.iter().map(|c| (c.id, c.u1, c.count, c.u2, f64::from_bits(c.u3_bits))).collect()
}

#[test]
fn legacy_shape_decodes_bare_list() {
    let mut b = begin();
    b.extend_from_slice(&consumable_list());
    let r = parse_set_consumables(&done(b), create_version(13, 1, 255, 255));
    assert!(!r.is_error, "{}", r.error);
    assert_eq!(record_tuples(&r.value), expected_records());
}

#[test]
fn newer_shape_decodes_dict_wrapped_list() {
    let mut b = begin();
    b.push(b'}');
    put_bytes(&mut b, b"consumablesDict");
    b.extend_from_slice(&consumable_list());
    b.push(b's');
    let r = parse_set_consumables(&done(b), create_version(13, 2, 0, 0));
    assert!(!r.is_error, "{}", r.error);
    assert_eq!(record_tuples(&r.value), expected_records());
}

#[test]
fn missing_fixed_key_is_rejected() {
    let mut b = begin();
    b.push(b'}');
    put_bytes(&mut b, b"somethingElse");
    b.extend_from_slice(&consumable_list());
    b.push(b's');
    let r = parse_set_consumables(&done(b), create_version(13, 2, 0, 0));
    assert!(r.is_error);
    assert_eq!(r.error, "no such key 'consumablesDict'");
    assert!(r.value.is_empty());
}

#[test]
fn newer_shape_requires_a_dict() {
    let mut b = begin();
    b.extend_from_slice(&consumable_list());
    let r = parse_set_consumables(&done(b), create_version(13, 2, 0, 0));
    assert!(r.is_error);
    assert_eq!(r.error, "value is not a dict");
}

#[test]
fn legacy_shape_requires_a_list() {
    let mut b = begin();
    b.push(b'}');
    let r = parse_set_consumables(&done(b), create_version(13, 1, 0, 0));
    assert!(r.is_error);
    assert_eq!(r.error, "value is not a list");
}

#[test]
fn outer_tuple_arity_is_checked() {
    // [(1,)] — the entry has one element, not two.
    let mut b = begin();
    b.push(b']');
    b.push(b'(');
    put_u8(&mut b, 1);
    b.push(0x85);
    b.push(b'e');
    let r = parse_set_consumables(&done(b), create_version(13, 0, 0, 0));
    assert!(r.is_error);
    assert_eq!(r.error, "consumable tuple has length != 2 (id, value_tuple)");
}

#[test]
fn inner_tuple_arity_is_checked() {
    // [(1, (10, 5, True))] — the value tuple has three elements, not four.
    let mut b = begin();
    b.push(b']');
    b.push(b'(');
    put_u8(&mut b, 1);
    put_u8(&mut b, 10);
    put_u8(&mut b, 5);
    put_bool(&mut b, true);
    b.push(0x87);
    b.push(0x86);
    b.push(b'e');
    let r = parse_set_consumables(&done(b), create_version(13, 0, 0, 0));
    assert!(r.is_error);
    assert_eq!(r.error, "consumable tuple has length != 4 (id, value_tuple)");
}

#[test]
fn entry_that_is_no_tuple_is_rejected() {
    let value = GenericValue::Sequence(vec![GenericValue::Integer(5)]);
    let r = parse_set_consumables_tuple(value);
    assert!(r.is_error);
    assert_eq!(r.error, "consumable value is not a tuple");
}

#[test]
fn non_integer_id_is_rejected() {
    let inner = GenericValue::FixedTuple(vec![
        GenericValue::Integer(10),
        GenericValue::Integer(5),
        GenericValue::Boolean(true),
        GenericValue::Float(0.5f64.to_bits()),
    ]);
    let entry = GenericValue::FixedTuple(vec![GenericValue::Boolean(false), inner]);
    let r = parse_set_consumables_tuple(GenericValue::Sequence(vec![entry]));
    assert!(r.is_error);
    assert_eq!(r.error, "consumable id is not an integer");
}

#[test]
fn non_float_last_field_is_rejected() {
    let inner = GenericValue::FixedTuple(vec![
        GenericValue::Integer(10),
        GenericValue::Integer(5),
        GenericValue::Boolean(true),
        GenericValue::Integer(7),
    ]);
    let entry = GenericValue::FixedTuple(vec![GenericValue::Integer(1), inner]);
    let r = parse_set_consumables_tuple(GenericValue::Sequence(vec![entry]));
    assert!(r.is_error);
    assert_eq!(r.error, "consumable field is not a float");
}

#[test]
fn direct_tuple_decode_produces_exact_records() {
    let inner = GenericValue::FixedTuple(vec![
        GenericValue::Integer(10),
        GenericValue::Integer(5),
        GenericValue::Boolean(true),
        GenericValue::Float(0.5f64.to_bits()),
    ]);
    let entry = GenericValue::FixedTuple(vec![GenericValue::Integer(1), inner]);
    let r = parse_set_consumables_tuple(GenericValue::Sequence(vec![entry]));
    assert!(!r.is_error);
    assert_eq!(record_tuples(&r.value), vec![(1, 10, 5, true, 0.5)]);
}

#[test]
fn empty_list_gives_empty_records() {
    let r = parse_set_consumables_tuple(GenericValue::Sequence(Vec::new()));
    assert!(!r.is_error);
    assert!(r.value.is_empty());
}
