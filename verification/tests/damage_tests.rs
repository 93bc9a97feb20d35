use replay_analyzer::parse_receive_damage_stat;

fn begin() -> Vec<u8> {
    vec![0x80, 0x02]
}

fn done(mut b: Vec<u8>) -> Vec<u8> {
    b.push(b'.');
    b
}

fn put_u8(b: &mut Vec<u8>, n: u8) {
    b.push(b'K');
    b.push(n);
}

fn put_f64(b: &mut Vec<u8>, f: f64) {
    b.push(b'G');
    b.extend_from_slice(&f.to_be_bytes());
}

fn tuple2(b: &mut Vec<u8>) {
    b.push(0x86);
}

/// `{(1, 0): (3, 12.5), (2, 1): (1, 4.0)}` as a pickle byte buffer.
fn damage_dict(reversed: bool) -> Vec<u8> {
    let mut b = begin();
    b.push(b'}');
    b.push(b'(');
    let mut entry = |b: &mut Vec<u8>, k0: u8, k1: u8, hits: u8, dmg: f64| {
        put_u8(b, k0);
        put_u8(b, k1);
        tuple2(b);
        put_u8(b, hits);
        put_f64(b, dmg);
        tuple2(b);
    };
    if reversed {
        entry(&mut b, 2, 1, 1, 4.0);
        entry(&mut b, 1, 0, 3, 12.5);
    } else {
        entry(&mut b, 1, 0, 3, 12.5);
        entry(&mut b, 2, 1, 1, 4.0);
    }
    b.push(b'u');
    done(b)
}

#[test]
fn decodes_two_records_with_matching_fields() {
    let r = parse_receive_damage_stat(&damage_dict(false));
    assert!(!r.is_error, "{}", r.error);
    assert_eq!(r.error, "");
    assert_eq!(r.value.len(), 2);
    let mut seen: Vec<(i64, i64, i64, f32)> = r
        .value
        .iter()
        .map(|d| (d.damage_type, d.damage_flag, d.hits, f64::from_bits(d.damage_bits) as f32))
        .collect();
    seen.sort_by(|a, b| a.partial_cmp(b).unwrap());
    assert_eq!(seen, vec![(1, 0, 3, 12.5f32), (2, 1, 1, 4.0f32)]);
}

#[test]
fn record_set_is_independent_of_entry_order() {
    let a = parse_receive_damage_stat(&damage_dict(false));
    let b = parse_receive_damage_stat(&damage_dict(true));
    assert!(!a.is_error && !b.is_error);
    let key = |d: &replay_analyzer::ReceiveDamageStat| (d.damage_type, d.damage_flag, d.hits, d.damage_bits);
    let mut ka: Vec<_> = a.value.iter().map(key).collect();
    let mut kb: Vec<_> = b.value.iter().map(key).collect();
    ka.sort();
    kb.sort();
    assert_eq!(ka, kb);
}

#[test]
fn non_dict_value_is_rejected() {
    // A bare list instead of the expected dictionary.
    let mut b = begin();
    b.push(b']');
    b.push(b'(');
    put_u8(&mut b, 1);
    b.push(b'e');
    let r = parse_receive_damage_stat(&done(b));
    assert!(r.is_error);
    assert_eq!(r.error, "value is not a dict");
    assert!(r.value.is_empty());
}

#[test]
fn bad_key_shape_is_rejected() {
    // {7: (3, 12.5)} — the key is not a pair of integers.
    let mut b = begin();
    b.push(b'}');
    put_u8(&mut b, 7);
    put_u8(&mut b, 3);
    put_f64(&mut b, 12.5);
    tuple2(&mut b);
    b.push(b's');
    let r = parse_receive_damage_stat(&done(b));
    assert!(r.is_error);
    assert_eq!(r.error, "damage stat key is not a pair of integers");
}

#[test]
fn bad_value_shape_is_rejected() {
    // {(1, 0): 5} — the value is not a (hits, damage) pair.
    let mut b = begin();
    b.push(b'}');
    put_u8(&mut b, 1);
    put_u8(&mut b, 0);
    tuple2(&mut b);
    put_u8(&mut b, 5);
    b.push(b's');
    let r = parse_receive_damage_stat(&done(b));
    assert!(r.is_error);
    assert_eq!(r.error, "damage stat value is not a pair of hits and damage");
}

#[test]
fn malformed_buffer_is_rejected_with_message() {
    let r = parse_receive_damage_stat(&[0x80]);
    assert!(r.is_error);
    assert!(!r.error.is_empty());
    assert!(r.value.is_empty());
}

#[test]
fn empty_dict_gives_empty_records() {
    let mut b = begin();
    b.push(b'}');
    let r = parse_receive_damage_stat(&done(b));
    assert!(!r.is_error);
    assert!(r.value.is_empty());
}
