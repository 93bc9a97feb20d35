use replay_analyzer::create_version;

#[test]
fn packs_components_into_ordered_integer() {
    assert_eq!(create_version(0, 11, 11, 0), 0x000B_0B00);
    assert_eq!(create_version(0, 10, 9, 0), 0x000A_0900);
    assert_eq!(create_version(0, 10, 6, 0), 0x000A_0600);
    assert_eq!(create_version(13, 2, 0, 0), 0x0D02_0000);
    assert_eq!(create_version(255, 255, 255, 255), 0xFFFF_FFFF);
    assert_eq!(create_version(0, 0, 0, 0), 0);
}

#[test]
fn packed_order_matches_component_order() {
    assert!(create_version(0, 11, 10, 255) < create_version(0, 11, 11, 0));
    assert!(create_version(0, 11, 11, 0) < create_version(0, 11, 11, 1));
    assert!(create_version(12, 255, 255, 255) < create_version(13, 2, 0, 0));
    assert!(create_version(1, 0, 0, 0) > create_version(0, 255, 255, 255));
}
