use else_model::identity::{ClassID, Identity, IdentityGenerator, UniverseID, WorldID, ID, UID};

#[test]
fn test_uid_min_mid_max() {
    let expected: [(UniverseID, WorldID, ClassID, ID); 4] = [
        (UniverseID::MIN, WorldID::MIN, ClassID::MIN, ID::MIN),
        (UniverseID::MIN + 1, WorldID::MIN + 1, ClassID::MIN + 1, ID::MIN + 1),
        (UniverseID::MAX / 2, WorldID::MAX / 2, ClassID::MAX / 2, ID::MAX / 2),
        (UniverseID::MAX, WorldID::MAX, ClassID::MAX, ID::MAX),
    ];

    for (universe_id, world_id, class_id, id) in expected {
        let identity = Identity::new(universe_id, world_id, class_id, id);
        let uid: UID = identity.into();
        let identity = Identity::from(uid);

        assert_eq!(universe_id, identity.universe_id());
        assert_eq!(world_id, identity.world_id());
        assert_eq!(class_id, identity.class_id());
        assert_eq!(id, identity.id());
    }
}

#[test]
fn uid_packs_parts_most_significant_first() {
    let identity = Identity::new(1, 2, 3, 4);
    let uid = identity.to_uid();
    assert_eq!(uid, (1u128 << 112) | (2u128 << 80) | (3u128 << 64) | 4u128);
    assert_eq!(Identity::from_uid(uid).split(), (1, 2, 3, 4));
}

#[test]
fn uid_round_trip_through_identity() {
    let uid: UID = 0x0123_4567_89ab_cdef_fedc_ba98_7654_3210;
    let identity = Identity::from_uid(uid);
    assert_eq!(identity.into_uid(), uid);
}

#[test]
fn generator_counts_up_within_its_world() {
    let mut generator = IdentityGenerator::new(7, 9, 100);
    let first = generator.next_identity(5);
    let second = generator.next_identity(5);
    assert_eq!(first.split(), (7, 9, 5, 100));
    assert_eq!(second.split(), (7, 9, 5, 101));
    assert_eq!(generator.get_next_id(), 102);
}
