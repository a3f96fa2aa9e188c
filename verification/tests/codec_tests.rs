use items::codec::MalformedDefinition;
use items::math::Vec2u;
use items::params::{EquippedItemParams, ItemKind, ItemParams, SpriteParams, WeaponParams};
use items::record::{NestedField, Record, Scalar, Value};

fn sprite_fields(texture: &str, w: i64, h: i64) -> Vec<NestedField> {
    vec![
        NestedField { key: "texture_id".to_string(), value: Scalar::Str(texture.to_string()) },
        NestedField { key: "frame_width".to_string(), value: Scalar::Int(w) },
        NestedField { key: "frame_height".to_string(), value: Scalar::Int(h) },
    ]
}

fn weapon_record() -> Record {
    let mut r = Record::new();
    r.push("type".to_string(), Value::Str("weapon".to_string()));
    r.push("damage".to_string(), Value::Int(35));
    r.push("cooldown".to_string(), Value::Int(12));
    r.push("id".to_string(), Value::Str("musket01".to_string()));
    r.push("sprite".to_string(), Value::Rec(sprite_fields("musket", 64, 32)));
    r.push("collider_size".to_string(), Value::IntList(vec![48, 16]));
    r
}

#[test]
fn weapon_record_decodes_and_preserves_fields() {
    let p = ItemParams::from_record(&weapon_record()).unwrap();
    assert_eq!(p.id, "musket01");
    assert_eq!(
        p.kind,
        ItemKind::Weapon { params: WeaponParams { damage: 35, cooldown: 12 } }
    );
    assert_eq!(p.sprite.texture_id, "musket");
    assert_eq!(p.sprite.frame_width, 64);
    assert_eq!(p.sprite.frame_height, 32);
    assert_eq!(p.collider_size, Vec2u { x: 48, y: 16 });
}

#[test]
fn equipped_item_record_decodes_and_preserves_fields() {
    let mut r = Record::new();
    r.push("type".to_string(), Value::Str("equipped_item".to_string()));
    r.push("duration".to_string(), Value::Int(300));
    r.push("id".to_string(), Value::Str("jetpack01".to_string()));
    r.push("sprite".to_string(), Value::Rec(sprite_fields("jetpack", 32, 32)));
    r.push("collider_size".to_string(), Value::IntList(vec![24, 40]));
    let p = ItemParams::from_record(&r).unwrap();
    assert_eq!(p.id, "jetpack01");
    assert_eq!(
        p.kind,
        ItemKind::EquippedItem { params: EquippedItemParams { duration: 300 } }
    );
    assert!(!p.kind.is_weapon());
}

#[test]
fn missing_discriminant_is_rejected() {
    let mut r = weapon_record();
    let mut without_tag = Record::new();
    // Rebuild the record with every field but the discriminant.
    without_tag.push("damage".to_string(), Value::Int(35));
    without_tag.push("cooldown".to_string(), Value::Int(12));
    without_tag.push("id".to_string(), Value::Str("musket01".to_string()));
    without_tag.push("sprite".to_string(), Value::Rec(sprite_fields("musket", 64, 32)));
    without_tag.push("collider_size".to_string(), Value::IntList(vec![48, 16]));
    assert_eq!(
        ItemParams::from_record(&without_tag),
        Err(MalformedDefinition::MissingField)
    );
    // The complete record still parses; only the tag was missing above.
    assert!(ItemParams::from_record(&r).is_ok());
}

#[test]
fn unrecognized_tag_is_rejected() {
    let mut r = Record::new();
    r.push("type".to_string(), Value::Str("vehicle".to_string()));
    r.push("id".to_string(), Value::Str("car01".to_string()));
    r.push("sprite".to_string(), Value::Rec(sprite_fields("car", 64, 32)));
    r.push("collider_size".to_string(), Value::IntList(vec![48, 16]));
    assert_eq!(
        ItemParams::from_record(&r),
        Err(MalformedDefinition::UnrecognizedTag)
    );
}

#[test]
fn non_string_tag_is_rejected() {
    let mut r = Record::new();
    r.push("type".to_string(), Value::Int(3));
    assert_eq!(
        ItemParams::from_record(&r),
        Err(MalformedDefinition::UnrecognizedTag)
    );
}

#[test]
fn network_ready_defaults_to_false_when_absent() {
    let p = ItemParams::from_record(&weapon_record()).unwrap();
    assert!(!p.is_network_ready);
}

#[test]
fn network_ready_round_trips_when_present() {
    let mut r = weapon_record();
    r.push("is_network_ready".to_string(), Value::Bool(true));
    let p = ItemParams::from_record(&r).unwrap();
    assert!(p.is_network_ready);

    let mut off = weapon_record();
    off.push("is_network_ready".to_string(), Value::Bool(false));
    let decoded = ItemParams::from_record(&off).unwrap();
    assert!(!decoded.is_network_ready);
}

#[test]
fn encode_then_decode_round_trips() {
    let p = ItemParams {
        id: "musket01".to_string(),
        kind: ItemKind::Weapon { params: WeaponParams { damage: 35, cooldown: 12 } },
        sprite: SpriteParams {
            texture_id: "musket".to_string(),
            frame_width: 64,
            frame_height: 32,
        },
        collider_size: Vec2u { x: 48, y: 16 },
        is_network_ready: true,
    };
    let r = p.to_record();
    let q = ItemParams::from_record(&r).unwrap();
    assert_eq!(q.id, p.id);
    assert_eq!(q.kind, p.kind);
    assert_eq!(q.sprite.texture_id, p.sprite.texture_id);
    assert_eq!(q.sprite.frame_width, p.sprite.frame_width);
    assert_eq!(q.sprite.frame_height, p.sprite.frame_height);
    assert_eq!(q.collider_size, p.collider_size);
    assert_eq!(q.is_network_ready, p.is_network_ready);
}

#[test]
fn equipped_encode_then_decode_round_trips() {
    let p = ItemParams {
        id: "shield01".to_string(),
        kind: ItemKind::EquippedItem { params: EquippedItemParams { duration: 600 } },
        sprite: SpriteParams {
            texture_id: "shield".to_string(),
            frame_width: 24,
            frame_height: 24,
        },
        collider_size: Vec2u { x: 20, y: 28 },
        is_network_ready: false,
    };
    let q = ItemParams::from_record(&p.to_record()).unwrap();
    assert_eq!(q.kind, p.kind);
    assert_eq!(q.id, p.id);
    assert_eq!(q.is_network_ready, p.is_network_ready);
}

#[test]
fn negative_collider_component_is_rejected() {
    let mut r = Record::new();
    r.push("type".to_string(), Value::Str("weapon".to_string()));
    r.push("damage".to_string(), Value::Int(1));
    r.push("cooldown".to_string(), Value::Int(1));
    r.push("id".to_string(), Value::Str("x".to_string()));
    r.push("sprite".to_string(), Value::Rec(sprite_fields("x", 1, 1)));
    r.push("collider_size".to_string(), Value::IntList(vec![-1, 5]));
    assert_eq!(
        ItemParams::from_record(&r),
        Err(MalformedDefinition::InvalidColliderSize)
    );
}

#[test]
fn malformed_minimal_record_is_rejected_before_construction() {
    // A record holding only an identity and an impossible collider size:
    // parsing fails and no definition (so no entity) is ever produced.
    let mut r = Record::new();
    r.push("id".to_string(), Value::Str("x".to_string()));
    r.push("collider_size".to_string(), Value::IntList(vec![-1, 5]));
    assert!(ItemParams::from_record(&r).is_err());
}

#[test]
fn wrong_length_collider_is_rejected() {
    let mut r = weapon_record();
    let mut bad = Record::new();
    bad.push("type".to_string(), Value::Str("weapon".to_string()));
    bad.push("damage".to_string(), Value::Int(35));
    bad.push("cooldown".to_string(), Value::Int(12));
    bad.push("id".to_string(), Value::Str("musket01".to_string()));
    bad.push("sprite".to_string(), Value::Rec(sprite_fields("musket", 64, 32)));
    bad.push("collider_size".to_string(), Value::IntList(vec![48, 16, 3]));
    assert_eq!(
        ItemParams::from_record(&bad),
        Err(MalformedDefinition::InvalidColliderSize)
    );
    assert!(ItemParams::from_record(&r).is_ok());
}

#[test]
fn missing_required_field_is_rejected() {
    // No "damage" for a weapon record.
    let mut r = Record::new();
    r.push("type".to_string(), Value::Str("weapon".to_string()));
    r.push("cooldown".to_string(), Value::Int(12));
    assert_eq!(
        ItemParams::from_record(&r),
        Err(MalformedDefinition::MissingField)
    );
}

#[test]
fn wrong_shape_field_is_rejected() {
    // "damage" present but a string.
    let mut r = Record::new();
    r.push("type".to_string(), Value::Str("weapon".to_string()));
    r.push("damage".to_string(), Value::Str("lots".to_string()));
    r.push("cooldown".to_string(), Value::Int(12));
    assert_eq!(
        ItemParams::from_record(&r),
        Err(MalformedDefinition::InvalidField)
    );
}

#[test]
fn out_of_range_field_is_rejected() {
    let mut r = weapon_record();
    r.push("is_network_ready".to_string(), Value::Int(1));
    assert_eq!(
        ItemParams::from_record(&r),
        Err(MalformedDefinition::InvalidField)
    );
}

#[test]
fn empty_id_is_rejected() {
    let mut r = Record::new();
    r.push("type".to_string(), Value::Str("weapon".to_string()));
    r.push("damage".to_string(), Value::Int(1));
    r.push("cooldown".to_string(), Value::Int(1));
    r.push("id".to_string(), Value::Str("".to_string()));
    assert_eq!(
        ItemParams::from_record(&r),
        Err(MalformedDefinition::InvalidField)
    );
}

#[test]
fn unknown_extra_fields_are_ignored() {
    let mut r = weapon_record();
    r.push("future_field".to_string(), Value::Str("whatever".to_string()));
    r.push("another".to_string(), Value::Bool(true));
    let p = ItemParams::from_record(&r).unwrap();
    assert_eq!(p.id, "musket01");
}

#[test]
fn first_occurrence_of_a_key_wins() {
    let mut r = weapon_record();
    r.push("damage".to_string(), Value::Int(999));
    let p = ItemParams::from_record(&r).unwrap();
    match p.kind {
        ItemKind::Weapon { params } => assert_eq!(params.damage, 35),
        _ => panic!("expected a weapon"),
    }
}

#[test]
fn is_weapon_distinguishes_the_variants() {
    let w = ItemKind::Weapon { params: WeaponParams { damage: 1, cooldown: 1 } };
    let e = ItemKind::EquippedItem { params: EquippedItemParams { duration: 1 } };
    assert!(w.is_weapon());
    assert!(!e.is_weapon());
}
