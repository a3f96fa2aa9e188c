//! Decoding a serialized record into an item definition, and encoding a
//! definition back into a record.
//!
//! The record carries the definition's shared fields together with a
//! discriminant tag field (`type`) that selects the behavioral variant; the
//! variant's own fields sit flat beside the shared ones. Decoding reads the
//! discriminant first, then the remainder according to the selected variant's
//! shape; encoding re-flattens. Unknown-but-present extra fields are ignored
//! (forward compatibility). `is_network_ready` defaults to false when absent.

use vstd::prelude::*;

use crate::params::{
    EquippedItemParams, ItemKind, ItemParams, ItemParamsModel, SpriteParams, SpriteParamsModel,
    WeaponParams,
};
use crate::record::{
    lookup, lookup_from, nested_fields_view, nested_get, nested_lookup, nested_lookup_from,
    NestedField, NestedModel, Record, RecordModel, Scalar, ScalarModel, Value, ValueModel,
};
use crate::math::Vec2u;

verus! {

/// Why a serialized record was rejected as an item definition.
#[derive(Clone, Copy, Debug, PartialEq, Eq, Structural)]
pub enum MalformedDefinition {
    /// The discriminant tag field holds a value that selects no variant.
    UnrecognizedTag,
    /// A required field is absent.
    MissingField,
    /// `collider_size` cannot be represented as two non-negative integers.
    InvalidColliderSize,
    /// A present field has the wrong shape or an out-of-range value.
    InvalidField,
}

/// What decoding the discriminant tag and the variant's flattened fields of
/// record `r` yields.
pub open spec fn spec_decode_kind(r: RecordModel) -> Result<ItemKind, MalformedDefinition> {
    match lookup(r, "type"@) {
        None => Err(MalformedDefinition::MissingField),
        Some(tag_value) => match tag_value {
            ValueModel::Str(tag) => if tag == "weapon"@ {
                spec_decode_weapon(r)
            } else if tag == "equipped_item"@ {
                spec_decode_equipped(r)
            } else {
                Err(MalformedDefinition::UnrecognizedTag)
            },
            _ => Err(MalformedDefinition::UnrecognizedTag),
        },
    }
}

/// What decoding the weapon variant's flattened fields of record `r` yields.
pub open spec fn spec_decode_weapon(r: RecordModel) -> Result<ItemKind, MalformedDefinition> {
    match lookup(r, "damage"@) {
        None => Err(MalformedDefinition::MissingField),
        Some(ValueModel::Int(d)) => match lookup(r, "cooldown"@) {
            None => Err(MalformedDefinition::MissingField),
            Some(ValueModel::Int(c)) => if 0 <= d <= u32::MAX && 0 <= c <= u32::MAX {
                Ok(
                    ItemKind::Weapon {
                        params: WeaponParams { damage: d as u32, cooldown: c as u32 },
                    },
                )
            } else {
                Err(MalformedDefinition::InvalidField)
            },
            Some(_) => Err(MalformedDefinition::InvalidField),
        },
        Some(_) => Err(MalformedDefinition::InvalidField),
    }
}

/// What decoding the equippable-item variant's flattened fields of record `r`
/// yields.
pub open spec fn spec_decode_equipped(r: RecordModel) -> Result<ItemKind, MalformedDefinition> {
    match lookup(r, "duration"@) {
        Some(ValueModel::Int(d)) => if 0 <= d <= u32::MAX {
            Ok(ItemKind::EquippedItem { params: EquippedItemParams { duration: d as u32 } })
        } else {
            Err(MalformedDefinition::InvalidField)
        },
        Some(_) => Err(MalformedDefinition::InvalidField),
        None => Err(MalformedDefinition::MissingField),
    }
}

/// What decoding the `id` field of record `r` yields.
pub open spec fn spec_decode_id(r: RecordModel) -> Result<Seq<char>, MalformedDefinition> {
    match lookup(r, "id"@) {
        Some(ValueModel::Str(id)) => if id.len() > 0 {
            Ok(id)
        } else {
            Err(MalformedDefinition::InvalidField)
        },
        Some(_) => Err(MalformedDefinition::InvalidField),
        None => Err(MalformedDefinition::MissingField),
    }
}

/// What decoding the nested `sprite` record of record `r` yields.
pub open spec fn spec_decode_sprite(r: RecordModel) -> Result<
    SpriteParamsModel,
    MalformedDefinition,
> {
    match lookup(r, "sprite"@) {
        Some(ValueModel::Rec(nf)) => spec_decode_sprite_fields(nf),
        Some(_) => Err(MalformedDefinition::InvalidField),
        None => Err(MalformedDefinition::MissingField),
    }
}

/// What decoding the fields of a nested sprite record yields.
pub open spec fn spec_decode_sprite_fields(nf: NestedModel) -> Result<
    SpriteParamsModel,
    MalformedDefinition,
> {
    match nested_lookup(nf, "texture_id"@) {
        None => Err(MalformedDefinition::MissingField),
        Some(ScalarModel::Str(t)) => match nested_lookup(nf, "frame_width"@) {
            None => Err(MalformedDefinition::MissingField),
            Some(ScalarModel::Int(w)) => match nested_lookup(nf, "frame_height"@) {
                None => Err(MalformedDefinition::MissingField),
                Some(ScalarModel::Int(h)) => if 0 <= w <= u32::MAX && 0 <= h <= u32::MAX {
                    Ok(
                        SpriteParamsModel {
                            texture_id: t,
                            frame_width: w as u32,
                            frame_height: h as u32,
                        },
                    )
                } else {
                    Err(MalformedDefinition::InvalidField)
                },
                Some(_) => Err(MalformedDefinition::InvalidField),
            },
            Some(_) => Err(MalformedDefinition::InvalidField),
        },
        Some(_) => Err(MalformedDefinition::InvalidField),
    }
}

/// What decoding the `collider_size` field of record `r` yields: a list of
/// exactly two integers, each representable as an unsigned 32-bit value.
pub open spec fn spec_decode_collider(r: RecordModel) -> Result<Vec2u, MalformedDefinition> {
    match lookup(r, "collider_size"@) {
        Some(ValueModel::IntList(xs)) => if xs.len() == 2 && 0 <= xs[0] <= u32::MAX && 0 <= xs[1]
            <= u32::MAX {
            Ok(Vec2u { x: xs[0] as u32, y: xs[1] as u32 })
        } else {
            Err(MalformedDefinition::InvalidColliderSize)
        },
        Some(_) => Err(MalformedDefinition::InvalidColliderSize),
        None => Err(MalformedDefinition::MissingField),
    }
}

/// What decoding the optional `is_network_ready` field of record `r` yields:
/// false when the field is absent.
pub open spec fn spec_decode_network_ready(r: RecordModel) -> Result<bool, MalformedDefinition> {
    match lookup(r, "is_network_ready"@) {
        Some(ValueModel::Bool(b)) => Ok(b),
        Some(_) => Err(MalformedDefinition::InvalidField),
        None => Ok(false),
    }
}

/// What decoding record `r` as an item definition yields: the first failing
/// piece decides the error, in the order discriminant and variant fields,
/// identity, sprite, collision footprint, network-readiness flag.
pub open spec fn spec_decode(r: RecordModel) -> Result<ItemParamsModel, MalformedDefinition> {
    match spec_decode_kind(r) {
        Err(e) => Err(e),
        Ok(kind) => match spec_decode_id(r) {
            Err(e) => Err(e),
            Ok(id) => match spec_decode_sprite(r) {
                Err(e) => Err(e),
                Ok(sprite) => match spec_decode_collider(r) {
                    Err(e) => Err(e),
                    Ok(collider_size) => match spec_decode_network_ready(r) {
                        Err(e) => Err(e),
                        Ok(is_network_ready) => Ok(
                            ItemParamsModel { id, kind, sprite, collider_size, is_network_ready },
                        ),
                    },
                },
            },
        },
    }
}

impl ItemParams {
    /// Decode a serialized record into an item definition, or reject it as
    /// malformed. Unknown extra fields are ignored; `is_network_ready`
    /// defaults to false when absent.
    pub fn from_record(r: &Record) -> (res: Result<ItemParams, MalformedDefinition>)
        ensures
            match res {
                Ok(p) => spec_decode(r@) == Ok::<ItemParamsModel, MalformedDefinition>(p@),
                Err(e) => spec_decode(r@) == Err::<ItemParamsModel, MalformedDefinition>(e),
            },
    {
        let kind = match Self::decode_kind(r) {
            Ok(k) => k,
            Err(e) => {
                return Err(e);
            },
        };
        let id = match r.get("id") {
            Some(Value::Str(id)) => {
                if id.as_str().is_empty() {
                    return Err(MalformedDefinition::InvalidField);
                }
                id.clone()
            },
            Some(_) => {
                return Err(MalformedDefinition::InvalidField);
            },
            None => {
                return Err(MalformedDefinition::MissingField);
            },
        };
        let sprite = match r.get("sprite") {
            Some(Value::Rec(nf)) => match Self::decode_sprite_fields(nf) {
                Ok(s) => s,
                Err(e) => {
                    return Err(e);
                },
            },
            Some(_) => {
                return Err(MalformedDefinition::InvalidField);
            },
            None => {
                return Err(MalformedDefinition::MissingField);
            },
        };
        let collider_size = match r.get("collider_size") {
            Some(Value::IntList(xs)) => {
                if xs.len() == 2 && 0 <= xs[0] && xs[0] <= u32::MAX as i64 && 0 <= xs[1] && xs[1]
                    <= u32::MAX as i64 {
                    Vec2u { x: xs[0] as u32, y: xs[1] as u32 }
                } else {
                    return Err(MalformedDefinition::InvalidColliderSize);
                }
            },
            Some(_) => {
                return Err(MalformedDefinition::InvalidColliderSize);
            },
            None => {
                return Err(MalformedDefinition::MissingField);
            },
        };
        let is_network_ready = match r.get("is_network_ready") {
            Some(Value::Bool(b)) => *b,
            Some(_) => {
                return Err(MalformedDefinition::InvalidField);
            },
            None => false,
        };
        Ok(ItemParams { id, kind, sprite, collider_size, is_network_ready })
    }

    /// Decode the discriminant tag and the selected variant's flattened
    /// fields.
    fn decode_kind(r: &Record) -> (res: Result<ItemKind, MalformedDefinition>)
        ensures
            res == spec_decode_kind(r@),
    {
        match r.get("type") {
            Some(Value::Str(tag)) => {
                if crate::record::str_eq(tag, "weapon") {
                    Self::decode_weapon(r)
                } else if crate::record::str_eq(tag, "equipped_item") {
                    Self::decode_equipped(r)
                } else {
                    Err(MalformedDefinition::UnrecognizedTag)
                }
            },
            Some(_) => Err(MalformedDefinition::UnrecognizedTag),
            None => Err(MalformedDefinition::MissingField),
        }
    }

    /// Decode the weapon variant's flattened fields.
    fn decode_weapon(r: &Record) -> (res: Result<ItemKind, MalformedDefinition>)
        ensures
            res == spec_decode_weapon(r@),
    {
        let d = match r.get("damage") {
            Some(Value::Int(d)) => *d,
            Some(_) => {
                return Err(MalformedDefinition::InvalidField);
            },
            None => {
                return Err(MalformedDefinition::MissingField);
            },
        };
        match r.get("cooldown") {
            Some(Value::Int(c)) => {
                if 0 <= d && d <= u32::MAX as i64 && 0 <= *c && *c <= u32::MAX as i64 {
                    Ok(
                        ItemKind::Weapon {
                            params: WeaponParams { damage: d as u32, cooldown: *c as u32 },
                        },
                    )
                } else {
                    Err(MalformedDefinition::InvalidField)
                }
            },
            Some(_) => Err(MalformedDefinition::InvalidField),
            None => Err(MalformedDefinition::MissingField),
        }
    }

    /// Decode the equippable-item variant's flattened fields.
    fn decode_equipped(r: &Record) -> (res: Result<ItemKind, MalformedDefinition>)
        ensures
            res == spec_decode_equipped(r@),
    {
        match r.get("duration") {
            Some(Value::Int(d)) => {
                if 0 <= *d && *d <= u32::MAX as i64 {
                    Ok(ItemKind::EquippedItem { params: EquippedItemParams { duration: *d as u32 } })
                } else {
                    Err(MalformedDefinition::InvalidField)
                }
            },
            Some(_) => Err(MalformedDefinition::InvalidField),
            None => Err(MalformedDefinition::MissingField),
        }
    }

    /// Decode a nested sprite record's fields.
    fn decode_sprite_fields(nf: &Vec<crate::record::NestedField>) -> (res: Result<
        SpriteParams,
        MalformedDefinition,
    >)
        ensures
            match res {
                Ok(s) => spec_decode_sprite_fields(nested_fields_view(nf@)) == Ok::<
                    SpriteParamsModel,
                    MalformedDefinition,
                >(s@),
                Err(e) => spec_decode_sprite_fields(nested_fields_view(nf@)) == Err::<
                    SpriteParamsModel,
                    MalformedDefinition,
                >(e),
            },
    {
        let texture_id = match nested_get(nf, "texture_id") {
            Some(Scalar::Str(t)) => t.clone(),
            Some(_) => {
                return Err(MalformedDefinition::InvalidField);
            },
            None => {
                return Err(MalformedDefinition::MissingField);
            },
        };
        let w = match nested_get(nf, "frame_width") {
            Some(Scalar::Int(w)) => *w,
            Some(_) => {
                return Err(MalformedDefinition::InvalidField);
            },
            None => {
                return Err(MalformedDefinition::MissingField);
            },
        };
        match nested_get(nf, "frame_height") {
            Some(Scalar::Int(h)) => {
                if 0 <= w && w <= u32::MAX as i64 && 0 <= *h && *h <= u32::MAX as i64 {
                    Ok(
                        SpriteParams {
                            texture_id,
                            frame_width: w as u32,
                            frame_height: *h as u32,
                        },
                    )
                } else {
                    Err(MalformedDefinition::InvalidField)
                }
            },
            Some(_) => Err(MalformedDefinition::InvalidField),
            None => Err(MalformedDefinition::MissingField),
        }
    }
}

/// The discriminant tag field and the selected variant's flattened fields, as
/// they stand at the front of an encoded record.
pub open spec fn spec_encode_kind_fields(kind: ItemKind) -> RecordModel {
    match kind {
        ItemKind::Weapon { params } => seq![
            ("type"@, ValueModel::Str("weapon"@)),
            ("damage"@, ValueModel::Int(params.damage as int)),
            ("cooldown"@, ValueModel::Int(params.cooldown as int)),
        ],
        ItemKind::EquippedItem { params } => seq![
            ("type"@, ValueModel::Str("equipped_item"@)),
            ("duration"@, ValueModel::Int(params.duration as int)),
        ],
    }
}

/// The nested record value that encodes a sprite configuration.
pub open spec fn spec_encode_sprite(s: SpriteParamsModel) -> ValueModel {
    ValueModel::Rec(
        seq![
            ("texture_id"@, ScalarModel::Str(s.texture_id)),
            ("frame_width"@, ScalarModel::Int(s.frame_width as int)),
            ("frame_height"@, ScalarModel::Int(s.frame_height as int)),
        ],
    )
}

/// The record that encodes an item definition: the discriminant tag first,
/// then the variant's flattened fields, then the shared fields.
pub open spec fn spec_encode(m: ItemParamsModel) -> RecordModel {
    spec_encode_kind_fields(m.kind) + seq![
        ("id"@, ValueModel::Str(m.id)),
        ("sprite"@, spec_encode_sprite(m.sprite)),
        (
            "collider_size"@,
            ValueModel::IntList(seq![m.collider_size.x as int, m.collider_size.y as int]),
        ),
        ("is_network_ready"@, ValueModel::Bool(m.is_network_ready)),
    ]
}

impl ItemParams {
    /// Encode this definition as a serialized record, re-flattening the
    /// behavioral variant's fields beside the discriminant tag.
    pub fn to_record(&self) -> (r: Record)
        ensures
            r@ == spec_encode(self@),
    {
        let mut r = Record::new();
        match &self.kind {
            ItemKind::Weapon { params } => {
                r.push("type".to_owned(), Value::Str("weapon".to_owned()));
                r.push("damage".to_owned(), Value::Int(params.damage as i64));
                r.push("cooldown".to_owned(), Value::Int(params.cooldown as i64));
            },
            ItemKind::EquippedItem { params } => {
                r.push("type".to_owned(), Value::Str("equipped_item".to_owned()));
                r.push("duration".to_owned(), Value::Int(params.duration as i64));
            },
        }
        r.push("id".to_owned(), Value::Str(self.id.clone()));
        let mut nf: Vec<NestedField> = Vec::new();
        nf.push(
            NestedField {
                key: "texture_id".to_owned(),
                value: Scalar::Str(self.sprite.texture_id.clone()),
            },
        );
        nf.push(
            NestedField {
                key: "frame_width".to_owned(),
                value: Scalar::Int(self.sprite.frame_width as i64),
            },
        );
        nf.push(
            NestedField {
                key: "frame_height".to_owned(),
                value: Scalar::Int(self.sprite.frame_height as i64),
            },
        );
        proof {
            assert(nested_fields_view(nf@) =~= spec_encode_sprite(self.sprite@)->Rec_0);
        }
        r.push("sprite".to_owned(), Value::Rec(nf));
        let mut xs: Vec<i64> = Vec::new();
        xs.push(self.collider_size.x as i64);
        xs.push(self.collider_size.y as i64);
        proof {
            assert(xs@.map(|i: int, x: i64| x as int) =~= seq![
                self.collider_size.x as int,
                self.collider_size.y as int,
            ]);
        }
        r.push("collider_size".to_owned(), Value::IntList(xs));
        r.push("is_network_ready".to_owned(), Value::Bool(self.is_network_ready));
        proof {
            assert(r@ =~= spec_encode(self@));
        }
        r
    }
}

/// A record whose discriminant tag is `weapon` and that decodes successfully
/// decodes to the weapon variant, and every flattened weapon field of the
/// record is preserved unchanged in the decoded definition.
pub proof fn lemma_weapon_fields_preserved(r: RecordModel)
    requires
        lookup(r, "type"@) == Some(ValueModel::Str("weapon"@)),
        spec_decode(r) is Ok,
    ensures
        spec_decode(r)->Ok_0.kind is Weapon,
        lookup(r, "damage"@) == Some(
            ValueModel::Int(spec_decode(r)->Ok_0.kind->Weapon_params.damage as int),
        ),
        lookup(r, "cooldown"@) == Some(
            ValueModel::Int(spec_decode(r)->Ok_0.kind->Weapon_params.cooldown as int),
        ),
{
    reveal_strlit("weapon");
    reveal_strlit("equipped_item");
}

/// A record whose discriminant tag is `equipped_item` and that decodes
/// successfully decodes to the equippable-item variant, and the flattened
/// field of that variant is preserved unchanged.
pub proof fn lemma_equipped_fields_preserved(r: RecordModel)
    requires
        lookup(r, "type"@) == Some(ValueModel::Str("equipped_item"@)),
        spec_decode(r) is Ok,
    ensures
        spec_decode(r)->Ok_0.kind is EquippedItem,
        lookup(r, "duration"@) == Some(
            ValueModel::Int(spec_decode(r)->Ok_0.kind->EquippedItem_params.duration as int),
        ),
{
    reveal_strlit("weapon");
    reveal_strlit("equipped_item");
    assert("weapon"@.len() == 6);
    assert("equipped_item"@.len() == 13);
}

/// A record that misses the discriminant tag field, or whose tag selects no
/// variant, is rejected as malformed: decoding yields an error and no
/// definition.
pub proof fn lemma_bad_tag_rejected(r: RecordModel)
    requires
        match lookup(r, "type"@) {
            None => true,
            Some(v) => match v {
                ValueModel::Str(tag) => tag != "weapon"@ && tag != "equipped_item"@,
                _ => true,
            },
        },
    ensures
        spec_decode(r) is Err,
        lookup(r, "type"@) is None ==> spec_decode(r) == Err::<ItemParamsModel, MalformedDefinition>(
            MalformedDefinition::MissingField,
        ),
        lookup(r, "type"@) is Some ==> spec_decode(r) == Err::<ItemParamsModel, MalformedDefinition>(
            MalformedDefinition::UnrecognizedTag,
        ),
{
}

/// When the `is_network_ready` field is absent from a record that decodes
/// successfully, the decoded definition's flag is false.
pub proof fn lemma_network_ready_default(r: RecordModel)
    requires
        spec_decode(r) is Ok,
        lookup(r, "is_network_ready"@) is None,
    ensures
        !spec_decode(r)->Ok_0.is_network_ready,
{
}

/// When the `is_network_ready` field is present in a record that decodes
/// successfully, its value carries over exactly.
pub proof fn lemma_network_ready_preserved(r: RecordModel, b: bool)
    requires
        spec_decode(r) is Ok,
        lookup(r, "is_network_ready"@) == Some(ValueModel::Bool(b)),
    ensures
        spec_decode(r)->Ok_0.is_network_ready == b,
{
}

/// Encoding a well-formed definition and decoding the result yields the same
/// definition: the catalog representation round-trips losslessly.
pub proof fn lemma_encode_decode_round_trip(m: ItemParamsModel)
    requires
        m.wf(),
    ensures
        spec_decode(spec_encode(m)) == Ok::<ItemParamsModel, MalformedDefinition>(m),
{
    reveal_strlit("type");
    reveal_strlit("weapon");
    reveal_strlit("equipped_item");
    reveal_strlit("damage");
    reveal_strlit("cooldown");
    reveal_strlit("duration");
    reveal_strlit("id");
    reveal_strlit("sprite");
    reveal_strlit("texture_id");
    reveal_strlit("frame_width");
    reveal_strlit("frame_height");
    reveal_strlit("collider_size");
    reveal_strlit("is_network_ready");
    reveal_with_fuel(lookup_from, 9);
    reveal_with_fuel(nested_lookup_from, 5);
    assert("type"@.len() == 4);
    assert("weapon"@.len() == 6);
    assert("equipped_item"@.len() == 13);
    assert("damage"@.len() == 6);
    assert("cooldown"@.len() == 8);
    assert("duration"@.len() == 8);
    assert("id"@.len() == 2);
    assert("sprite"@.len() == 6);
    assert("texture_id"@.len() == 10);
    assert("frame_width"@.len() == 11);
    assert("frame_height"@.len() == 12);
    assert("collider_size"@.len() == 13);
    assert("is_network_ready"@.len() == 16);
    assert("sprite"@[0] == 's' && "damage"@[0] == 'd');
    let enc = spec_encode(m);
    let sprite_fields = spec_encode_sprite(m.sprite)->Rec_0;
    assert(nested_lookup(sprite_fields, "texture_id"@) == Some(
        ScalarModel::Str(m.sprite.texture_id),
    ));
    assert(nested_lookup(sprite_fields, "frame_width"@) == Some(
        ScalarModel::Int(m.sprite.frame_width as int),
    ));
    assert(nested_lookup(sprite_fields, "frame_height"@) == Some(
        ScalarModel::Int(m.sprite.frame_height as int),
    ));
    assert(spec_decode_sprite_fields(sprite_fields) == Ok::<
        SpriteParamsModel,
        MalformedDefinition,
    >(m.sprite));
    match m.kind {
        ItemKind::Weapon { params } => {
            assert(lookup(enc, "type"@) == Some(ValueModel::Str("weapon"@)));
            assert(lookup(enc, "damage"@) == Some(ValueModel::Int(params.damage as int)));
            assert(lookup(enc, "cooldown"@) == Some(ValueModel::Int(params.cooldown as int)));
            assert(spec_decode_kind(enc) == Ok::<ItemKind, MalformedDefinition>(m.kind));
            assert(lookup(enc, "id"@) == Some(ValueModel::Str(m.id)));
            assert(lookup(enc, "sprite"@) == Some(spec_encode_sprite(m.sprite)));
            assert(lookup(enc, "collider_size"@) == Some(
                ValueModel::IntList(seq![m.collider_size.x as int, m.collider_size.y as int]),
            ));
            assert(lookup(enc, "is_network_ready"@) == Some(
                ValueModel::Bool(m.is_network_ready),
            ));
            assert(spec_decode_collider(enc) == Ok::<Vec2u, MalformedDefinition>(
                m.collider_size,
            ));
        },
        ItemKind::EquippedItem { params } => {
            assert(lookup(enc, "type"@) == Some(ValueModel::Str("equipped_item"@)));
            assert(lookup(enc, "duration"@) == Some(ValueModel::Int(params.duration as int)));
            assert(spec_decode_kind(enc) == Ok::<ItemKind, MalformedDefinition>(m.kind));
            assert(lookup(enc, "id"@) == Some(ValueModel::Str(m.id)));
            assert(lookup(enc, "sprite"@) == Some(spec_encode_sprite(m.sprite)));
            assert(lookup(enc, "collider_size"@) == Some(
                ValueModel::IntList(seq![m.collider_size.x as int, m.collider_size.y as int]),
            ));
            assert(lookup(enc, "is_network_ready"@) == Some(
                ValueModel::Bool(m.is_network_ready),
            ));
            assert(spec_decode_collider(enc) == Ok::<Vec2u, MalformedDefinition>(
                m.collider_size,
            ));
        },
    }
}

} // verus!
