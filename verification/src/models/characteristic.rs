//! The characteristics by which variants differ.

use vstd::prelude::*;
use crate::json::{entries, field, object, put, Json, JsonValue, ToJson};
use crate::values::Uuid;
use super::Meta;

verus! {

/// The value that a variant has for a characteristic.
#[derive(Default, Debug, PartialEq)]
pub struct Characteristic {
    pub meta: Option<Meta>,
    pub id: Uuid,
    pub name: String,
    pub value: String,
}

impl Clone for Characteristic {
    fn clone(&self) -> (r: Self)
        ensures
            r == *self,
    {
        let meta = self.meta.clone();
        let name = self.name.clone();
        let value = self.value.clone();
        Characteristic {
            meta,
            id: self.id,
            name,
            value,
        }
    }
}

impl ToJson for Characteristic {
    open spec fn json(&self) -> JsonValue {
        JsonValue::Object(
            Seq::empty()
                + field("meta"@, self.meta)
                + field("id"@, self.id)
                + field("name"@, self.name)
                + field("value"@, self.value),
        )
    }

    fn to_json(&self) -> (j: Json) {
        let mut members: Vec<(String, Json)> = Vec::new();
        assert(entries(members@) =~= Seq::empty());
        put(&mut members, "meta", &self.meta);
        put(&mut members, "id", &self.id);
        put(&mut members, "name", &self.name);
        put(&mut members, "value", &self.value);
        object(members)
    }
}

impl Characteristic {
    /// The value `value` for the characteristic `characteristic`. It carries no
    /// metadata of its own.
    pub fn from_variant_char(characteristic: VariantCharacteristic, value: &str) -> (result: Self)
        ensures
            result.value@ == value@,
            result == (Characteristic {
                meta: None,
                id: characteristic.id,
                name: characteristic.name,
                value: result.value,
            }),
    {
        Characteristic {
            meta: None,
            id: characteristic.id,
            name: characteristic.name,
            value: value.to_owned(),
        }
    }
}

/// A characteristic that variants can differ by.
#[derive(Default, Debug, Clone, PartialEq)]
pub struct VariantCharacteristic {
    pub id: Uuid,
    pub meta: Meta,
    pub name: String,
    pub required: bool,
    pub characteristic_type: String,
}

/// The characteristics that the account has.
#[derive(Default, Debug, Clone, PartialEq)]
pub struct CharResponse {
    pub meta: Meta,
    pub characteristics: Vec<VariantCharacteristic>,
}

} // verus!
