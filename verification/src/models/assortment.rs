//! The assortment, and the prices and barcodes that its items carry.

use vstd::prelude::*;
use crate::api_client::MsEntity;
use crate::json::{entries, field, object, put, Double, Json, JsonValue, ToJson};
use crate::values::{Moment, Uuid};
use super::characteristic::Characteristic;
use super::{Attribute, Meta, MetaWrapper, PriceType};

verus! {

/// Anything that can be sold: a product, a variant, a service, a bundle.
#[derive(Default, Debug, Clone, PartialEq)]
pub struct Assortment {
    pub meta: Meta,
    pub id: Uuid,
    pub account_id: Uuid,
    pub owner: Option<MetaWrapper>,
    pub shared: Option<bool>,
    pub group: Option<MetaWrapper>,
    pub updated: Option<Moment>,
    pub name: Option<String>,
    pub code: Option<String>,
    pub external_code: Option<String>,
    pub archived: Option<bool>,
    pub path_name: Option<String>,
    pub product_folder: Option<MetaWrapper>,
    pub use_parent_vat: Option<bool>,
    pub vat: Option<i64>,
    pub vat_enabled: Option<bool>,
    pub effective_vat: Option<i64>,
    pub effective_vat_enabled: Option<bool>,
    pub uom: Option<MetaWrapper>,
    pub images: Option<MetaWrapper>,
    pub min_price: Option<MinPrice>,
    pub sale_prices: Vec<SalePrice>,
    pub supplier: Option<MetaWrapper>,
    pub attributes: Option<Vec<Attribute>>,
    pub payment_item_type: Option<String>,
    pub discount_prohibited: Option<bool>,
    pub country: Option<MetaWrapper>,
    pub buy_price: Option<BuyPrice>,
    pub article: Option<String>,
    pub weight: Option<Double>,
    pub volume: Option<Double>,
    pub barcodes: Option<Vec<Barcode>>,
    pub variants_count: Option<i64>,
    pub is_serial_trackable: Option<bool>,
    pub tracking_type: Option<String>,
    pub files: Option<MetaWrapper>,
    pub stock: Option<Double>,
    pub reserve: Option<Double>,
    pub in_transit: Option<Double>,
    pub quantity: Option<Double>,
    pub label: Option<String>,
    pub assortment: Option<MetaWrapper>,
    pub components: Option<MetaWrapper>,
    pub characteristics: Option<Vec<Characteristic>>,
    pub product: Option<MetaWrapper>,
}

impl MsEntity for Assortment {
    open spec fn endpoint() -> Seq<char> {
        "https://api.moysklad.ru/api/remap/1.2/entity/assortment"@
    }

    fn url() -> (url: String) {
        "https://api.moysklad.ru/api/remap/1.2/entity/assortment".to_owned()
    }
}

/// The least price at which an item is sold.
#[derive(Default, Debug, PartialEq)]
pub struct MinPrice {
    pub value: Double,
    pub currency: MetaWrapper,
}

impl Clone for MinPrice {
    fn clone(&self) -> (r: Self)
        ensures
            r == *self,
    {
        let currency = self.currency.clone();
        MinPrice {
            value: self.value,
            currency,
        }
    }
}

impl ToJson for MinPrice {
    open spec fn json(&self) -> JsonValue {
        JsonValue::Object(
            Seq::empty()
                + field("value"@, self.value)
                + field("currency"@, self.currency),
        )
    }

    fn to_json(&self) -> (j: Json) {
        let mut members: Vec<(String, Json)> = Vec::new();
        assert(entries(members@) =~= Seq::empty());
        put(&mut members, "value", &self.value);
        put(&mut members, "currency", &self.currency);
        object(members)
    }
}

/// A price at which an item is sold, with the type of price it is.
#[derive(Default, Debug, Clone, PartialEq)]
pub struct SalePrice {
    pub value: Double,
    pub currency: MetaWrapper,
    pub price_type: PriceType,
}

/// The price at which an item is bought.
#[derive(Default, Debug, PartialEq)]
pub struct BuyPrice {
    pub value: Double,
    pub currency: MetaWrapper,
}

impl Clone for BuyPrice {
    fn clone(&self) -> (r: Self)
        ensures
            r == *self,
    {
        let currency = self.currency.clone();
        BuyPrice {
            value: self.value,
            currency,
        }
    }
}

impl ToJson for BuyPrice {
    open spec fn json(&self) -> JsonValue {
        JsonValue::Object(
            Seq::empty()
                + field("value"@, self.value)
                + field("currency"@, self.currency),
        )
    }

    fn to_json(&self) -> (j: Json) {
        let mut members: Vec<(String, Json)> = Vec::new();
        assert(entries(members@) =~= Seq::empty());
        put(&mut members, "value", &self.value);
        put(&mut members, "currency", &self.currency);
        object(members)
    }
}

/// A barcode of an item.
#[derive(Default, Debug, PartialEq)]
pub struct Barcode {
    pub ean13: String,
}

impl Clone for Barcode {
    fn clone(&self) -> (r: Self)
        ensures
            r == *self,
    {
        let ean13 = self.ean13.clone();
        Barcode {
            ean13,
        }
    }
}

impl ToJson for Barcode {
    open spec fn json(&self) -> JsonValue {
        JsonValue::Object(
            Seq::empty()
                + field("ean13"@, self.ean13),
        )
    }

    fn to_json(&self) -> (j: Json) {
        let mut members: Vec<(String, Json)> = Vec::new();
        assert(entries(members@) =~= Seq::empty());
        put(&mut members, "ean13", &self.ean13);
        object(members)
    }
}

impl Barcode {
    /// Whether one of the barcodes of a list has the given digits.
    pub open spec fn among(list: Seq<Barcode>, ean13: Seq<char>) -> bool {
        exists|i: int| 0 <= i < list.len() && (#[trigger] list[i]).ean13@ == ean13
    }

    /// Whether one of the barcodes of a list has the given digits.
    pub fn is_among(list: &Vec<Barcode>, ean13: &String) -> (found: bool)
        ensures
            found == Barcode::among(list@, ean13@),
    {
        let mut i: usize = 0;
        while i < list.len()
            invariant
                i <= list.len(),
                forall|k: int| 0 <= k < i ==> (#[trigger] list@[k]).ean13@ != ean13@,
            decreases list.len() - i,
        {
            if list[i].ean13 == *ean13 {
                return true;
            }
            i += 1;
        }
        false
    }
}

} // verus!
