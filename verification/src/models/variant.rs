//! Variants of products.

use vstd::prelude::*;
use crate::api_client::MsEntity;
use crate::json::{
    contains, entries, field, holds, object, opt_field, put, put_opt, Double, Json, JsonValue,
    ToJson,
};
use crate::values::{Moment, Uuid};
use super::assortment::{Barcode, BuyPrice, MinPrice, SalePrice};
use super::characteristic::Characteristic;
use super::product::{sale_price, same_packs, CreateSalePrice, Pack};
use super::{held, same_lists, Meta, MetaWrapper};

verus! {

/// A variant of a product.
#[derive(Default, Debug, Clone, PartialEq)]
pub struct Variant {
    pub account_id: Uuid,
    pub archived: bool,
    pub barcodes: Option<Vec<Barcode>>,
    pub buy_price: Option<BuyPrice>,
    pub characteristics: Vec<Characteristic>,
    pub code: Option<String>,
    pub description: Option<String>,
    pub discount_prohibited: bool,
    pub external_code: String,
    pub id: Uuid,
    pub images: Option<MetaWrapper>,
    pub meta: Meta,
    pub min_price: Option<MinPrice>,
    pub name: String,
    pub packs: Option<Vec<Pack>>,
    pub product: MetaWrapper,
    pub sale_prices: Vec<SalePrice>,
    pub things: Option<Vec<String>>,
    pub updated: Option<Moment>,
}

impl Variant {
    /// Begins the payload that creates a variant of the given product, which
    /// differs by the given characteristics.
    pub fn create(
        product: Meta,
        characteristics: Vec<Characteristic>,
    ) -> (builder: CreateVariantBuilder)
        ensures
            builder.payload.product == (MetaWrapper { meta: product }),
            builder.payload.characteristics == characteristics,
            builder.payload.is_unset(),
    {
        CreateVariantBuilder::new(product, characteristics)
    }

    /// Begins the payload that updates a variant. Only the fields that are set
    /// afterwards are sent, and only they change.
    pub fn update() -> (builder: UpdateVariantBuilder)
        ensures
            builder.payload.is_unset(),
    {
        UpdateVariantBuilder::new()
    }
}

impl MsEntity for Variant {
    open spec fn endpoint() -> Seq<char> {
        "https://api.moysklad.ru/api/remap/1.2/entity/variant"@
    }

    fn url() -> (url: String) {
        "https://api.moysklad.ru/api/remap/1.2/entity/variant".to_owned()
    }
}

/// The payload that creates a variant. A field that is not set is left out of
/// the document.
#[derive(Default, Debug, PartialEq)]
pub struct CreateVariant {
    pub barcodes: Option<Vec<Barcode>>,
    pub buy_price: Option<BuyPrice>,
    pub characteristics: Vec<Characteristic>,
    pub code: Option<String>,
    pub description: Option<String>,
    pub discount_prohibited: Option<bool>,
    pub external_code: Option<String>,
    pub images: Option<MetaWrapper>,
    pub min_price: Option<MinPrice>,
    pub name: Option<String>,
    pub packs: Option<Vec<Pack>>,
    pub product: MetaWrapper,
    pub sale_prices: Option<Vec<CreateSalePrice>>,
}

impl CreateVariant {
    /// Whether no optional field is set.
    pub open spec fn is_unset(&self) -> bool {
        &&& self.barcodes is None
        &&& self.buy_price is None
        &&& self.code is None
        &&& self.description is None
        &&& self.discount_prohibited is None
        &&& self.external_code is None
        &&& self.images is None
        &&& self.min_price is None
        &&& self.name is None
        &&& self.packs is None
        &&& self.sale_prices is None
    }

    /// Whether two values hold the same in every field; lists are compared by the
    /// items they hold.
    pub open spec fn same(&self, other: &Self) -> bool {
        &&& same_lists(self.barcodes, other.barcodes)
        &&& self.buy_price == other.buy_price
        &&& self.characteristics@ == other.characteristics@
        &&& self.code == other.code
        &&& self.description == other.description
        &&& self.discount_prohibited == other.discount_prohibited
        &&& self.external_code == other.external_code
        &&& self.images == other.images
        &&& self.min_price == other.min_price
        &&& self.name == other.name
        &&& same_packs(self.packs, other.packs)
        &&& self.product == other.product
        &&& same_lists(self.sale_prices, other.sale_prices)
    }
}

impl Clone for CreateVariant {
    fn clone(&self) -> (r: Self)
        ensures
            r.same(self),
            r.json() == self.json(),
    {
        let barcodes = self.barcodes.clone();
        let buy_price = self.buy_price.clone();
        assert(buy_price == self.buy_price);
        let characteristics = self.characteristics.clone();
        let code = self.code.clone();
        assert(code == self.code);
        let description = self.description.clone();
        assert(description == self.description);
        let external_code = self.external_code.clone();
        assert(external_code == self.external_code);
        let images = self.images.clone();
        assert(images == self.images);
        let min_price = self.min_price.clone();
        assert(min_price == self.min_price);
        let name = self.name.clone();
        assert(name == self.name);
        let packs = self.packs.clone();
        let product = self.product.clone();
        assert(product == self.product);
        let sale_prices = self.sale_prices.clone();
        assert({
            &&& same_lists(barcodes, self.barcodes)
            &&& opt_field("barcodes"@, barcodes) == opt_field(
                "barcodes"@,
                self.barcodes,
            )
        }) by {
            match (barcodes, self.barcodes) {
                (Some(a), Some(b)) => {
                    assert(a@ =~= b@);
                    assert(a.json()->Array_0 =~= b.json()->Array_0);
                },
                _ => {},
            }
        }
        assert(characteristics@ =~= self.characteristics@);
        assert(characteristics.json()->Array_0 =~= self.characteristics.json()->Array_0);
        assert({
            &&& same_packs(packs, self.packs)
            &&& opt_field("packs"@, packs) == opt_field(
                "packs"@,
                self.packs,
            )
        }) by {
            match (packs, self.packs) {
                (Some(a), Some(b)) => {
                    assert(a.json()->Array_0 =~= b.json()->Array_0);
                },
                _ => {},
            }
        }
        assert({
            &&& same_lists(sale_prices, self.sale_prices)
            &&& opt_field("salePrices"@, sale_prices) == opt_field(
                "salePrices"@,
                self.sale_prices,
            )
        }) by {
            match (sale_prices, self.sale_prices) {
                (Some(a), Some(b)) => {
                    assert(a@ =~= b@);
                    assert(a.json()->Array_0 =~= b.json()->Array_0);
                },
                _ => {},
            }
        }
        CreateVariant {
            barcodes,
            buy_price,
            characteristics,
            code,
            description,
            discount_prohibited: self.discount_prohibited,
            external_code,
            images,
            min_price,
            name,
            packs,
            product,
            sale_prices,
        }
    }
}

impl ToJson for CreateVariant {
    open spec fn json(&self) -> JsonValue {
        JsonValue::Object(
            Seq::empty()
                + opt_field("barcodes"@, self.barcodes)
                + opt_field("buyPrice"@, self.buy_price)
                + field("characteristics"@, self.characteristics)
                + opt_field("code"@, self.code)
                + opt_field("description"@, self.description)
                + opt_field("discountProhibited"@, self.discount_prohibited)
                + opt_field("externalCode"@, self.external_code)
                + opt_field("images"@, self.images)
                + opt_field("minPrice"@, self.min_price)
                + opt_field("name"@, self.name)
                + opt_field("packs"@, self.packs)
                + field("product"@, self.product)
                + opt_field("salePrices"@, self.sale_prices),
        )
    }

    fn to_json(&self) -> (j: Json) {
        let mut members: Vec<(String, Json)> = Vec::new();
        assert(entries(members@) =~= Seq::empty());
        put_opt(&mut members, "barcodes", &self.barcodes);
        put_opt(&mut members, "buyPrice", &self.buy_price);
        put(&mut members, "characteristics", &self.characteristics);
        put_opt(&mut members, "code", &self.code);
        put_opt(&mut members, "description", &self.description);
        put_opt(&mut members, "discountProhibited", &self.discount_prohibited);
        put_opt(&mut members, "externalCode", &self.external_code);
        put_opt(&mut members, "images", &self.images);
        put_opt(&mut members, "minPrice", &self.min_price);
        put_opt(&mut members, "name", &self.name);
        put_opt(&mut members, "packs", &self.packs);
        put(&mut members, "product", &self.product);
        put_opt(&mut members, "salePrices", &self.sale_prices);
        object(members)
    }
}

impl CreateVariant {
    /// A payload on which no optional field is set is written as the object of
    /// the members that are always written, and of no other: a field that is
    /// not set leaves no member behind, not even a `null`.
    pub proof fn lemma_unset_fields_are_left_out(self)
        requires
            self.is_unset(),
        ensures
            self.json() == JsonValue::Object(
                seq![
                    ("characteristics"@, self.characteristics.json()),
                    ("product"@, self.product.json()),
                ],
            ),
    {
        assert(self.json()->Object_0 =~= seq![
            ("characteristics"@, self.characteristics.json()),
            ("product"@, self.product.json()),
        ]);
    }
}

/// Collects the fields of a `CreateVariant`.
#[derive(Default)]
pub struct CreateVariantBuilder {
    pub payload: CreateVariant,
}

impl CreateVariantBuilder {
    /// A builder that holds the product and the characteristics, and nothing
    /// else.
    pub fn new(product: Meta, characteristics: Vec<Characteristic>) -> (builder: Self)
        ensures
            builder.payload.product == (MetaWrapper { meta: product }),
            builder.payload.characteristics == characteristics,
            builder.payload.is_unset(),
    {
        CreateVariantBuilder {
            payload: CreateVariant {
                barcodes: None,
                buy_price: None,
                characteristics: characteristics,
                code: None,
                description: None,
                discount_prohibited: None,
                external_code: None,
                images: None,
                min_price: None,
                name: None,
                packs: None,
                product: MetaWrapper { meta: product },
                sale_prices: None,
            },
        }
    }

    /// Adds a barcode, as EAN-13, unless the barcode is there already
    pub fn barcode(&mut self, barcode: &str) -> (ret: &mut Self)
        ensures
            ({
                let before = held(old(self).payload.barcodes);
                if Barcode::among(before, barcode@) {
                    ret.payload == old(self).payload
                } else {
                    &&& ret.payload.barcodes matches Some(list)
                    &&& list@.len() == before.len() + 1
                    &&& list@.drop_last() == before
                    &&& list@.last().ean13@ == barcode@
                    &&& ret.payload == (CreateVariant {
                        barcodes: ret.payload.barcodes,
                        ..old(self).payload
                    })
                }
            }),
            *final(self) == *final(ret),
    {
        let item = Barcode { ean13: barcode.to_owned() };
        let found = match &self.payload.barcodes {
            Some(list) => Barcode::is_among(list, &item.ean13),
            None => false,
        };
        if !found {
            match &mut self.payload.barcodes {
                Some(list) => {
                    list.push(item);
                },
                None => {
                    let mut list = Vec::new();
                    list.push(item);
                    self.payload.barcodes = Some(list);
                },
            }
        }
        self
    }

    /// The buying price, in the given currency
    pub fn buy_price(&mut self, value: Double, currency: Meta) -> (ret: &mut Self)
        ensures
            ret.payload == (CreateVariant {
                buy_price: Some(BuyPrice { value, currency: MetaWrapper { meta: currency } }),
                ..old(self).payload
            }),
            *final(self) == *final(ret),
    {
        let currency = MetaWrapper { meta: currency };
        self.payload.buy_price = Some(BuyPrice { value, currency });
        self
    }

    /// Adds the value of a characteristic, unless a value that is written as
    /// the same document is there already
    pub fn characteristic(&mut self, characteristic: Characteristic) -> (ret: &mut Self)
        ensures
            ({
                let before = old(self).payload.characteristics@;
                if holds(before, characteristic) {
                    ret.payload == old(self).payload
                } else {
                    &&& ret.payload.characteristics@ == before.push(characteristic)
                    &&& ret.payload == (CreateVariant {
                        characteristics: ret.payload.characteristics,
                        ..old(self).payload
                    })
                }
            }),
            *final(self) == *final(ret),
    {
        if !contains(&self.payload.characteristics, &characteristic) {
            self.payload.characteristics.push(characteristic);
        }
        self
    }

    /// The code
    pub fn code(&mut self, code: &str) -> (ret: &mut Self)
        ensures
            ret.payload.code matches Some(text) && text@ == code@,
            ret.payload == (CreateVariant {
                code: ret.payload.code,
                ..old(self).payload
            }),
            *final(self) == *final(ret),
    {
        self.payload.code = Some(code.to_owned());
        self
    }

    /// The description
    pub fn description(&mut self, description: &str) -> (ret: &mut Self)
        ensures
            ret.payload.description matches Some(text) && text@ == description@,
            ret.payload == (CreateVariant {
                description: ret.payload.description,
                ..old(self).payload
            }),
            *final(self) == *final(ret),
    {
        self.payload.description = Some(description.to_owned());
        self
    }

    /// Whether discounts are prohibited
    pub fn discount_prohibited(&mut self, discount_prohibited: bool) -> (ret: &mut Self)
        ensures
            ret.payload == (CreateVariant {
                discount_prohibited: Some(discount_prohibited),
                ..old(self).payload
            }),
            *final(self) == *final(ret),
    {
        self.payload.discount_prohibited = Some(discount_prohibited);
        self
    }

    /// The external code
    pub fn external_code(&mut self, external_code: &str) -> (ret: &mut Self)
        ensures
            ret.payload.external_code matches Some(text) && text@ == external_code@,
            ret.payload == (CreateVariant {
                external_code: ret.payload.external_code,
                ..old(self).payload
            }),
            *final(self) == *final(ret),
    {
        self.payload.external_code = Some(external_code.to_owned());
        self
    }

    /// The least price, in the given currency
    pub fn min_price(&mut self, value: Double, currency: Meta) -> (ret: &mut Self)
        ensures
            ret.payload == (CreateVariant {
                min_price: Some(MinPrice { value, currency: MetaWrapper { meta: currency } }),
                ..old(self).payload
            }),
            *final(self) == *final(ret),
    {
        let currency = MetaWrapper { meta: currency };
        self.payload.min_price = Some(MinPrice { value, currency });
        self
    }

    /// The name
    pub fn name(&mut self, name: &str) -> (ret: &mut Self)
        ensures
            ret.payload.name matches Some(text) && text@ == name@,
            ret.payload == (CreateVariant {
                name: ret.payload.name,
                ..old(self).payload
            }),
            *final(self) == *final(ret),
    {
        self.payload.name = Some(name.to_owned());
        self
    }

    /// Adds a sale price of the given type, in the given currency, unless a
    /// price that is written as the same document is there already
    pub fn sale_price(
        &mut self,
        value: Double,
        currency_meta: &Meta,
        price_type_meta: &Meta,
    ) -> (ret: &mut Self)
        ensures
            ({
                let before = held(old(self).payload.sale_prices);
                let item = sale_price(value, *currency_meta, *price_type_meta);
                if holds(before, item) {
                    ret.payload == old(self).payload
                } else {
                    &&& ret.payload.sale_prices matches Some(list)
                    &&& list@ == before.push(item)
                    &&& ret.payload == (CreateVariant {
                        sale_prices: ret.payload.sale_prices,
                        ..old(self).payload
                    })
                }
            }),
            *final(self) == *final(ret),
    {
        let item = CreateSalePrice {
            value,
            currency: MetaWrapper { meta: currency_meta.clone() },
            price_type: MetaWrapper { meta: price_type_meta.clone() },
        };
        let found = match &self.payload.sale_prices {
            Some(list) => contains(list, &item),
            None => false,
        };
        if !found {
            match &mut self.payload.sale_prices {
                Some(list) => {
                    list.push(item);
                },
                None => {
                    let mut list = Vec::new();
                    list.push(item);
                    self.payload.sale_prices = Some(list);
                },
            }
        }
        self
    }

    /// The payload as the builder holds it. The builder stays as it is and can
    /// build again.
    pub fn build(&self) -> (payload: CreateVariant)
        ensures
            payload.same(&self.payload),
            payload.json() == self.payload.json(),
    {
        self.payload.clone()
    }
}

/// The payload that updates a variant. A field that is not set is left out of
/// the document, and the service leaves it as it is.
#[derive(Default, Debug, PartialEq)]
pub struct UpdateVariant {
    pub barcodes: Option<Vec<Barcode>>,
    pub buy_price: Option<BuyPrice>,
    pub characteristics: Option<Vec<Characteristic>>,
    pub code: Option<String>,
    pub description: Option<String>,
    pub discount_prohibited: Option<bool>,
    pub external_code: Option<String>,
    pub id: Option<Uuid>,
    pub images: Option<MetaWrapper>,
    pub meta: Option<Meta>,
    pub min_price: Option<MinPrice>,
    pub name: Option<String>,
    pub packs: Option<Vec<Pack>>,
    pub product: Option<MetaWrapper>,
    pub sale_prices: Option<Vec<CreateSalePrice>>,
}

impl UpdateVariant {
    /// Whether no optional field is set.
    pub open spec fn is_unset(&self) -> bool {
        &&& self.barcodes is None
        &&& self.buy_price is None
        &&& self.characteristics is None
        &&& self.code is None
        &&& self.description is None
        &&& self.discount_prohibited is None
        &&& self.external_code is None
        &&& self.id is None
        &&& self.images is None
        &&& self.meta is None
        &&& self.min_price is None
        &&& self.name is None
        &&& self.packs is None
        &&& self.product is None
        &&& self.sale_prices is None
    }

    /// Whether two values hold the same in every field; lists are compared by the
    /// items they hold.
    pub open spec fn same(&self, other: &Self) -> bool {
        &&& same_lists(self.barcodes, other.barcodes)
        &&& self.buy_price == other.buy_price
        &&& same_lists(self.characteristics, other.characteristics)
        &&& self.code == other.code
        &&& self.description == other.description
        &&& self.discount_prohibited == other.discount_prohibited
        &&& self.external_code == other.external_code
        &&& self.id == other.id
        &&& self.images == other.images
        &&& self.meta == other.meta
        &&& self.min_price == other.min_price
        &&& self.name == other.name
        &&& same_packs(self.packs, other.packs)
        &&& self.product == other.product
        &&& same_lists(self.sale_prices, other.sale_prices)
    }
}

impl Clone for UpdateVariant {
    fn clone(&self) -> (r: Self)
        ensures
            r.same(self),
            r.json() == self.json(),
    {
        let barcodes = self.barcodes.clone();
        let buy_price = self.buy_price.clone();
        assert(buy_price == self.buy_price);
        let characteristics = self.characteristics.clone();
        let code = self.code.clone();
        assert(code == self.code);
        let description = self.description.clone();
        assert(description == self.description);
        let external_code = self.external_code.clone();
        assert(external_code == self.external_code);
        let images = self.images.clone();
        assert(images == self.images);
        let meta = self.meta.clone();
        assert(meta == self.meta);
        let min_price = self.min_price.clone();
        assert(min_price == self.min_price);
        let name = self.name.clone();
        assert(name == self.name);
        let packs = self.packs.clone();
        let product = self.product.clone();
        assert(product == self.product);
        let sale_prices = self.sale_prices.clone();
        assert({
            &&& same_lists(barcodes, self.barcodes)
            &&& opt_field("barcodes"@, barcodes) == opt_field(
                "barcodes"@,
                self.barcodes,
            )
        }) by {
            match (barcodes, self.barcodes) {
                (Some(a), Some(b)) => {
                    assert(a@ =~= b@);
                    assert(a.json()->Array_0 =~= b.json()->Array_0);
                },
                _ => {},
            }
        }
        assert({
            &&& same_lists(characteristics, self.characteristics)
            &&& opt_field("characteristics"@, characteristics) == opt_field(
                "characteristics"@,
                self.characteristics,
            )
        }) by {
            match (characteristics, self.characteristics) {
                (Some(a), Some(b)) => {
                    assert(a@ =~= b@);
                    assert(a.json()->Array_0 =~= b.json()->Array_0);
                },
                _ => {},
            }
        }
        assert({
            &&& same_packs(packs, self.packs)
            &&& opt_field("packs"@, packs) == opt_field(
                "packs"@,
                self.packs,
            )
        }) by {
            match (packs, self.packs) {
                (Some(a), Some(b)) => {
                    assert(a.json()->Array_0 =~= b.json()->Array_0);
                },
                _ => {},
            }
        }
        assert({
            &&& same_lists(sale_prices, self.sale_prices)
            &&& opt_field("salePrices"@, sale_prices) == opt_field(
                "salePrices"@,
                self.sale_prices,
            )
        }) by {
            match (sale_prices, self.sale_prices) {
                (Some(a), Some(b)) => {
                    assert(a@ =~= b@);
                    assert(a.json()->Array_0 =~= b.json()->Array_0);
                },
                _ => {},
            }
        }
        UpdateVariant {
            barcodes,
            buy_price,
            characteristics,
            code,
            description,
            discount_prohibited: self.discount_prohibited,
            external_code,
            id: self.id,
            images,
            meta,
            min_price,
            name,
            packs,
            product,
            sale_prices,
        }
    }
}

impl ToJson for UpdateVariant {
    open spec fn json(&self) -> JsonValue {
        JsonValue::Object(
            Seq::empty()
                + opt_field("barcodes"@, self.barcodes)
                + opt_field("buyPrice"@, self.buy_price)
                + opt_field("characteristics"@, self.characteristics)
                + opt_field("code"@, self.code)
                + opt_field("description"@, self.description)
                + opt_field("discountProhibited"@, self.discount_prohibited)
                + opt_field("externalCode"@, self.external_code)
                + opt_field("id"@, self.id)
                + opt_field("images"@, self.images)
                + opt_field("meta"@, self.meta)
                + opt_field("minPrice"@, self.min_price)
                + opt_field("name"@, self.name)
                + opt_field("packs"@, self.packs)
                + opt_field("product"@, self.product)
                + opt_field("salePrices"@, self.sale_prices),
        )
    }

    fn to_json(&self) -> (j: Json) {
        let mut members: Vec<(String, Json)> = Vec::new();
        assert(entries(members@) =~= Seq::empty());
        put_opt(&mut members, "barcodes", &self.barcodes);
        put_opt(&mut members, "buyPrice", &self.buy_price);
        put_opt(&mut members, "characteristics", &self.characteristics);
        put_opt(&mut members, "code", &self.code);
        put_opt(&mut members, "description", &self.description);
        put_opt(&mut members, "discountProhibited", &self.discount_prohibited);
        put_opt(&mut members, "externalCode", &self.external_code);
        put_opt(&mut members, "id", &self.id);
        put_opt(&mut members, "images", &self.images);
        put_opt(&mut members, "meta", &self.meta);
        put_opt(&mut members, "minPrice", &self.min_price);
        put_opt(&mut members, "name", &self.name);
        put_opt(&mut members, "packs", &self.packs);
        put_opt(&mut members, "product", &self.product);
        put_opt(&mut members, "salePrices", &self.sale_prices);
        object(members)
    }
}

impl UpdateVariant {
    /// A payload on which no optional field is set is written as the empty
    /// object: a field that is not set leaves no member behind, not even a
    /// `null`.
    pub proof fn lemma_unset_fields_are_left_out(self)
        requires
            self.is_unset(),
        ensures
            self.json() == JsonValue::Object(Seq::empty()),
    {
        assert(self.json()->Object_0 =~= Seq::empty());
    }
}

/// Collects the fields of an `UpdateVariant`.
#[derive(Default)]
pub struct UpdateVariantBuilder {
    pub payload: UpdateVariant,
}

impl UpdateVariantBuilder {
    /// A builder that holds no field.
    pub fn new() -> (builder: Self)
        ensures
            builder.payload.is_unset(),
    {
        UpdateVariantBuilder {
            payload: UpdateVariant {
                barcodes: None,
                buy_price: None,
                characteristics: None,
                code: None,
                description: None,
                discount_prohibited: None,
                external_code: None,
                id: None,
                images: None,
                meta: None,
                min_price: None,
                name: None,
                packs: None,
                product: None,
                sale_prices: None,
            },
        }
    }

    /// Adds a barcode, as EAN-13, unless the barcode is there already
    pub fn barcode(&mut self, barcode: &str) -> (ret: &mut Self)
        ensures
            ({
                let before = held(old(self).payload.barcodes);
                if Barcode::among(before, barcode@) {
                    ret.payload == old(self).payload
                } else {
                    &&& ret.payload.barcodes matches Some(list)
                    &&& list@.len() == before.len() + 1
                    &&& list@.drop_last() == before
                    &&& list@.last().ean13@ == barcode@
                    &&& ret.payload == (UpdateVariant {
                        barcodes: ret.payload.barcodes,
                        ..old(self).payload
                    })
                }
            }),
            *final(self) == *final(ret),
    {
        let item = Barcode { ean13: barcode.to_owned() };
        let found = match &self.payload.barcodes {
            Some(list) => Barcode::is_among(list, &item.ean13),
            None => false,
        };
        if !found {
            match &mut self.payload.barcodes {
                Some(list) => {
                    list.push(item);
                },
                None => {
                    let mut list = Vec::new();
                    list.push(item);
                    self.payload.barcodes = Some(list);
                },
            }
        }
        self
    }

    /// The buying price, in the given currency
    pub fn buy_price(&mut self, value: Double, currency: Meta) -> (ret: &mut Self)
        ensures
            ret.payload == (UpdateVariant {
                buy_price: Some(BuyPrice { value, currency: MetaWrapper { meta: currency } }),
                ..old(self).payload
            }),
            *final(self) == *final(ret),
    {
        let currency = MetaWrapper { meta: currency };
        self.payload.buy_price = Some(BuyPrice { value, currency });
        self
    }

    /// Adds the value of a characteristic, unless a value that is written as
    /// the same document is there already
    pub fn characteristic(&mut self, characteristic: Characteristic) -> (ret: &mut Self)
        ensures
            ({
                let before = held(old(self).payload.characteristics);
                if holds(before, characteristic) {
                    ret.payload == old(self).payload
                } else {
                    &&& ret.payload.characteristics matches Some(list)
                    &&& list@ == before.push(characteristic)
                    &&& ret.payload == (UpdateVariant {
                        characteristics: ret.payload.characteristics,
                        ..old(self).payload
                    })
                }
            }),
            *final(self) == *final(ret),
    {
        let found = match &self.payload.characteristics {
            Some(list) => contains(list, &characteristic),
            None => false,
        };
        if !found {
            match &mut self.payload.characteristics {
                Some(list) => {
                    list.push(characteristic);
                },
                None => {
                    let mut list = Vec::new();
                    list.push(characteristic);
                    self.payload.characteristics = Some(list);
                },
            }
        }
        self
    }

    /// The code
    pub fn code(&mut self, code: &str) -> (ret: &mut Self)
        ensures
            ret.payload.code matches Some(text) && text@ == code@,
            ret.payload == (UpdateVariant {
                code: ret.payload.code,
                ..old(self).payload
            }),
            *final(self) == *final(ret),
    {
        self.payload.code = Some(code.to_owned());
        self
    }

    /// The description
    pub fn description(&mut self, description: &str) -> (ret: &mut Self)
        ensures
            ret.payload.description matches Some(text) && text@ == description@,
            ret.payload == (UpdateVariant {
                description: ret.payload.description,
                ..old(self).payload
            }),
            *final(self) == *final(ret),
    {
        self.payload.description = Some(description.to_owned());
        self
    }

    /// Whether discounts are prohibited
    pub fn discount_prohibited(&mut self, discount_prohibited: bool) -> (ret: &mut Self)
        ensures
            ret.payload == (UpdateVariant {
                discount_prohibited: Some(discount_prohibited),
                ..old(self).payload
            }),
            *final(self) == *final(ret),
    {
        self.payload.discount_prohibited = Some(discount_prohibited);
        self
    }

    /// The external code
    pub fn external_code(&mut self, external_code: &str) -> (ret: &mut Self)
        ensures
            ret.payload.external_code matches Some(text) && text@ == external_code@,
            ret.payload == (UpdateVariant {
                external_code: ret.payload.external_code,
                ..old(self).payload
            }),
            *final(self) == *final(ret),
    {
        self.payload.external_code = Some(external_code.to_owned());
        self
    }

    /// The identifier
    pub fn id(&mut self, id: Uuid) -> (ret: &mut Self)
        ensures
            ret.payload == (UpdateVariant {
                id: Some(id),
                ..old(self).payload
            }),
            *final(self) == *final(ret),
    {
        self.payload.id = Some(id);
        self
    }

    /// The metadata, by which a batch tells an update
    pub fn meta(&mut self, meta: Meta) -> (ret: &mut Self)
        ensures
            ret.payload == (UpdateVariant {
                meta: Some(meta),
                ..old(self).payload
            }),
            *final(self) == *final(ret),
    {
        self.payload.meta = Some(meta);
        self
    }

    /// The least price, in the given currency
    pub fn min_price(&mut self, value: Double, currency: Meta) -> (ret: &mut Self)
        ensures
            ret.payload == (UpdateVariant {
                min_price: Some(MinPrice { value, currency: MetaWrapper { meta: currency } }),
                ..old(self).payload
            }),
            *final(self) == *final(ret),
    {
        let currency = MetaWrapper { meta: currency };
        self.payload.min_price = Some(MinPrice { value, currency });
        self
    }

    /// The name
    pub fn name(&mut self, name: &str) -> (ret: &mut Self)
        ensures
            ret.payload.name matches Some(text) && text@ == name@,
            ret.payload == (UpdateVariant {
                name: ret.payload.name,
                ..old(self).payload
            }),
            *final(self) == *final(ret),
    {
        self.payload.name = Some(name.to_owned());
        self
    }

    /// The product that this is a variant of
    pub fn product(&mut self, product_meta: Meta) -> (ret: &mut Self)
        ensures
            ret.payload == (UpdateVariant {
                product: Some(MetaWrapper { meta: product_meta }),
                ..old(self).payload
            }),
            *final(self) == *final(ret),
    {
        self.payload.product = Some(MetaWrapper { meta: product_meta });
        self
    }

    /// Adds a sale price of the given type, in the given currency, unless a
    /// price that is written as the same document is there already
    pub fn sale_price(
        &mut self,
        value: Double,
        currency_meta: &Meta,
        price_type_meta: &Meta,
    ) -> (ret: &mut Self)
        ensures
            ({
                let before = held(old(self).payload.sale_prices);
                let item = sale_price(value, *currency_meta, *price_type_meta);
                if holds(before, item) {
                    ret.payload == old(self).payload
                } else {
                    &&& ret.payload.sale_prices matches Some(list)
                    &&& list@ == before.push(item)
                    &&& ret.payload == (UpdateVariant {
                        sale_prices: ret.payload.sale_prices,
                        ..old(self).payload
                    })
                }
            }),
            *final(self) == *final(ret),
    {
        let item = CreateSalePrice {
            value,
            currency: MetaWrapper { meta: currency_meta.clone() },
            price_type: MetaWrapper { meta: price_type_meta.clone() },
        };
        let found = match &self.payload.sale_prices {
            Some(list) => contains(list, &item),
            None => false,
        };
        if !found {
            match &mut self.payload.sale_prices {
                Some(list) => {
                    list.push(item);
                },
                None => {
                    let mut list = Vec::new();
                    list.push(item);
                    self.payload.sale_prices = Some(list);
                },
            }
        }
        self
    }

    /// The payload as the builder holds it. The builder stays as it is and can
    /// build again.
    pub fn build(&self) -> (payload: UpdateVariant)
        ensures
            payload.same(&self.payload),
            payload.json() == self.payload.json(),
    {
        self.payload.clone()
    }
}

} // verus!
