//! Products.

use vstd::prelude::*;
use crate::api_client::MsEntity;
use crate::json::{
    contains, entries, field, holds, object, opt_field, put, put_opt, Double, Json, JsonValue,
    ToJson,
};
use crate::values::{Moment, Uuid};
use super::assortment::{Barcode, BuyPrice, MinPrice, SalePrice};
use super::{contains_text, held, holds_text, same_lists, Attribute, Meta, MetaWrapper, TaxSystem};

verus! {

/// A product.
#[derive(Default, Debug, Clone, PartialEq)]
pub struct Product {
    pub account_id: Uuid,
    pub archived: Option<bool>,
    pub article: Option<String>,
    pub attributes: Option<Vec<Attribute>>,
    pub barcodes: Option<Vec<Barcode>>,
    pub buy_price: Option<BuyPrice>,
    pub code: Option<String>,
    pub country: Option<MetaWrapper>,
    pub description: Option<String>,
    pub discount_prohibited: Option<bool>,
    pub effective_vat: Option<i64>,
    pub effective_vat_enabled: Option<bool>,
    pub external_code: Option<String>,
    pub files: Option<MetaWrapper>,
    pub group: Option<MetaWrapper>,
    pub id: Uuid,
    pub images: Option<MetaWrapper>,
    pub is_serial_trackable: Option<bool>,
    pub meta: Meta,
    pub min_price: Option<MinPrice>,
    pub minimum_balance: Option<i32>,
    pub name: Option<String>,
    pub owner: Option<MetaWrapper>,
    pub packs: Option<Vec<Pack>>,
    pub partial_disposal: Option<bool>,
    pub path_name: Option<String>,
    pub payment_item_type: Option<String>,
    pub product_folder: Option<MetaWrapper>,
    pub sale_prices: Vec<SalePrice>,
    pub shared: Option<bool>,
    pub supplier: Option<MetaWrapper>,
    pub tax_system: Option<TaxSystem>,
    pub things: Option<Vec<String>>,
    pub tnved: Option<String>,
    pub tracking_type: Option<String>,
    pub uom: Option<MetaWrapper>,
    pub updated: Option<Moment>,
    pub use_parent_vat: Option<bool>,
    pub variants_count: Option<i64>,
    pub vat: Option<i64>,
    pub vat_enabled: Option<bool>,
    pub volume: Option<Double>,
    pub weight: Option<Double>,
}

impl Product {
    /// Begins the payload that creates a product of the given name.
    pub fn create(name: &str) -> (builder: CreateProductBuilder)
        ensures
            builder.payload.name@ == name@,
            builder.payload.is_unset(),
    {
        CreateProductBuilder::new(name)
    }

    /// Begins the payload that updates a product. Only the fields that are set
    /// afterwards are sent, and only they change.
    pub fn update() -> (builder: UpdateProductBuilder)
        ensures
            builder.payload.is_unset(),
    {
        UpdateProductBuilder::new()
    }
}

impl MsEntity for Product {
    open spec fn endpoint() -> Seq<char> {
        "https://api.moysklad.ru/api/remap/1.2/entity/product"@
    }

    fn url() -> (url: String) {
        "https://api.moysklad.ru/api/remap/1.2/entity/product".to_owned()
    }
}

/// A packing of a product: so many of it, in a unit of its own.
#[derive(Default, Debug, PartialEq)]
pub struct Pack {
    pub barcodes: Option<Vec<String>>,
    pub id: Uuid,
    pub quantity: Double,
    pub uom: MetaWrapper,
}

impl Pack {
    /// Whether two values hold the same in every field; lists are compared by the
    /// items they hold.
    pub open spec fn same(&self, other: &Self) -> bool {
        &&& same_lists(self.barcodes, other.barcodes)
        &&& self.id == other.id
        &&& self.quantity == other.quantity
        &&& self.uom == other.uom
    }
}

impl Clone for Pack {
    fn clone(&self) -> (r: Self)
        ensures
            r.same(self),
            r.json() == self.json(),
    {
        let barcodes = self.barcodes.clone();
        let uom = self.uom.clone();
        assert(uom == self.uom);
        assert({
            &&& same_lists(barcodes, self.barcodes)
            &&& field("barcodes"@, barcodes) == field(
                "barcodes"@,
                self.barcodes,
            )
        }) by {
            match (barcodes, self.barcodes) {
                (Some(a), Some(b)) => {
                    assert(a@ =~= b@);
                    assert(a.json()->Array_0 =~= b.json()->Array_0);
                },
                _ => {},
            }
        }
        Pack {
            barcodes,
            id: self.id,
            quantity: self.quantity,
            uom,
        }
    }
}

impl ToJson for Pack {
    open spec fn json(&self) -> JsonValue {
        JsonValue::Object(
            Seq::empty()
                + field("barcodes"@, self.barcodes)
                + field("id"@, self.id)
                + field("quantity"@, self.quantity)
                + field("uom"@, self.uom),
        )
    }

    fn to_json(&self) -> (j: Json) {
        let mut members: Vec<(String, Json)> = Vec::new();
        assert(entries(members@) =~= Seq::empty());
        put(&mut members, "barcodes", &self.barcodes);
        put(&mut members, "id", &self.id);
        put(&mut members, "quantity", &self.quantity);
        put(&mut members, "uom", &self.uom);
        object(members)
    }
}

/// Whether two optional lists of packings are both unset, or hold packings
/// that are the same, one for one.
pub open spec fn same_packs(a: Option<Vec<Pack>>, b: Option<Vec<Pack>>) -> bool {
    match (a, b) {
        (Some(x), Some(y)) => x@.len() == y@.len() && forall|i: int|
            0 <= i < x@.len() ==> (#[trigger] x@[i]).same(&y@[i]),
        (None, None) => true,
        _ => false,
    }
}

/// A sale price in a payload: the type of price is given by reference.
#[derive(Default, Debug, PartialEq)]
pub struct CreateSalePrice {
    pub value: Double,
    pub currency: MetaWrapper,
    pub price_type: MetaWrapper,
}

impl Clone for CreateSalePrice {
    fn clone(&self) -> (r: Self)
        ensures
            r == *self,
    {
        let currency = self.currency.clone();
        let price_type = self.price_type.clone();
        CreateSalePrice {
            value: self.value,
            currency,
            price_type,
        }
    }
}

impl ToJson for CreateSalePrice {
    open spec fn json(&self) -> JsonValue {
        JsonValue::Object(
            Seq::empty()
                + field("value"@, self.value)
                + field("currency"@, self.currency)
                + field("priceType"@, self.price_type),
        )
    }

    fn to_json(&self) -> (j: Json) {
        let mut members: Vec<(String, Json)> = Vec::new();
        assert(entries(members@) =~= Seq::empty());
        put(&mut members, "value", &self.value);
        put(&mut members, "currency", &self.currency);
        put(&mut members, "priceType", &self.price_type);
        object(members)
    }
}

/// The sale price of a value in a currency, of a type of price.
pub open spec fn sale_price(value: Double, currency_meta: Meta, price_type_meta: Meta)
    -> CreateSalePrice {
    CreateSalePrice {
        value,
        currency: MetaWrapper { meta: currency_meta },
        price_type: MetaWrapper { meta: price_type_meta },
    }
}

/// The payload that creates a product. A field that is not set is left out of
/// the document.
#[derive(Default, Debug, PartialEq)]
pub struct CreateProduct {
    pub article: Option<String>,
    pub attributes: Option<Vec<Attribute>>,
    pub barcodes: Option<Vec<Barcode>>,
    pub buy_price: Option<BuyPrice>,
    pub code: Option<String>,
    pub country: Option<MetaWrapper>,
    pub description: Option<String>,
    pub discount_prohibited: Option<bool>,
    pub external_code: Option<String>,
    pub files: Option<MetaWrapper>,
    pub group: Option<MetaWrapper>,
    pub images: Option<MetaWrapper>,
    pub is_serial_trackable: Option<bool>,
    pub min_price: Option<MinPrice>,
    pub minimum_balance: Option<i32>,
    pub name: String,
    pub packs: Option<Vec<Pack>>,
    pub partial_disposal: Option<bool>,
    pub payment_item_type: Option<String>,
    pub product_folder: Option<MetaWrapper>,
    pub sale_prices: Option<Vec<CreateSalePrice>>,
    pub shared: Option<bool>,
    pub supplier: Option<MetaWrapper>,
    pub tax_system: Option<TaxSystem>,
    pub things: Option<Vec<String>>,
    pub tnved: Option<String>,
    pub tracking_type: Option<String>,
    pub uom: Option<MetaWrapper>,
    pub use_parent_vat: Option<bool>,
    pub vat: Option<i64>,
    pub vat_enabled: Option<bool>,
    pub volume: Option<Double>,
    pub weight: Option<Double>,
}

impl CreateProduct {
    /// Whether no optional field is set.
    pub open spec fn is_unset(&self) -> bool {
        &&& self.article is None
        &&& self.attributes is None
        &&& self.barcodes is None
        &&& self.buy_price is None
        &&& self.code is None
        &&& self.country is None
        &&& self.description is None
        &&& self.discount_prohibited is None
        &&& self.external_code is None
        &&& self.files is None
        &&& self.group is None
        &&& self.images is None
        &&& self.is_serial_trackable is None
        &&& self.min_price is None
        &&& self.minimum_balance is None
        &&& self.packs is None
        &&& self.partial_disposal is None
        &&& self.payment_item_type is None
        &&& self.product_folder is None
        &&& self.sale_prices is None
        &&& self.shared is None
        &&& self.supplier is None
        &&& self.tax_system is None
        &&& self.things is None
        &&& self.tnved is None
        &&& self.tracking_type is None
        &&& self.uom is None
        &&& self.use_parent_vat is None
        &&& self.vat is None
        &&& self.vat_enabled is None
        &&& self.volume is None
        &&& self.weight is None
    }

    /// Whether two values hold the same in every field; lists are compared by the
    /// items they hold.
    pub open spec fn same(&self, other: &Self) -> bool {
        &&& self.article == other.article
        &&& same_lists(self.attributes, other.attributes)
        &&& same_lists(self.barcodes, other.barcodes)
        &&& self.buy_price == other.buy_price
        &&& self.code == other.code
        &&& self.country == other.country
        &&& self.description == other.description
        &&& self.discount_prohibited == other.discount_prohibited
        &&& self.external_code == other.external_code
        &&& self.files == other.files
        &&& self.group == other.group
        &&& self.images == other.images
        &&& self.is_serial_trackable == other.is_serial_trackable
        &&& self.min_price == other.min_price
        &&& self.minimum_balance == other.minimum_balance
        &&& self.name == other.name
        &&& same_packs(self.packs, other.packs)
        &&& self.partial_disposal == other.partial_disposal
        &&& self.payment_item_type == other.payment_item_type
        &&& self.product_folder == other.product_folder
        &&& same_lists(self.sale_prices, other.sale_prices)
        &&& self.shared == other.shared
        &&& self.supplier == other.supplier
        &&& self.tax_system == other.tax_system
        &&& same_lists(self.things, other.things)
        &&& self.tnved == other.tnved
        &&& self.tracking_type == other.tracking_type
        &&& self.uom == other.uom
        &&& self.use_parent_vat == other.use_parent_vat
        &&& self.vat == other.vat
        &&& self.vat_enabled == other.vat_enabled
        &&& self.volume == other.volume
        &&& self.weight == other.weight
    }
}

impl Clone for CreateProduct {
    fn clone(&self) -> (r: Self)
        ensures
            r.same(self),
            r.json() == self.json(),
    {
        let article = self.article.clone();
        assert(article == self.article);
        let attributes = self.attributes.clone();
        let barcodes = self.barcodes.clone();
        let buy_price = self.buy_price.clone();
        assert(buy_price == self.buy_price);
        let code = self.code.clone();
        assert(code == self.code);
        let country = self.country.clone();
        assert(country == self.country);
        let description = self.description.clone();
        assert(description == self.description);
        let external_code = self.external_code.clone();
        assert(external_code == self.external_code);
        let files = self.files.clone();
        assert(files == self.files);
        let group = self.group.clone();
        assert(group == self.group);
        let images = self.images.clone();
        assert(images == self.images);
        let min_price = self.min_price.clone();
        assert(min_price == self.min_price);
        let name = self.name.clone();
        assert(name == self.name);
        let packs = self.packs.clone();
        let payment_item_type = self.payment_item_type.clone();
        assert(payment_item_type == self.payment_item_type);
        let product_folder = self.product_folder.clone();
        assert(product_folder == self.product_folder);
        let sale_prices = self.sale_prices.clone();
        let supplier = self.supplier.clone();
        assert(supplier == self.supplier);
        let things = self.things.clone();
        let tnved = self.tnved.clone();
        assert(tnved == self.tnved);
        let tracking_type = self.tracking_type.clone();
        assert(tracking_type == self.tracking_type);
        let uom = self.uom.clone();
        assert(uom == self.uom);
        assert({
            &&& same_lists(attributes, self.attributes)
            &&& opt_field("attributes"@, attributes) == opt_field(
                "attributes"@,
                self.attributes,
            )
        }) by {
            match (attributes, self.attributes) {
                (Some(a), Some(b)) => {
                    assert(a@ =~= b@);
                    assert(a.json()->Array_0 =~= b.json()->Array_0);
                },
                _ => {},
            }
        }
        assert({
            &&& same_lists(barcodes, self.barcodes)
            &&& opt_field("barcodes"@, barcodes) == opt_field(
                "barcodes"@,
                self.barcodes,
            )
        }) by {
            match (barcodes, self.barcodes) {
                (Some(a), Some(b)) => {
                    assert(a@ =~= b@);
                    assert(a.json()->Array_0 =~= b.json()->Array_0);
                },
                _ => {},
            }
        }
        assert({
            &&& same_packs(packs, self.packs)
            &&& opt_field("packs"@, packs) == opt_field(
                "packs"@,
                self.packs,
            )
        }) by {
            match (packs, self.packs) {
                (Some(a), Some(b)) => {
                    assert(a.json()->Array_0 =~= b.json()->Array_0);
                },
                _ => {},
            }
        }
        assert({
            &&& same_lists(sale_prices, self.sale_prices)
            &&& opt_field("salePrices"@, sale_prices) == opt_field(
                "salePrices"@,
                self.sale_prices,
            )
        }) by {
            match (sale_prices, self.sale_prices) {
                (Some(a), Some(b)) => {
                    assert(a@ =~= b@);
                    assert(a.json()->Array_0 =~= b.json()->Array_0);
                },
                _ => {},
            }
        }
        assert({
            &&& same_lists(things, self.things)
            &&& opt_field("things"@, things) == opt_field(
                "things"@,
                self.things,
            )
        }) by {
            match (things, self.things) {
                (Some(a), Some(b)) => {
                    assert(a@ =~= b@);
                    assert(a.json()->Array_0 =~= b.json()->Array_0);
                },
                _ => {},
            }
        }
        CreateProduct {
            article,
            attributes,
            barcodes,
            buy_price,
            code,
            country,
            description,
            discount_prohibited: self.discount_prohibited,
            external_code,
            files,
            group,
            images,
            is_serial_trackable: self.is_serial_trackable,
            min_price,
            minimum_balance: self.minimum_balance,
            name,
            packs,
            partial_disposal: self.partial_disposal,
            payment_item_type,
            product_folder,
            sale_prices,
            shared: self.shared,
            supplier,
            tax_system: self.tax_system,
            things,
            tnved,
            tracking_type,
            uom,
            use_parent_vat: self.use_parent_vat,
            vat: self.vat,
            vat_enabled: self.vat_enabled,
            volume: self.volume,
            weight: self.weight,
        }
    }
}

impl ToJson for CreateProduct {
    open spec fn json(&self) -> JsonValue {
        JsonValue::Object(
            Seq::empty()
                + opt_field("article"@, self.article)
                + opt_field("attributes"@, self.attributes)
                + opt_field("barcodes"@, self.barcodes)
                + opt_field("buyPrice"@, self.buy_price)
                + opt_field("code"@, self.code)
                + opt_field("country"@, self.country)
                + opt_field("description"@, self.description)
                + opt_field("discountProhibited"@, self.discount_prohibited)
                + opt_field("externalCode"@, self.external_code)
                + opt_field("files"@, self.files)
                + opt_field("group"@, self.group)
                + opt_field("images"@, self.images)
                + opt_field("isSerialTrackable"@, self.is_serial_trackable)
                + opt_field("minPrice"@, self.min_price)
                + opt_field("minimumBalance"@, self.minimum_balance)
                + field("name"@, self.name)
                + opt_field("packs"@, self.packs)
                + opt_field("partialDisposal"@, self.partial_disposal)
                + opt_field("paymentItemType"@, self.payment_item_type)
                + opt_field("productFolder"@, self.product_folder)
                + opt_field("salePrices"@, self.sale_prices)
                + opt_field("shared"@, self.shared)
                + opt_field("supplier"@, self.supplier)
                + opt_field("taxSystem"@, self.tax_system)
                + opt_field("things"@, self.things)
                + opt_field("tnved"@, self.tnved)
                + opt_field("trackingType"@, self.tracking_type)
                + opt_field("uom"@, self.uom)
                + opt_field("useParentVat"@, self.use_parent_vat)
                + opt_field("vat"@, self.vat)
                + opt_field("vatEnabled"@, self.vat_enabled)
                + opt_field("volume"@, self.volume)
                + opt_field("weight"@, self.weight),
        )
    }

    fn to_json(&self) -> (j: Json) {
        let mut members: Vec<(String, Json)> = Vec::new();
        assert(entries(members@) =~= Seq::empty());
        put_opt(&mut members, "article", &self.article);
        put_opt(&mut members, "attributes", &self.attributes);
        put_opt(&mut members, "barcodes", &self.barcodes);
        put_opt(&mut members, "buyPrice", &self.buy_price);
        put_opt(&mut members, "code", &self.code);
        put_opt(&mut members, "country", &self.country);
        put_opt(&mut members, "description", &self.description);
        put_opt(&mut members, "discountProhibited", &self.discount_prohibited);
        put_opt(&mut members, "externalCode", &self.external_code);
        put_opt(&mut members, "files", &self.files);
        put_opt(&mut members, "group", &self.group);
        put_opt(&mut members, "images", &self.images);
        put_opt(&mut members, "isSerialTrackable", &self.is_serial_trackable);
        put_opt(&mut members, "minPrice", &self.min_price);
        put_opt(&mut members, "minimumBalance", &self.minimum_balance);
        put(&mut members, "name", &self.name);
        put_opt(&mut members, "packs", &self.packs);
        put_opt(&mut members, "partialDisposal", &self.partial_disposal);
        put_opt(&mut members, "paymentItemType", &self.payment_item_type);
        put_opt(&mut members, "productFolder", &self.product_folder);
        put_opt(&mut members, "salePrices", &self.sale_prices);
        put_opt(&mut members, "shared", &self.shared);
        put_opt(&mut members, "supplier", &self.supplier);
        put_opt(&mut members, "taxSystem", &self.tax_system);
        put_opt(&mut members, "things", &self.things);
        put_opt(&mut members, "tnved", &self.tnved);
        put_opt(&mut members, "trackingType", &self.tracking_type);
        put_opt(&mut members, "uom", &self.uom);
        put_opt(&mut members, "useParentVat", &self.use_parent_vat);
        put_opt(&mut members, "vat", &self.vat);
        put_opt(&mut members, "vatEnabled", &self.vat_enabled);
        put_opt(&mut members, "volume", &self.volume);
        put_opt(&mut members, "weight", &self.weight);
        object(members)
    }
}

impl CreateProduct {
    /// A payload on which no optional field is set is written as the object of
    /// the members that are always written, and of no other: a field that is
    /// not set leaves no member behind, not even a `null`.
    pub proof fn lemma_unset_fields_are_left_out(self)
        requires
            self.is_unset(),
        ensures
            self.json() == JsonValue::Object(seq![("name"@, self.name.json())]),
    {
        assert(self.json()->Object_0 =~= seq![("name"@, self.name.json())]);
    }
}

/// Collects the fields of a `CreateProduct`.
#[derive(Default)]
pub struct CreateProductBuilder {
    pub payload: CreateProduct,
}

impl CreateProductBuilder {
    /// A builder that holds the name of the product and nothing else.
    pub fn new(name: &str) -> (builder: Self)
        ensures
            builder.payload.name@ == name@,
            builder.payload.is_unset(),
    {
        CreateProductBuilder {
            payload: CreateProduct {
                article: None,
                attributes: None,
                barcodes: None,
                buy_price: None,
                code: None,
                country: None,
                description: None,
                discount_prohibited: None,
                external_code: None,
                files: None,
                group: None,
                images: None,
                is_serial_trackable: None,
                min_price: None,
                minimum_balance: None,
                name: name.to_owned(),
                packs: None,
                partial_disposal: None,
                payment_item_type: None,
                product_folder: None,
                sale_prices: None,
                shared: None,
                supplier: None,
                tax_system: None,
                things: None,
                tnved: None,
                tracking_type: None,
                uom: None,
                use_parent_vat: None,
                vat: None,
                vat_enabled: None,
                volume: None,
                weight: None,
            },
        }
    }

    /// The article
    pub fn article(&mut self, article: &str) -> (ret: &mut Self)
        ensures
            ret.payload.article matches Some(text) && text@ == article@,
            ret.payload == (CreateProduct {
                article: ret.payload.article,
                ..old(self).payload
            }),
            *final(self) == *final(ret),
    {
        self.payload.article = Some(article.to_owned());
        self
    }

    /// Adds the value of a custom field, unless a value that is written as the
    /// same document is there already
    pub fn attribute(&mut self, attribute: Attribute) -> (ret: &mut Self)
        ensures
            ({
                let before = held(old(self).payload.attributes);
                if holds(before, attribute) {
                    ret.payload == old(self).payload
                } else {
                    &&& ret.payload.attributes matches Some(list)
                    &&& list@ == before.push(attribute)
                    &&& ret.payload == (CreateProduct {
                        attributes: ret.payload.attributes,
                        ..old(self).payload
                    })
                }
            }),
            *final(self) == *final(ret),
    {
        let found = match &self.payload.attributes {
            Some(list) => contains(list, &attribute),
            None => false,
        };
        if !found {
            match &mut self.payload.attributes {
                Some(list) => {
                    list.push(attribute);
                },
                None => {
                    let mut list = Vec::new();
                    list.push(attribute);
                    self.payload.attributes = Some(list);
                },
            }
        }
        self
    }

    /// Adds a barcode, as EAN-13, unless the barcode is there already
    pub fn barcode(&mut self, barcode: &str) -> (ret: &mut Self)
        ensures
            ({
                let before = held(old(self).payload.barcodes);
                if Barcode::among(before, barcode@) {
                    ret.payload == old(self).payload
                } else {
                    &&& ret.payload.barcodes matches Some(list)
                    &&& list@.len() == before.len() + 1
                    &&& list@.drop_last() == before
                    &&& list@.last().ean13@ == barcode@
                    &&& ret.payload == (CreateProduct {
                        barcodes: ret.payload.barcodes,
                        ..old(self).payload
                    })
                }
            }),
            *final(self) == *final(ret),
    {
        let item = Barcode { ean13: barcode.to_owned() };
        let found = match &self.payload.barcodes {
            Some(list) => Barcode::is_among(list, &item.ean13),
            None => false,
        };
        if !found {
            match &mut self.payload.barcodes {
                Some(list) => {
                    list.push(item);
                },
                None => {
                    let mut list = Vec::new();
                    list.push(item);
                    self.payload.barcodes = Some(list);
                },
            }
        }
        self
    }

    /// The buying price, in the given currency
    pub fn buy_price(&mut self, value: Double, currency_meta: Meta) -> (ret: &mut Self)
        ensures
            ret.payload == (CreateProduct {
                buy_price: Some(BuyPrice { value, currency: MetaWrapper { meta: currency_meta } }),
                ..old(self).payload
            }),
            *final(self) == *final(ret),
    {
        let currency = MetaWrapper { meta: currency_meta };
        self.payload.buy_price = Some(BuyPrice { value, currency });
        self
    }

    /// The code
    pub fn code(&mut self, code: &str) -> (ret: &mut Self)
        ensures
            ret.payload.code matches Some(text) && text@ == code@,
            ret.payload == (CreateProduct {
                code: ret.payload.code,
                ..old(self).payload
            }),
            *final(self) == *final(ret),
    {
        self.payload.code = Some(code.to_owned());
        self
    }

    /// The country
    pub fn country(&mut self, country_meta: &Meta) -> (ret: &mut Self)
        ensures
            ret.payload == (CreateProduct {
                country: Some(MetaWrapper { meta: *country_meta }),
                ..old(self).payload
            }),
            *final(self) == *final(ret),
    {
        self.payload.country = Some(MetaWrapper { meta: country_meta.clone() });
        self
    }

    /// The description
    pub fn description(&mut self, description: &str) -> (ret: &mut Self)
        ensures
            ret.payload.description matches Some(text) && text@ == description@,
            ret.payload == (CreateProduct {
                description: ret.payload.description,
                ..old(self).payload
            }),
            *final(self) == *final(ret),
    {
        self.payload.description = Some(description.to_owned());
        self
    }

    /// Whether discounts are prohibited
    pub fn discount_prohibited(&mut self, discount_prohibited: bool) -> (ret: &mut Self)
        ensures
            ret.payload == (CreateProduct {
                discount_prohibited: Some(discount_prohibited),
                ..old(self).payload
            }),
            *final(self) == *final(ret),
    {
        self.payload.discount_prohibited = Some(discount_prohibited);
        self
    }

    /// The external code
    pub fn external_code(&mut self, external_code: &str) -> (ret: &mut Self)
        ensures
            ret.payload.external_code matches Some(text) && text@ == external_code@,
            ret.payload == (CreateProduct {
                external_code: ret.payload.external_code,
                ..old(self).payload
            }),
            *final(self) == *final(ret),
    {
        self.payload.external_code = Some(external_code.to_owned());
        self
    }

    /// The files
    pub fn files(&mut self, files_meta: Meta) -> (ret: &mut Self)
        ensures
            ret.payload == (CreateProduct {
                files: Some(MetaWrapper { meta: files_meta }),
                ..old(self).payload
            }),
            *final(self) == *final(ret),
    {
        self.payload.files = Some(MetaWrapper { meta: files_meta });
        self
    }

    /// The department of the employee
    pub fn group(&mut self, group_meta: Meta) -> (ret: &mut Self)
        ensures
            ret.payload == (CreateProduct {
                group: Some(MetaWrapper { meta: group_meta }),
                ..old(self).payload
            }),
            *final(self) == *final(ret),
    {
        self.payload.group = Some(MetaWrapper { meta: group_meta });
        self
    }

    /// The images
    pub fn images(&mut self, images_meta: Meta) -> (ret: &mut Self)
        ensures
            ret.payload == (CreateProduct {
                images: Some(MetaWrapper { meta: images_meta }),
                ..old(self).payload
            }),
            *final(self) == *final(ret),
    {
        self.payload.images = Some(MetaWrapper { meta: images_meta });
        self
    }

    /// Whether serial numbers are kept
    pub fn is_serial_trackable(&mut self, is_serial_trackable: bool) -> (ret: &mut Self)
        ensures
            ret.payload == (CreateProduct {
                is_serial_trackable: Some(is_serial_trackable),
                ..old(self).payload
            }),
            *final(self) == *final(ret),
    {
        self.payload.is_serial_trackable = Some(is_serial_trackable);
        self
    }

    /// The least price, in the given currency
    pub fn min_price(&mut self, value: Double, currency_meta: Meta) -> (ret: &mut Self)
        ensures
            ret.payload == (CreateProduct {
                min_price: Some(MinPrice { value, currency: MetaWrapper { meta: currency_meta } }),
                ..old(self).payload
            }),
            *final(self) == *final(ret),
    {
        let currency = MetaWrapper { meta: currency_meta };
        self.payload.min_price = Some(MinPrice { value, currency });
        self
    }

    /// The least stock to keep
    pub fn minimum_balance(&mut self, minimum_balance: i32) -> (ret: &mut Self)
        ensures
            ret.payload == (CreateProduct {
                minimum_balance: Some(minimum_balance),
                ..old(self).payload
            }),
            *final(self) == *final(ret),
    {
        self.payload.minimum_balance = Some(minimum_balance);
        self
    }

    /// Adds a packing, unless a packing that is written as the same document is
    /// there already
    pub fn pack(&mut self, pack: Pack) -> (ret: &mut Self)
        ensures
            ({
                let before = held(old(self).payload.packs);
                if holds(before, pack) {
                    ret.payload == old(self).payload
                } else {
                    &&& ret.payload.packs matches Some(list)
                    &&& list@ == before.push(pack)
                    &&& ret.payload == (CreateProduct {
                        packs: ret.payload.packs,
                        ..old(self).payload
                    })
                }
            }),
            *final(self) == *final(ret),
    {
        let found = match &self.payload.packs {
            Some(list) => contains(list, &pack),
            None => false,
        };
        if !found {
            match &mut self.payload.packs {
                Some(list) => {
                    list.push(pack);
                },
                None => {
                    let mut list = Vec::new();
                    list.push(pack);
                    self.payload.packs = Some(list);
                },
            }
        }
        self
    }

    /// Whether it can be sold in parts
    pub fn partial_disposal(&mut self, partial_disposal: bool) -> (ret: &mut Self)
        ensures
            ret.payload == (CreateProduct {
                partial_disposal: Some(partial_disposal),
                ..old(self).payload
            }),
            *final(self) == *final(ret),
    {
        self.payload.partial_disposal = Some(partial_disposal);
        self
    }

    /// The kind of item on a receipt
    pub fn payment_item_type(&mut self, payment_item_type: &str) -> (ret: &mut Self)
        ensures
            ret.payload.payment_item_type matches Some(text) && text@ == payment_item_type@,
            ret.payload == (CreateProduct {
                payment_item_type: ret.payload.payment_item_type,
                ..old(self).payload
            }),
            *final(self) == *final(ret),
    {
        self.payload.payment_item_type = Some(payment_item_type.to_owned());
        self
    }

    /// The group of products
    pub fn product_folder(&mut self, product_folder_meta: &Meta) -> (ret: &mut Self)
        ensures
            ret.payload == (CreateProduct {
                product_folder: Some(MetaWrapper { meta: *product_folder_meta }),
                ..old(self).payload
            }),
            *final(self) == *final(ret),
    {
        self.payload.product_folder = Some(MetaWrapper { meta: product_folder_meta.clone() });
        self
    }

    /// Adds a sale price of the given type, in the given currency, unless a
    /// price that is written as the same document is there already
    pub fn sale_price(
        &mut self,
        value: Double,
        currency_meta: &Meta,
        price_type_meta: &Meta,
    ) -> (ret: &mut Self)
        ensures
            ({
                let before = held(old(self).payload.sale_prices);
                let item = sale_price(value, *currency_meta, *price_type_meta);
                if holds(before, item) {
                    ret.payload == old(self).payload
                } else {
                    &&& ret.payload.sale_prices matches Some(list)
                    &&& list@ == before.push(item)
                    &&& ret.payload == (CreateProduct {
                        sale_prices: ret.payload.sale_prices,
                        ..old(self).payload
                    })
                }
            }),
            *final(self) == *final(ret),
    {
        let item = CreateSalePrice {
            value,
            currency: MetaWrapper { meta: currency_meta.clone() },
            price_type: MetaWrapper { meta: price_type_meta.clone() },
        };
        let found = match &self.payload.sale_prices {
            Some(list) => contains(list, &item),
            None => false,
        };
        if !found {
            match &mut self.payload.sale_prices {
                Some(list) => {
                    list.push(item);
                },
                None => {
                    let mut list = Vec::new();
                    list.push(item);
                    self.payload.sale_prices = Some(list);
                },
            }
        }
        self
    }

    /// Whether access is shared
    pub fn shared(&mut self, shared: bool) -> (ret: &mut Self)
        ensures
            ret.payload == (CreateProduct {
                shared: Some(shared),
                ..old(self).payload
            }),
            *final(self) == *final(ret),
    {
        self.payload.shared = Some(shared);
        self
    }

    /// The supplier
    pub fn supplier(&mut self, supplier_meta: Meta) -> (ret: &mut Self)
        ensures
            ret.payload == (CreateProduct {
                supplier: Some(MetaWrapper { meta: supplier_meta }),
                ..old(self).payload
            }),
            *final(self) == *final(ret),
    {
        self.payload.supplier = Some(MetaWrapper { meta: supplier_meta });
        self
    }

    /// The tax system code
    pub fn tax_system(&mut self, tax_system: TaxSystem) -> (ret: &mut Self)
        ensures
            ret.payload == (CreateProduct {
                tax_system: Some(tax_system),
                ..old(self).payload
            }),
            *final(self) == *final(ret),
    {
        self.payload.tax_system = Some(tax_system);
        self
    }

    /// Adds a serial number, unless the number is there already
    pub fn thing(&mut self, thing: &str) -> (ret: &mut Self)
        ensures
            ({
                let before = held(old(self).payload.things);
                if holds_text(before, thing@) {
                    ret.payload == old(self).payload
                } else {
                    &&& ret.payload.things matches Some(list)
                    &&& list@.len() == before.len() + 1
                    &&& list@.drop_last() == before
                    &&& list@.last()@ == thing@
                    &&& ret.payload == (CreateProduct {
                        things: ret.payload.things,
                        ..old(self).payload
                    })
                }
            }),
            *final(self) == *final(ret),
    {
        let item = thing.to_owned();
        let found = match &self.payload.things {
            Some(list) => contains_text(list, &item),
            None => false,
        };
        if !found {
            match &mut self.payload.things {
                Some(list) => {
                    list.push(item);
                },
                None => {
                    let mut list = Vec::new();
                    list.push(item);
                    self.payload.things = Some(list);
                },
            }
        }
        self
    }

    /// The TN VED code
    pub fn tnved(&mut self, tnved: &str) -> (ret: &mut Self)
        ensures
            ret.payload.tnved matches Some(text) && text@ == tnved@,
            ret.payload == (CreateProduct {
                tnved: ret.payload.tnved,
                ..old(self).payload
            }),
            *final(self) == *final(ret),
    {
        self.payload.tnved = Some(tnved.to_owned());
        self
    }

    /// The kind of marked goods
    pub fn tracking_type(&mut self, tracking_type: &str) -> (ret: &mut Self)
        ensures
            ret.payload.tracking_type matches Some(text) && text@ == tracking_type@,
            ret.payload == (CreateProduct {
                tracking_type: ret.payload.tracking_type,
                ..old(self).payload
            }),
            *final(self) == *final(ret),
    {
        self.payload.tracking_type = Some(tracking_type.to_owned());
        self
    }

    /// The unit of measure
    pub fn uom(&mut self, uom_meta: &Meta) -> (ret: &mut Self)
        ensures
            ret.payload == (CreateProduct {
                uom: Some(MetaWrapper { meta: *uom_meta }),
                ..old(self).payload
            }),
            *final(self) == *final(ret),
    {
        self.payload.uom = Some(MetaWrapper { meta: uom_meta.clone() });
        self
    }

    /// Whether the VAT rate of the group applies
    pub fn use_parent_vat(&mut self, use_parent_vat: bool) -> (ret: &mut Self)
        ensures
            ret.payload == (CreateProduct {
                use_parent_vat: Some(use_parent_vat),
                ..old(self).payload
            }),
            *final(self) == *final(ret),
    {
        self.payload.use_parent_vat = Some(use_parent_vat);
        self
    }

    /// The VAT, in percent
    pub fn vat(&mut self, vat: i64) -> (ret: &mut Self)
        ensures
            ret.payload == (CreateProduct {
                vat: Some(vat),
                ..old(self).payload
            }),
            *final(self) == *final(ret),
    {
        self.payload.vat = Some(vat);
        self
    }

    /// Tells a VAT of 0 % (true) from no VAT (false)
    pub fn vat_enabled(&mut self, vat_enabled: bool) -> (ret: &mut Self)
        ensures
            ret.payload == (CreateProduct {
                vat_enabled: Some(vat_enabled),
                ..old(self).payload
            }),
            *final(self) == *final(ret),
    {
        self.payload.vat_enabled = Some(vat_enabled);
        self
    }

    /// The volume
    pub fn volume(&mut self, volume: Double) -> (ret: &mut Self)
        ensures
            ret.payload == (CreateProduct {
                volume: Some(volume),
                ..old(self).payload
            }),
            *final(self) == *final(ret),
    {
        self.payload.volume = Some(volume);
        self
    }

    /// The weight
    pub fn weight(&mut self, weight: Double) -> (ret: &mut Self)
        ensures
            ret.payload == (CreateProduct {
                weight: Some(weight),
                ..old(self).payload
            }),
            *final(self) == *final(ret),
    {
        self.payload.weight = Some(weight);
        self
    }

    /// The payload as the builder holds it. The builder stays as it is and can
    /// build again.
    pub fn build(&self) -> (payload: CreateProduct)
        ensures
            payload.same(&self.payload),
            payload.json() == self.payload.json(),
    {
        self.payload.clone()
    }
}

/// The payload that updates a product. A field that is not set is left out of
/// the document, and the service leaves it as it is.
#[derive(Default, Debug, PartialEq)]
pub struct UpdateProduct {
    pub article: Option<String>,
    pub attributes: Option<Vec<Attribute>>,
    pub barcodes: Option<Vec<Barcode>>,
    pub buy_price: Option<BuyPrice>,
    pub code: Option<String>,
    pub country: Option<MetaWrapper>,
    pub description: Option<String>,
    pub discount_prohibited: Option<bool>,
    pub external_code: Option<String>,
    pub files: Option<MetaWrapper>,
    pub group: Option<MetaWrapper>,
    pub images: Option<MetaWrapper>,
    pub is_serial_trackable: Option<bool>,
    pub meta: Option<Meta>,
    pub min_price: Option<MinPrice>,
    pub minimum_balance: Option<i32>,
    pub name: Option<String>,
    pub packs: Option<Vec<Pack>>,
    pub partial_disposal: Option<bool>,
    pub payment_item_type: Option<String>,
    pub product_folder: Option<MetaWrapper>,
    pub sale_prices: Option<Vec<CreateSalePrice>>,
    pub shared: Option<bool>,
    pub supplier: Option<MetaWrapper>,
    pub tax_system: Option<TaxSystem>,
    pub things: Option<Vec<String>>,
    pub tnved: Option<String>,
    pub tracking_type: Option<String>,
    pub uom: Option<MetaWrapper>,
    pub use_parent_vat: Option<bool>,
    pub vat: Option<i64>,
    pub vat_enabled: Option<bool>,
    pub volume: Option<Double>,
    pub weight: Option<Double>,
}

impl UpdateProduct {
    /// Whether no optional field is set.
    pub open spec fn is_unset(&self) -> bool {
        &&& self.article is None
        &&& self.attributes is None
        &&& self.barcodes is None
        &&& self.buy_price is None
        &&& self.code is None
        &&& self.country is None
        &&& self.description is None
        &&& self.discount_prohibited is None
        &&& self.external_code is None
        &&& self.files is None
        &&& self.group is None
        &&& self.images is None
        &&& self.is_serial_trackable is None
        &&& self.meta is None
        &&& self.min_price is None
        &&& self.minimum_balance is None
        &&& self.name is None
        &&& self.packs is None
        &&& self.partial_disposal is None
        &&& self.payment_item_type is None
        &&& self.product_folder is None
        &&& self.sale_prices is None
        &&& self.shared is None
        &&& self.supplier is None
        &&& self.tax_system is None
        &&& self.things is None
        &&& self.tnved is None
        &&& self.tracking_type is None
        &&& self.uom is None
        &&& self.use_parent_vat is None
        &&& self.vat is None
        &&& self.vat_enabled is None
        &&& self.volume is None
        &&& self.weight is None
    }

    /// Whether two values hold the same in every field; lists are compared by the
    /// items they hold.
    pub open spec fn same(&self, other: &Self) -> bool {
        &&& self.article == other.article
        &&& same_lists(self.attributes, other.attributes)
        &&& same_lists(self.barcodes, other.barcodes)
        &&& self.buy_price == other.buy_price
        &&& self.code == other.code
        &&& self.country == other.country
        &&& self.description == other.description
        &&& self.discount_prohibited == other.discount_prohibited
        &&& self.external_code == other.external_code
        &&& self.files == other.files
        &&& self.group == other.group
        &&& self.images == other.images
        &&& self.is_serial_trackable == other.is_serial_trackable
        &&& self.meta == other.meta
        &&& self.min_price == other.min_price
        &&& self.minimum_balance == other.minimum_balance
        &&& self.name == other.name
        &&& same_packs(self.packs, other.packs)
        &&& self.partial_disposal == other.partial_disposal
        &&& self.payment_item_type == other.payment_item_type
        &&& self.product_folder == other.product_folder
        &&& same_lists(self.sale_prices, other.sale_prices)
        &&& self.shared == other.shared
        &&& self.supplier == other.supplier
        &&& self.tax_system == other.tax_system
        &&& same_lists(self.things, other.things)
        &&& self.tnved == other.tnved
        &&& self.tracking_type == other.tracking_type
        &&& self.uom == other.uom
        &&& self.use_parent_vat == other.use_parent_vat
        &&& self.vat == other.vat
        &&& self.vat_enabled == other.vat_enabled
        &&& self.volume == other.volume
        &&& self.weight == other.weight
    }
}

impl Clone for UpdateProduct {
    fn clone(&self) -> (r: Self)
        ensures
            r.same(self),
            r.json() == self.json(),
    {
        let article = self.article.clone();
        assert(article == self.article);
        let attributes = self.attributes.clone();
        let barcodes = self.barcodes.clone();
        let buy_price = self.buy_price.clone();
        assert(buy_price == self.buy_price);
        let code = self.code.clone();
        assert(code == self.code);
        let country = self.country.clone();
        assert(country == self.country);
        let description = self.description.clone();
        assert(description == self.description);
        let external_code = self.external_code.clone();
        assert(external_code == self.external_code);
        let files = self.files.clone();
        assert(files == self.files);
        let group = self.group.clone();
        assert(group == self.group);
        let images = self.images.clone();
        assert(images == self.images);
        let meta = self.meta.clone();
        assert(meta == self.meta);
        let min_price = self.min_price.clone();
        assert(min_price == self.min_price);
        let name = self.name.clone();
        assert(name == self.name);
        let packs = self.packs.clone();
        let payment_item_type = self.payment_item_type.clone();
        assert(payment_item_type == self.payment_item_type);
        let product_folder = self.product_folder.clone();
        assert(product_folder == self.product_folder);
        let sale_prices = self.sale_prices.clone();
        let supplier = self.supplier.clone();
        assert(supplier == self.supplier);
        let things = self.things.clone();
        let tnved = self.tnved.clone();
        assert(tnved == self.tnved);
        let tracking_type = self.tracking_type.clone();
        assert(tracking_type == self.tracking_type);
        let uom = self.uom.clone();
        assert(uom == self.uom);
        assert({
            &&& same_lists(attributes, self.attributes)
            &&& opt_field("attributes"@, attributes) == opt_field(
                "attributes"@,
                self.attributes,
            )
        }) by {
            match (attributes, self.attributes) {
                (Some(a), Some(b)) => {
                    assert(a@ =~= b@);
                    assert(a.json()->Array_0 =~= b.json()->Array_0);
                },
                _ => {},
            }
        }
        assert({
            &&& same_lists(barcodes, self.barcodes)
            &&& opt_field("barcodes"@, barcodes) == opt_field(
                "barcodes"@,
                self.barcodes,
            )
        }) by {
            match (barcodes, self.barcodes) {
                (Some(a), Some(b)) => {
                    assert(a@ =~= b@);
                    assert(a.json()->Array_0 =~= b.json()->Array_0);
                },
                _ => {},
            }
        }
        assert({
            &&& same_packs(packs, self.packs)
            &&& opt_field("packs"@, packs) == opt_field(
                "packs"@,
                self.packs,
            )
        }) by {
            match (packs, self.packs) {
                (Some(a), Some(b)) => {
                    assert(a.json()->Array_0 =~= b.json()->Array_0);
                },
                _ => {},
            }
        }
        assert({
            &&& same_lists(sale_prices, self.sale_prices)
            &&& opt_field("salePrices"@, sale_prices) == opt_field(
                "salePrices"@,
                self.sale_prices,
            )
        }) by {
            match (sale_prices, self.sale_prices) {
                (Some(a), Some(b)) => {
                    assert(a@ =~= b@);
                    assert(a.json()->Array_0 =~= b.json()->Array_0);
                },
                _ => {},
            }
        }
        assert({
            &&& same_lists(things, self.things)
            &&& opt_field("things"@, things) == opt_field(
                "things"@,
                self.things,
            )
        }) by {
            match (things, self.things) {
                (Some(a), Some(b)) => {
                    assert(a@ =~= b@);
                    assert(a.json()->Array_0 =~= b.json()->Array_0);
                },
                _ => {},
            }
        }
        UpdateProduct {
            article,
            attributes,
            barcodes,
            buy_price,
            code,
            country,
            description,
            discount_prohibited: self.discount_prohibited,
            external_code,
            files,
            group,
            images,
            is_serial_trackable: self.is_serial_trackable,
            meta,
            min_price,
            minimum_balance: self.minimum_balance,
            name,
            packs,
            partial_disposal: self.partial_disposal,
            payment_item_type,
            product_folder,
            sale_prices,
            shared: self.shared,
            supplier,
            tax_system: self.tax_system,
            things,
            tnved,
            tracking_type,
            uom,
            use_parent_vat: self.use_parent_vat,
            vat: self.vat,
            vat_enabled: self.vat_enabled,
            volume: self.volume,
            weight: self.weight,
        }
    }
}

impl ToJson for UpdateProduct {
    open spec fn json(&self) -> JsonValue {
        JsonValue::Object(
            Seq::empty()
                + opt_field("article"@, self.article)
                + opt_field("attributes"@, self.attributes)
                + opt_field("barcodes"@, self.barcodes)
                + opt_field("buyPrice"@, self.buy_price)
                + opt_field("code"@, self.code)
                + opt_field("country"@, self.country)
                + opt_field("description"@, self.description)
                + opt_field("discountProhibited"@, self.discount_prohibited)
                + opt_field("externalCode"@, self.external_code)
                + opt_field("files"@, self.files)
                + opt_field("group"@, self.group)
                + opt_field("images"@, self.images)
                + opt_field("isSerialTrackable"@, self.is_serial_trackable)
                + opt_field("meta"@, self.meta)
                + opt_field("minPrice"@, self.min_price)
                + opt_field("minimumBalance"@, self.minimum_balance)
                + opt_field("name"@, self.name)
                + opt_field("packs"@, self.packs)
                + opt_field("partialDisposal"@, self.partial_disposal)
                + opt_field("paymentItemType"@, self.payment_item_type)
                + opt_field("productFolder"@, self.product_folder)
                + opt_field("salePrices"@, self.sale_prices)
                + opt_field("shared"@, self.shared)
                + opt_field("supplier"@, self.supplier)
                + opt_field("taxSystem"@, self.tax_system)
                + opt_field("things"@, self.things)
                + opt_field("tnved"@, self.tnved)
                + opt_field("trackingType"@, self.tracking_type)
                + opt_field("uom"@, self.uom)
                + opt_field("useParentVat"@, self.use_parent_vat)
                + opt_field("vat"@, self.vat)
                + opt_field("vatEnabled"@, self.vat_enabled)
                + opt_field("volume"@, self.volume)
                + opt_field("weight"@, self.weight),
        )
    }

    fn to_json(&self) -> (j: Json) {
        let mut members: Vec<(String, Json)> = Vec::new();
        assert(entries(members@) =~= Seq::empty());
        put_opt(&mut members, "article", &self.article);
        put_opt(&mut members, "attributes", &self.attributes);
        put_opt(&mut members, "barcodes", &self.barcodes);
        put_opt(&mut members, "buyPrice", &self.buy_price);
        put_opt(&mut members, "code", &self.code);
        put_opt(&mut members, "country", &self.country);
        put_opt(&mut members, "description", &self.description);
        put_opt(&mut members, "discountProhibited", &self.discount_prohibited);
        put_opt(&mut members, "externalCode", &self.external_code);
        put_opt(&mut members, "files", &self.files);
        put_opt(&mut members, "group", &self.group);
        put_opt(&mut members, "images", &self.images);
        put_opt(&mut members, "isSerialTrackable", &self.is_serial_trackable);
        put_opt(&mut members, "meta", &self.meta);
        put_opt(&mut members, "minPrice", &self.min_price);
        put_opt(&mut members, "minimumBalance", &self.minimum_balance);
        put_opt(&mut members, "name", &self.name);
        put_opt(&mut members, "packs", &self.packs);
        put_opt(&mut members, "partialDisposal", &self.partial_disposal);
        put_opt(&mut members, "paymentItemType", &self.payment_item_type);
        put_opt(&mut members, "productFolder", &self.product_folder);
        put_opt(&mut members, "salePrices", &self.sale_prices);
        put_opt(&mut members, "shared", &self.shared);
        put_opt(&mut members, "supplier", &self.supplier);
        put_opt(&mut members, "taxSystem", &self.tax_system);
        put_opt(&mut members, "things", &self.things);
        put_opt(&mut members, "tnved", &self.tnved);
        put_opt(&mut members, "trackingType", &self.tracking_type);
        put_opt(&mut members, "uom", &self.uom);
        put_opt(&mut members, "useParentVat", &self.use_parent_vat);
        put_opt(&mut members, "vat", &self.vat);
        put_opt(&mut members, "vatEnabled", &self.vat_enabled);
        put_opt(&mut members, "volume", &self.volume);
        put_opt(&mut members, "weight", &self.weight);
        object(members)
    }
}

impl UpdateProduct {
    /// A payload on which no optional field is set is written as the empty
    /// object: a field that is not set leaves no member behind, not even a
    /// `null`.
    pub proof fn lemma_unset_fields_are_left_out(self)
        requires
            self.is_unset(),
        ensures
            self.json() == JsonValue::Object(Seq::empty()),
    {
        assert(self.json()->Object_0 =~= Seq::empty());
    }
}

/// Collects the fields of an `UpdateProduct`.
#[derive(Default)]
pub struct UpdateProductBuilder {
    pub payload: UpdateProduct,
}

impl UpdateProductBuilder {
    /// A builder that holds no field.
    pub fn new() -> (builder: Self)
        ensures
            builder.payload.is_unset(),
    {
        UpdateProductBuilder {
            payload: UpdateProduct {
                article: None,
                attributes: None,
                barcodes: None,
                buy_price: None,
                code: None,
                country: None,
                description: None,
                discount_prohibited: None,
                external_code: None,
                files: None,
                group: None,
                images: None,
                is_serial_trackable: None,
                meta: None,
                min_price: None,
                minimum_balance: None,
                name: None,
                packs: None,
                partial_disposal: None,
                payment_item_type: None,
                product_folder: None,
                sale_prices: None,
                shared: None,
                supplier: None,
                tax_system: None,
                things: None,
                tnved: None,
                tracking_type: None,
                uom: None,
                use_parent_vat: None,
                vat: None,
                vat_enabled: None,
                volume: None,
                weight: None,
            },
        }
    }

    /// The article
    pub fn article(&mut self, article: &str) -> (ret: &mut Self)
        ensures
            ret.payload.article matches Some(text) && text@ == article@,
            ret.payload == (UpdateProduct {
                article: ret.payload.article,
                ..old(self).payload
            }),
            *final(self) == *final(ret),
    {
        self.payload.article = Some(article.to_owned());
        self
    }

    /// Adds the value of a custom field, unless a value that is written as the
    /// same document is there already
    pub fn attribute(&mut self, attribute: Attribute) -> (ret: &mut Self)
        ensures
            ({
                let before = held(old(self).payload.attributes);
                if holds(before, attribute) {
                    ret.payload == old(self).payload
                } else {
                    &&& ret.payload.attributes matches Some(list)
                    &&& list@ == before.push(attribute)
                    &&& ret.payload == (UpdateProduct {
                        attributes: ret.payload.attributes,
                        ..old(self).payload
                    })
                }
            }),
            *final(self) == *final(ret),
    {
        let found = match &self.payload.attributes {
            Some(list) => contains(list, &attribute),
            None => false,
        };
        if !found {
            match &mut self.payload.attributes {
                Some(list) => {
                    list.push(attribute);
                },
                None => {
                    let mut list = Vec::new();
                    list.push(attribute);
                    self.payload.attributes = Some(list);
                },
            }
        }
        self
    }

    /// Adds a barcode, as EAN-13, unless the barcode is there already
    pub fn barcode(&mut self, barcode: &str) -> (ret: &mut Self)
        ensures
            ({
                let before = held(old(self).payload.barcodes);
                if Barcode::among(before, barcode@) {
                    ret.payload == old(self).payload
                } else {
                    &&& ret.payload.barcodes matches Some(list)
                    &&& list@.len() == before.len() + 1
                    &&& list@.drop_last() == before
                    &&& list@.last().ean13@ == barcode@
                    &&& ret.payload == (UpdateProduct {
                        barcodes: ret.payload.barcodes,
                        ..old(self).payload
                    })
                }
            }),
            *final(self) == *final(ret),
    {
        let item = Barcode { ean13: barcode.to_owned() };
        let found = match &self.payload.barcodes {
            Some(list) => Barcode::is_among(list, &item.ean13),
            None => false,
        };
        if !found {
            match &mut self.payload.barcodes {
                Some(list) => {
                    list.push(item);
                },
                None => {
                    let mut list = Vec::new();
                    list.push(item);
                    self.payload.barcodes = Some(list);
                },
            }
        }
        self
    }

    /// The buying price, in the given currency
    pub fn buy_price(&mut self, value: Double, currency_meta: Meta) -> (ret: &mut Self)
        ensures
            ret.payload == (UpdateProduct {
                buy_price: Some(BuyPrice { value, currency: MetaWrapper { meta: currency_meta } }),
                ..old(self).payload
            }),
            *final(self) == *final(ret),
    {
        let currency = MetaWrapper { meta: currency_meta };
        self.payload.buy_price = Some(BuyPrice { value, currency });
        self
    }

    /// The code
    pub fn code(&mut self, code: &str) -> (ret: &mut Self)
        ensures
            ret.payload.code matches Some(text) && text@ == code@,
            ret.payload == (UpdateProduct {
                code: ret.payload.code,
                ..old(self).payload
            }),
            *final(self) == *final(ret),
    {
        self.payload.code = Some(code.to_owned());
        self
    }

    /// The country
    pub fn country(&mut self, country_meta: Meta) -> (ret: &mut Self)
        ensures
            ret.payload == (UpdateProduct {
                country: Some(MetaWrapper { meta: country_meta }),
                ..old(self).payload
            }),
            *final(self) == *final(ret),
    {
        self.payload.country = Some(MetaWrapper { meta: country_meta });
        self
    }

    /// The description
    pub fn description(&mut self, description: &str) -> (ret: &mut Self)
        ensures
            ret.payload.description matches Some(text) && text@ == description@,
            ret.payload == (UpdateProduct {
                description: ret.payload.description,
                ..old(self).payload
            }),
            *final(self) == *final(ret),
    {
        self.payload.description = Some(description.to_owned());
        self
    }

    /// Whether discounts are prohibited
    pub fn discount_prohibited(&mut self, discount_prohibited: bool) -> (ret: &mut Self)
        ensures
            ret.payload == (UpdateProduct {
                discount_prohibited: Some(discount_prohibited),
                ..old(self).payload
            }),
            *final(self) == *final(ret),
    {
        self.payload.discount_prohibited = Some(discount_prohibited);
        self
    }

    /// The external code
    pub fn external_code(&mut self, external_code: &str) -> (ret: &mut Self)
        ensures
            ret.payload.external_code matches Some(text) && text@ == external_code@,
            ret.payload == (UpdateProduct {
                external_code: ret.payload.external_code,
                ..old(self).payload
            }),
            *final(self) == *final(ret),
    {
        self.payload.external_code = Some(external_code.to_owned());
        self
    }

    /// The files
    pub fn files(&mut self, files_meta: Meta) -> (ret: &mut Self)
        ensures
            ret.payload == (UpdateProduct {
                files: Some(MetaWrapper { meta: files_meta }),
                ..old(self).payload
            }),
            *final(self) == *final(ret),
    {
        self.payload.files = Some(MetaWrapper { meta: files_meta });
        self
    }

    /// The department of the employee
    pub fn group(&mut self, group_meta: Meta) -> (ret: &mut Self)
        ensures
            ret.payload == (UpdateProduct {
                group: Some(MetaWrapper { meta: group_meta }),
                ..old(self).payload
            }),
            *final(self) == *final(ret),
    {
        self.payload.group = Some(MetaWrapper { meta: group_meta });
        self
    }

    /// The images
    pub fn images(&mut self, images_meta: Meta) -> (ret: &mut Self)
        ensures
            ret.payload == (UpdateProduct {
                images: Some(MetaWrapper { meta: images_meta }),
                ..old(self).payload
            }),
            *final(self) == *final(ret),
    {
        self.payload.images = Some(MetaWrapper { meta: images_meta });
        self
    }

    /// Whether serial numbers are kept
    pub fn is_serial_trackable(&mut self, is_serial_trackable: bool) -> (ret: &mut Self)
        ensures
            ret.payload == (UpdateProduct {
                is_serial_trackable: Some(is_serial_trackable),
                ..old(self).payload
            }),
            *final(self) == *final(ret),
    {
        self.payload.is_serial_trackable = Some(is_serial_trackable);
        self
    }

    /// The metadata, by which a batch tells an update
    pub fn meta(&mut self, meta: Meta) -> (ret: &mut Self)
        ensures
            ret.payload == (UpdateProduct {
                meta: Some(meta),
                ..old(self).payload
            }),
            *final(self) == *final(ret),
    {
        self.payload.meta = Some(meta);
        self
    }

    /// The least price, in the given currency
    pub fn min_price(&mut self, value: Double, currency_meta: Meta) -> (ret: &mut Self)
        ensures
            ret.payload == (UpdateProduct {
                min_price: Some(MinPrice { value, currency: MetaWrapper { meta: currency_meta } }),
                ..old(self).payload
            }),
            *final(self) == *final(ret),
    {
        let currency = MetaWrapper { meta: currency_meta };
        self.payload.min_price = Some(MinPrice { value, currency });
        self
    }

    /// The least stock to keep
    pub fn minimum_balance(&mut self, minimum_balance: i32) -> (ret: &mut Self)
        ensures
            ret.payload == (UpdateProduct {
                minimum_balance: Some(minimum_balance),
                ..old(self).payload
            }),
            *final(self) == *final(ret),
    {
        self.payload.minimum_balance = Some(minimum_balance);
        self
    }

    /// The name
    pub fn name(&mut self, name: &str) -> (ret: &mut Self)
        ensures
            ret.payload.name matches Some(text) && text@ == name@,
            ret.payload == (UpdateProduct {
                name: ret.payload.name,
                ..old(self).payload
            }),
            *final(self) == *final(ret),
    {
        self.payload.name = Some(name.to_owned());
        self
    }

    /// Adds a packing, unless a packing that is written as the same document is
    /// there already
    pub fn pack(&mut self, pack: Pack) -> (ret: &mut Self)
        ensures
            ({
                let before = held(old(self).payload.packs);
                if holds(before, pack) {
                    ret.payload == old(self).payload
                } else {
                    &&& ret.payload.packs matches Some(list)
                    &&& list@ == before.push(pack)
                    &&& ret.payload == (UpdateProduct {
                        packs: ret.payload.packs,
                        ..old(self).payload
                    })
                }
            }),
            *final(self) == *final(ret),
    {
        let found = match &self.payload.packs {
            Some(list) => contains(list, &pack),
            None => false,
        };
        if !found {
            match &mut self.payload.packs {
                Some(list) => {
                    list.push(pack);
                },
                None => {
                    let mut list = Vec::new();
                    list.push(pack);
                    self.payload.packs = Some(list);
                },
            }
        }
        self
    }

    /// Whether it can be sold in parts
    pub fn partial_disposal(&mut self, partial_disposal: bool) -> (ret: &mut Self)
        ensures
            ret.payload == (UpdateProduct {
                partial_disposal: Some(partial_disposal),
                ..old(self).payload
            }),
            *final(self) == *final(ret),
    {
        self.payload.partial_disposal = Some(partial_disposal);
        self
    }

    /// The kind of item on a receipt
    pub fn payment_item_type(&mut self, payment_item_type: &str) -> (ret: &mut Self)
        ensures
            ret.payload.payment_item_type matches Some(text) && text@ == payment_item_type@,
            ret.payload == (UpdateProduct {
                payment_item_type: ret.payload.payment_item_type,
                ..old(self).payload
            }),
            *final(self) == *final(ret),
    {
        self.payload.payment_item_type = Some(payment_item_type.to_owned());
        self
    }

    /// The group of products
    pub fn product_folder(&mut self, product_folder_meta: Meta) -> (ret: &mut Self)
        ensures
            ret.payload == (UpdateProduct {
                product_folder: Some(MetaWrapper { meta: product_folder_meta }),
                ..old(self).payload
            }),
            *final(self) == *final(ret),
    {
        self.payload.product_folder = Some(MetaWrapper { meta: product_folder_meta });
        self
    }

    /// Adds a sale price of the given type, in the given currency, unless a
    /// price that is written as the same document is there already
    pub fn sale_price(
        &mut self,
        value: Double,
        currency_meta: Meta,
        price_type_meta: Meta,
    ) -> (ret: &mut Self)
        ensures
            ({
                let before = held(old(self).payload.sale_prices);
                let item = sale_price(value, currency_meta, price_type_meta);
                if holds(before, item) {
                    ret.payload == old(self).payload
                } else {
                    &&& ret.payload.sale_prices matches Some(list)
                    &&& list@ == before.push(item)
                    &&& ret.payload == (UpdateProduct {
                        sale_prices: ret.payload.sale_prices,
                        ..old(self).payload
                    })
                }
            }),
            *final(self) == *final(ret),
    {
        let item = CreateSalePrice {
            value,
            currency: MetaWrapper { meta: currency_meta },
            price_type: MetaWrapper { meta: price_type_meta },
        };
        let found = match &self.payload.sale_prices {
            Some(list) => contains(list, &item),
            None => false,
        };
        if !found {
            match &mut self.payload.sale_prices {
                Some(list) => {
                    list.push(item);
                },
                None => {
                    let mut list = Vec::new();
                    list.push(item);
                    self.payload.sale_prices = Some(list);
                },
            }
        }
        self
    }

    /// Whether access is shared
    pub fn shared(&mut self, shared: bool) -> (ret: &mut Self)
        ensures
            ret.payload == (UpdateProduct {
                shared: Some(shared),
                ..old(self).payload
            }),
            *final(self) == *final(ret),
    {
        self.payload.shared = Some(shared);
        self
    }

    /// The supplier
    pub fn supplier(&mut self, supplier_meta: Meta) -> (ret: &mut Self)
        ensures
            ret.payload == (UpdateProduct {
                supplier: Some(MetaWrapper { meta: supplier_meta }),
                ..old(self).payload
            }),
            *final(self) == *final(ret),
    {
        self.payload.supplier = Some(MetaWrapper { meta: supplier_meta });
        self
    }

    /// The tax system code
    pub fn tax_system(&mut self, tax_system: TaxSystem) -> (ret: &mut Self)
        ensures
            ret.payload == (UpdateProduct {
                tax_system: Some(tax_system),
                ..old(self).payload
            }),
            *final(self) == *final(ret),
    {
        self.payload.tax_system = Some(tax_system);
        self
    }

    /// Adds a serial number, unless the number is there already
    pub fn thing(&mut self, thing: &str) -> (ret: &mut Self)
        ensures
            ({
                let before = held(old(self).payload.things);
                if holds_text(before, thing@) {
                    ret.payload == old(self).payload
                } else {
                    &&& ret.payload.things matches Some(list)
                    &&& list@.len() == before.len() + 1
                    &&& list@.drop_last() == before
                    &&& list@.last()@ == thing@
                    &&& ret.payload == (UpdateProduct {
                        things: ret.payload.things,
                        ..old(self).payload
                    })
                }
            }),
            *final(self) == *final(ret),
    {
        let item = thing.to_owned();
        let found = match &self.payload.things {
            Some(list) => contains_text(list, &item),
            None => false,
        };
        if !found {
            match &mut self.payload.things {
                Some(list) => {
                    list.push(item);
                },
                None => {
                    let mut list = Vec::new();
                    list.push(item);
                    self.payload.things = Some(list);
                },
            }
        }
        self
    }

    /// The TN VED code
    pub fn tnved(&mut self, tnved: &str) -> (ret: &mut Self)
        ensures
            ret.payload.tnved matches Some(text) && text@ == tnved@,
            ret.payload == (UpdateProduct {
                tnved: ret.payload.tnved,
                ..old(self).payload
            }),
            *final(self) == *final(ret),
    {
        self.payload.tnved = Some(tnved.to_owned());
        self
    }

    /// The kind of marked goods
    pub fn tracking_type(&mut self, tracking_type: &str) -> (ret: &mut Self)
        ensures
            ret.payload.tracking_type matches Some(text) && text@ == tracking_type@,
            ret.payload == (UpdateProduct {
                tracking_type: ret.payload.tracking_type,
                ..old(self).payload
            }),
            *final(self) == *final(ret),
    {
        self.payload.tracking_type = Some(tracking_type.to_owned());
        self
    }

    /// The unit of measure
    pub fn uom(&mut self, uom_meta: Meta) -> (ret: &mut Self)
        ensures
            ret.payload == (UpdateProduct {
                uom: Some(MetaWrapper { meta: uom_meta }),
                ..old(self).payload
            }),
            *final(self) == *final(ret),
    {
        self.payload.uom = Some(MetaWrapper { meta: uom_meta });
        self
    }

    /// Whether the VAT rate of the group applies
    pub fn use_parent_vat(&mut self, use_parent_vat: bool) -> (ret: &mut Self)
        ensures
            ret.payload == (UpdateProduct {
                use_parent_vat: Some(use_parent_vat),
                ..old(self).payload
            }),
            *final(self) == *final(ret),
    {
        self.payload.use_parent_vat = Some(use_parent_vat);
        self
    }

    /// The VAT, in percent
    pub fn vat(&mut self, vat: i64) -> (ret: &mut Self)
        ensures
            ret.payload == (UpdateProduct {
                vat: Some(vat),
                ..old(self).payload
            }),
            *final(self) == *final(ret),
    {
        self.payload.vat = Some(vat);
        self
    }

    /// Tells a VAT of 0 % (true) from no VAT (false)
    pub fn vat_enabled(&mut self, vat_enabled: bool) -> (ret: &mut Self)
        ensures
            ret.payload == (UpdateProduct {
                vat_enabled: Some(vat_enabled),
                ..old(self).payload
            }),
            *final(self) == *final(ret),
    {
        self.payload.vat_enabled = Some(vat_enabled);
        self
    }

    /// The volume
    pub fn volume(&mut self, volume: Double) -> (ret: &mut Self)
        ensures
            ret.payload == (UpdateProduct {
                volume: Some(volume),
                ..old(self).payload
            }),
            *final(self) == *final(ret),
    {
        self.payload.volume = Some(volume);
        self
    }

    /// The weight
    pub fn weight(&mut self, weight: Double) -> (ret: &mut Self)
        ensures
            ret.payload == (UpdateProduct {
                weight: Some(weight),
                ..old(self).payload
            }),
            *final(self) == *final(ret),
    {
        self.payload.weight = Some(weight);
        self
    }

    /// The payload as the builder holds it. The builder stays as it is and can
    /// build again.
    pub fn build(&self) -> (payload: UpdateProduct)
        ensures
            payload.same(&self.payload),
            payload.json() == self.payload.json(),
    {
        self.payload.clone()
    }
}

} // verus!
