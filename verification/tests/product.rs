use rust_moysklad::json::{Double, Json, ToJson};
use rust_moysklad::models::assortment::{Barcode, BuyPrice, MinPrice};
use rust_moysklad::models::product::{
    CreateProduct, CreateSalePrice, Pack, Product, UpdateProduct, UpdateProductBuilder,
};
use rust_moysklad::models::{Attribute, AttributeType, AttributeValue, Meta, MetaWrapper, TaxSystem};
use rust_moysklad::values::Uuid;

fn s(text: &str) -> Json {
    Json::Str(text.to_string())
}

fn member(key: &str, value: Json) -> (String, Json) {
    (key.to_string(), value)
}

fn double(value: f64) -> Double {
    Double::from_bits(value.to_bits())
}

fn meta(href: &str) -> Meta {
    Meta {
        href: href.to_string(),
        media_type: "application/json".to_string(),
        ..Meta::default()
    }
}

fn wrapper(href: &str) -> MetaWrapper {
    MetaWrapper { meta: meta(href) }
}

fn meta_json(href: &str) -> Json {
    Json::Object(vec![
        member("href", s(href)),
        member("metadataHref", Json::Null),
        member("type", Json::Null),
        member("mediaType", s("application/json")),
        member("uuidHref", Json::Null),
        member("downloadHref", Json::Null),
        member("size", Json::Null),
        member("limit", Json::Null),
        member("offset", Json::Null),
    ])
}

fn wrapper_json(href: &str) -> Json {
    Json::Object(vec![member("meta", meta_json(href))])
}

fn attribute() -> Attribute {
    Attribute {
        meta: meta("attr"),
        id: Uuid::from_u128(1),
        name: "colour".to_string(),
        attribute_type: AttributeType::String,
        value: AttributeValue::String("red".to_string()),
        download: None,
    }
}

fn pack() -> Pack {
    Pack {
        barcodes: Some(vec!["123".to_string()]),
        id: Uuid::from_u128(2),
        quantity: double(6.0),
        uom: wrapper("uom"),
    }
}

#[test]
fn product_create_with_only_the_name() {
    let payload = Product::create("Tea").build();
    assert_eq!(payload, CreateProduct { name: "Tea".to_string(), ..CreateProduct::default() });
    assert_eq!(payload.to_json(), Json::Object(vec![member("name", s("Tea"))]));
}

#[test]
fn product_update_with_nothing_set_is_an_empty_object() {
    let payload = Product::update().build();
    assert_eq!(payload, UpdateProduct::default());
    assert_eq!(payload.to_json(), Json::Object(vec![]));
    assert_eq!(UpdateProductBuilder::new().payload, UpdateProduct::default());
}

#[test]
fn product_create_with_every_field() {
    let payload = Product::create("Tea")
        .article("art")
        .attribute(attribute())
        .barcode("4600000000000")
        .buy_price(double(10.5), meta("rub"))
        .code("c")
        .country(&meta("country"))
        .description("d")
        .discount_prohibited(true)
        .external_code("ec")
        .files(meta("files"))
        .group(meta("group"))
        .images(meta("images"))
        .is_serial_trackable(false)
        .min_price(double(5.0), meta("rub"))
        .minimum_balance(3)
        .pack(pack())
        .partial_disposal(true)
        .payment_item_type("GOOD")
        .product_folder(&meta("folder"))
        .sale_price(double(20.0), &meta("rub"), &meta("retail"))
        .shared(true)
        .supplier(meta("supplier"))
        .tax_system(TaxSystem::PatentBased)
        .thing("sn-1")
        .tnved("0902")
        .tracking_type("NOT_TRACKED")
        .uom(&meta("uom"))
        .use_parent_vat(false)
        .vat(20)
        .vat_enabled(true)
        .volume(double(0.25))
        .weight(double(0.1))
        .build();
    assert_eq!(
        payload,
        CreateProduct {
            article: Some("art".into()),
            attributes: Some(vec![attribute()]),
            barcodes: Some(vec![Barcode { ean13: "4600000000000".into() }]),
            buy_price: Some(BuyPrice { value: double(10.5), currency: wrapper("rub") }),
            code: Some("c".into()),
            country: Some(wrapper("country")),
            description: Some("d".into()),
            discount_prohibited: Some(true),
            external_code: Some("ec".into()),
            files: Some(wrapper("files")),
            group: Some(wrapper("group")),
            images: Some(wrapper("images")),
            is_serial_trackable: Some(false),
            min_price: Some(MinPrice { value: double(5.0), currency: wrapper("rub") }),
            minimum_balance: Some(3),
            name: "Tea".into(),
            packs: Some(vec![pack()]),
            partial_disposal: Some(true),
            payment_item_type: Some("GOOD".into()),
            product_folder: Some(wrapper("folder")),
            sale_prices: Some(vec![CreateSalePrice {
                value: double(20.0),
                currency: wrapper("rub"),
                price_type: wrapper("retail"),
            }]),
            shared: Some(true),
            supplier: Some(wrapper("supplier")),
            tax_system: Some(TaxSystem::PatentBased),
            things: Some(vec!["sn-1".into()]),
            tnved: Some("0902".into()),
            tracking_type: Some("NOT_TRACKED".into()),
            uom: Some(wrapper("uom")),
            use_parent_vat: Some(false),
            vat: Some(20),
            vat_enabled: Some(true),
            volume: Some(double(0.25)),
            weight: Some(double(0.1)),
        }
    );
}

#[test]
fn product_update_with_every_field() {
    let payload = Product::update()
        .article("art")
        .attribute(attribute())
        .barcode("4600000000000")
        .buy_price(double(10.5), meta("rub"))
        .code("c")
        .country(meta("country"))
        .description("d")
        .discount_prohibited(true)
        .external_code("ec")
        .files(meta("files"))
        .group(meta("group"))
        .images(meta("images"))
        .is_serial_trackable(false)
        .meta(meta("self"))
        .min_price(double(5.0), meta("rub"))
        .minimum_balance(3)
        .name("Tea")
        .pack(pack())
        .partial_disposal(true)
        .payment_item_type("GOOD")
        .product_folder(meta("folder"))
        .sale_price(double(20.0), meta("rub"), meta("retail"))
        .shared(true)
        .supplier(meta("supplier"))
        .tax_system(TaxSystem::PatentBased)
        .thing("sn-1")
        .tnved("0902")
        .tracking_type("NOT_TRACKED")
        .uom(meta("uom"))
        .use_parent_vat(false)
        .vat(20)
        .vat_enabled(true)
        .volume(double(0.25))
        .weight(double(0.1))
        .build();
    assert_eq!(
        payload,
        UpdateProduct {
            article: Some("art".into()),
            attributes: Some(vec![attribute()]),
            barcodes: Some(vec![Barcode { ean13: "4600000000000".into() }]),
            buy_price: Some(BuyPrice { value: double(10.5), currency: wrapper("rub") }),
            code: Some("c".into()),
            country: Some(wrapper("country")),
            description: Some("d".into()),
            discount_prohibited: Some(true),
            external_code: Some("ec".into()),
            files: Some(wrapper("files")),
            group: Some(wrapper("group")),
            images: Some(wrapper("images")),
            is_serial_trackable: Some(false),
            meta: Some(meta("self")),
            min_price: Some(MinPrice { value: double(5.0), currency: wrapper("rub") }),
            minimum_balance: Some(3),
            name: Some("Tea".into()),
            packs: Some(vec![pack()]),
            partial_disposal: Some(true),
            payment_item_type: Some("GOOD".into()),
            product_folder: Some(wrapper("folder")),
            sale_prices: Some(vec![CreateSalePrice {
                value: double(20.0),
                currency: wrapper("rub"),
                price_type: wrapper("retail"),
            }]),
            shared: Some(true),
            supplier: Some(wrapper("supplier")),
            tax_system: Some(TaxSystem::PatentBased),
            things: Some(vec!["sn-1".into()]),
            tnved: Some("0902".into()),
            tracking_type: Some("NOT_TRACKED".into()),
            uom: Some(wrapper("uom")),
            use_parent_vat: Some(false),
            vat: Some(20),
            vat_enabled: Some(true),
            volume: Some(double(0.25)),
            weight: Some(double(0.1)),
        }
    );
}

#[test]
fn product_lists_grow_in_order() {
    let payload = Product::create("Tea")
        .barcode("1")
        .barcode("2")
        .thing("a")
        .thing("b")
        .sale_price(double(1.0), &meta("rub"), &meta("retail"))
        .sale_price(double(2.0), &meta("rub"), &meta("wholesale"))
        .build();
    assert_eq!(
        payload.barcodes,
        Some(vec![Barcode { ean13: "1".into() }, Barcode { ean13: "2".into() }])
    );
    assert_eq!(payload.things, Some(vec!["a".to_string(), "b".to_string()]));
    let prices = payload.sale_prices.expect("two prices");
    assert_eq!(prices.len(), 2);
    assert_eq!(prices[0].price_type, wrapper("retail"));
    assert_eq!(prices[1].price_type, wrapper("wholesale"));
    assert_eq!(prices[1].value, double(2.0));
}

#[test]
fn product_prices_are_replaced_not_collected() {
    let payload = Product::update()
        .buy_price(double(1.0), meta("rub"))
        .buy_price(double(2.0), meta("eur"))
        .min_price(double(3.0), meta("rub"))
        .build();
    assert_eq!(payload.buy_price, Some(BuyPrice { value: double(2.0), currency: wrapper("eur") }));
    assert_eq!(payload.min_price, Some(MinPrice { value: double(3.0), currency: wrapper("rub") }));
}

#[test]
fn product_json_of_prices_and_lists() {
    let payload = Product::update()
        .barcode("4600000000000")
        .buy_price(double(10.5), meta("rub"))
        .pack(pack())
        .sale_price(double(20.0), meta("rub"), meta("retail"))
        .vat(20)
        .weight(double(0.1))
        .build();
    assert_eq!(
        payload.to_json(),
        Json::Object(vec![
            member("barcodes", Json::Array(vec![Json::Object(vec![member("ean13", s("4600000000000"))])])),
            member(
                "buyPrice",
                Json::Object(vec![member("value", Json::Real(double(10.5))), member("currency", wrapper_json("rub"))])
            ),
            member(
                "packs",
                Json::Array(vec![Json::Object(vec![
                    member("barcodes", Json::Array(vec![s("123")])),
                    member("id", s("00000000-0000-0000-0000-000000000002")),
                    member("quantity", Json::Real(double(6.0))),
                    member("uom", wrapper_json("uom")),
                ])])
            ),
            member(
                "salePrices",
                Json::Array(vec![Json::Object(vec![
                    member("value", Json::Real(double(20.0))),
                    member("currency", wrapper_json("rub")),
                    member("priceType", wrapper_json("retail")),
                ])])
            ),
            member("vat", Json::Int(20)),
            member("weight", Json::Real(double(0.1))),
        ])
    );
}

#[test]
fn product_pack_without_barcodes_writes_null() {
    let pack = Pack { barcodes: None, id: Uuid::from_u128(2), quantity: double(1.0), uom: wrapper("uom") };
    assert_eq!(
        pack.to_json(),
        Json::Object(vec![
            member("barcodes", Json::Null),
            member("id", s("00000000-0000-0000-0000-000000000002")),
            member("quantity", Json::Real(double(1.0))),
            member("uom", wrapper_json("uom")),
        ])
    );
    assert_eq!(pack.clone(), pack);
}

#[test]
fn product_build_twice_gives_equal_payloads() {
    let mut builder = Product::create("Tea");
    builder.pack(pack()).attribute(attribute()).barcode("1").thing("x");
    assert_eq!(builder.build(), builder.build());
}

#[test]
fn product_adders_set_twice_add_once() {
    let mut builder = Product::create("Tea");
    builder
        .attribute(attribute())
        .barcode("1")
        .pack(pack())
        .sale_price(double(20.0), &meta("rub"), &meta("retail"))
        .thing("sn-1");
    let before = builder.build();
    builder
        .attribute(attribute())
        .barcode("1")
        .pack(pack())
        .sale_price(double(20.0), &meta("rub"), &meta("retail"))
        .thing("sn-1");
    assert_eq!(builder.build(), before);
    assert_eq!(before.attributes, Some(vec![attribute()]));
    assert_eq!(before.barcodes, Some(vec![Barcode { ean13: "1".into() }]));
    assert_eq!(before.packs, Some(vec![pack()]));
    assert_eq!(before.things, Some(vec!["sn-1".to_string()]));
    assert_eq!(before.sale_prices.map(|prices| prices.len()), Some(1));
}

#[test]
fn product_update_adders_set_twice_add_once() {
    let mut builder = Product::update();
    builder
        .attribute(attribute())
        .barcode("1")
        .pack(pack())
        .sale_price(double(20.0), meta("rub"), meta("retail"))
        .thing("sn-1");
    let before = builder.build();
    builder
        .attribute(attribute())
        .barcode("1")
        .pack(pack())
        .sale_price(double(20.0), meta("rub"), meta("retail"))
        .thing("sn-1");
    assert_eq!(builder.build(), before);
    assert_eq!(before.attributes, Some(vec![attribute()]));
    assert_eq!(before.barcodes, Some(vec![Barcode { ean13: "1".into() }]));
    assert_eq!(before.packs, Some(vec![pack()]));
    assert_eq!(before.things, Some(vec!["sn-1".to_string()]));
    assert_eq!(before.sale_prices.map(|prices| prices.len()), Some(1));
}

#[test]
fn product_sale_prices_that_differ_in_one_part_are_all_kept() {
    let payload = Product::create("Tea")
        .sale_price(double(20.0), &meta("rub"), &meta("retail"))
        .sale_price(double(21.0), &meta("rub"), &meta("retail"))
        .sale_price(double(20.0), &meta("eur"), &meta("retail"))
        .sale_price(double(20.0), &meta("rub"), &meta("wholesale"))
        .sale_price(double(20.0), &meta("rub"), &meta("retail"))
        .build();
    assert_eq!(payload.sale_prices.map(|prices| prices.len()), Some(4));
}

#[test]
fn product_packs_that_differ_in_one_part_are_both_kept() {
    let other = Pack { quantity: double(12.0), ..pack() };
    let payload = Product::update().pack(pack()).pack(other.clone()).pack(pack()).build();
    assert_eq!(payload.packs, Some(vec![pack(), other]));
}
