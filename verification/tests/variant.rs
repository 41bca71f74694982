use rust_moysklad::json::{Double, Json, ToJson};
use rust_moysklad::models::assortment::{Barcode, BuyPrice, MinPrice};
use rust_moysklad::models::characteristic::{Characteristic, VariantCharacteristic};
use rust_moysklad::models::product::CreateSalePrice;
use rust_moysklad::models::variant::{
    CreateVariant, CreateVariantBuilder, UpdateVariant, UpdateVariantBuilder, Variant,
};
use rust_moysklad::models::{Meta, MetaWrapper};
use rust_moysklad::values::Uuid;

fn s(text: &str) -> Json {
    Json::Str(text.to_string())
}

fn member(key: &str, value: Json) -> (String, Json) {
    (key.to_string(), value)
}

fn double(value: f64) -> Double {
    Double::from_bits(value.to_bits())
}

fn meta(href: &str) -> Meta {
    Meta {
        href: href.to_string(),
        media_type: "application/json".to_string(),
        ..Meta::default()
    }
}

fn wrapper(href: &str) -> MetaWrapper {
    MetaWrapper { meta: meta(href) }
}

fn meta_json(href: &str) -> Json {
    Json::Object(vec![
        member("href", s(href)),
        member("metadataHref", Json::Null),
        member("type", Json::Null),
        member("mediaType", s("application/json")),
        member("uuidHref", Json::Null),
        member("downloadHref", Json::Null),
        member("size", Json::Null),
        member("limit", Json::Null),
        member("offset", Json::Null),
    ])
}

fn size(value: &str) -> Characteristic {
    Characteristic {
        meta: None,
        id: Uuid::from_u128(9),
        name: "size".to_string(),
        value: value.to_string(),
    }
}

#[test]
fn variant_characteristic_from_variant_char() {
    let declared = VariantCharacteristic {
        id: Uuid::from_u128(9),
        meta: meta("char"),
        name: "size".to_string(),
        required: false,
        characteristic_type: "string".to_string(),
    };
    assert_eq!(Characteristic::from_variant_char(declared, "XL"), size("XL"));
}

#[test]
fn variant_characteristic_json_writes_unset_meta_as_null() {
    assert_eq!(
        size("XL").to_json(),
        Json::Object(vec![
            member("meta", Json::Null),
            member("id", s("00000000-0000-0000-0000-000000000009")),
            member("name", s("size")),
            member("value", s("XL")),
        ])
    );
}

#[test]
fn variant_create_with_nothing_set() {
    let payload = Variant::create(meta("product"), vec![size("XL")]).build();
    assert_eq!(
        payload,
        CreateVariant {
            characteristics: vec![size("XL")],
            product: wrapper("product"),
            ..CreateVariant::default()
        }
    );
    assert_eq!(
        payload.to_json(),
        Json::Object(vec![
            member("characteristics", Json::Array(vec![size("XL").to_json()])),
            member("product", Json::Object(vec![member("meta", meta_json("product"))])),
        ])
    );
}

#[test]
fn variant_create_builder_new() {
    let builder = CreateVariantBuilder::new(meta("product"), vec![]);
    assert_eq!(builder.payload.product, wrapper("product"));
    assert_eq!(builder.payload.characteristics, vec![]);
    assert_eq!(builder.payload.name, None);
}

#[test]
fn variant_create_with_every_setter() {
    let payload = Variant::create(meta("product"), vec![size("L")])
        .barcode("1")
        .buy_price(double(1.5), meta("rub"))
        .characteristic(size("XL"))
        .code("c")
        .description("d")
        .discount_prohibited(true)
        .external_code("ec")
        .min_price(double(0.5), meta("rub"))
        .name("n")
        .sale_price(double(2.5), &meta("rub"), &meta("retail"))
        .build();
    assert_eq!(
        payload,
        CreateVariant {
            barcodes: Some(vec![Barcode { ean13: "1".into() }]),
            buy_price: Some(BuyPrice { value: double(1.5), currency: wrapper("rub") }),
            characteristics: vec![size("L"), size("XL")],
            code: Some("c".into()),
            description: Some("d".into()),
            discount_prohibited: Some(true),
            external_code: Some("ec".into()),
            images: None,
            min_price: Some(MinPrice { value: double(0.5), currency: wrapper("rub") }),
            name: Some("n".into()),
            packs: None,
            product: wrapper("product"),
            sale_prices: Some(vec![CreateSalePrice {
                value: double(2.5),
                currency: wrapper("rub"),
                price_type: wrapper("retail"),
            }]),
        }
    );
}

#[test]
fn variant_update_with_nothing_set_is_an_empty_object() {
    let payload = Variant::update().build();
    assert_eq!(payload, UpdateVariant::default());
    assert_eq!(payload.to_json(), Json::Object(vec![]));
    assert_eq!(UpdateVariantBuilder::new().payload, UpdateVariant::default());
}

#[test]
fn variant_update_with_every_setter() {
    let payload = Variant::update()
        .barcode("1")
        .buy_price(double(1.5), meta("rub"))
        .characteristic(size("XL"))
        .characteristic(size("XXL"))
        .code("c")
        .description("d")
        .discount_prohibited(false)
        .external_code("ec")
        .id(Uuid::from_u128(5))
        .meta(meta("self"))
        .min_price(double(0.5), meta("rub"))
        .name("n")
        .product(meta("product"))
        .sale_price(double(2.5), &meta("rub"), &meta("retail"))
        .build();
    assert_eq!(
        payload,
        UpdateVariant {
            barcodes: Some(vec![Barcode { ean13: "1".into() }]),
            buy_price: Some(BuyPrice { value: double(1.5), currency: wrapper("rub") }),
            characteristics: Some(vec![size("XL"), size("XXL")]),
            code: Some("c".into()),
            description: Some("d".into()),
            discount_prohibited: Some(false),
            external_code: Some("ec".into()),
            id: Some(Uuid::from_u128(5)),
            images: None,
            meta: Some(meta("self")),
            min_price: Some(MinPrice { value: double(0.5), currency: wrapper("rub") }),
            name: Some("n".into()),
            packs: None,
            product: Some(wrapper("product")),
            sale_prices: Some(vec![CreateSalePrice {
                value: double(2.5),
                currency: wrapper("rub"),
                price_type: wrapper("retail"),
            }]),
        }
    );
}

#[test]
fn variant_update_json_of_some_fields() {
    let payload = Variant::update().id(Uuid::from_u128(5)).name("n").characteristic(size("XL")).build();
    assert_eq!(
        payload.to_json(),
        Json::Object(vec![
            member("characteristics", Json::Array(vec![size("XL").to_json()])),
            member("id", s("00000000-0000-0000-0000-000000000005")),
            member("name", s("n")),
        ])
    );
}

#[test]
fn variant_build_twice_gives_equal_payloads() {
    let mut builder = Variant::create(meta("product"), vec![size("L")]);
    builder.characteristic(size("XL")).barcode("1");
    assert_eq!(builder.build(), builder.build());
}

#[test]
fn variant_adders_set_twice_add_once() {
    let mut builder = Variant::create(meta("product"), vec![size("L")]);
    builder
        .barcode("1")
        .characteristic(size("XL"))
        .sale_price(double(2.5), &meta("rub"), &meta("retail"));
    let before = builder.build();
    builder
        .barcode("1")
        .characteristic(size("XL"))
        .characteristic(size("L"))
        .sale_price(double(2.5), &meta("rub"), &meta("retail"));
    assert_eq!(builder.build(), before);
    assert_eq!(before.characteristics, vec![size("L"), size("XL")]);
    assert_eq!(before.barcodes, Some(vec![Barcode { ean13: "1".into() }]));
    assert_eq!(before.sale_prices.map(|prices| prices.len()), Some(1));
}

#[test]
fn variant_update_adders_set_twice_add_once() {
    let mut builder = Variant::update();
    builder
        .barcode("1")
        .characteristic(size("XL"))
        .sale_price(double(2.5), &meta("rub"), &meta("retail"));
    let before = builder.build();
    builder
        .barcode("1")
        .characteristic(size("XL"))
        .sale_price(double(2.5), &meta("rub"), &meta("retail"));
    assert_eq!(builder.build(), before);
    assert_eq!(before.characteristics, Some(vec![size("XL")]));
    assert_eq!(before.barcodes, Some(vec![Barcode { ean13: "1".into() }]));
    assert_eq!(before.sale_prices.map(|prices| prices.len()), Some(1));
}
