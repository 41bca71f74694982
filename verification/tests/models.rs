use rust_moysklad::json::{array, contains, object, put, put_opt, same_document, Double, Json, ToJson};
use rust_moysklad::models::assortment::{Barcode, BuyPrice, MinPrice};
use rust_moysklad::models::{
    contains_text, Attribute, AttributeType, AttributeValue, CustomEntity, CustomValue, DownloadMeta, Meta,
    MetaWrapper, ProductsCustomField,
};
use rust_moysklad::values::{Moment, Uuid};

fn s(text: &str) -> Json {
    Json::Str(text.to_string())
}

fn member(key: &str, value: Json) -> (String, Json) {
    (key.to_string(), value)
}

fn meta(href: &str) -> Meta {
    Meta {
        href: href.to_string(),
        media_type: "application/json".to_string(),
        ..Meta::default()
    }
}

fn meta_json(href: &str) -> Json {
    Json::Object(vec![
        member("href", s(href)),
        member("metadataHref", Json::Null),
        member("type", Json::Null),
        member("mediaType", s("application/json")),
        member("uuidHref", Json::Null),
        member("downloadHref", Json::Null),
        member("size", Json::Null),
        member("limit", Json::Null),
        member("offset", Json::Null),
    ])
}

fn field() -> ProductsCustomField {
    ProductsCustomField {
        custom_entity_meta: None,
        meta: meta("field"),
        id: Uuid::from_u128(3),
        name: "colour".to_string(),
        attribute_type: AttributeType::String,
        required: true,
        description: Some("the colour".to_string()),
    }
}

#[test]
fn attribute_from_field() {
    let attribute = Attribute::from_field(&field(), AttributeValue::String("red".to_string()));
    assert_eq!(
        attribute,
        Attribute {
            meta: meta("field"),
            id: Uuid::from_u128(3),
            name: "colour".to_string(),
            attribute_type: AttributeType::String,
            value: AttributeValue::String("red".to_string()),
            download: None,
        }
    );
}

#[test]
fn attribute_json_leaves_an_unset_download_out() {
    let attribute = Attribute::from_field(&field(), AttributeValue::Int(5));
    assert_eq!(
        attribute.to_json(),
        Json::Object(vec![
            member("meta", meta_json("field")),
            member("id", s("00000000-0000-0000-0000-000000000003")),
            member("name", s("colour")),
            member("type", s("string")),
            member("value", Json::Int(5)),
        ])
    );
}

#[test]
fn attribute_json_with_download() {
    let mut attribute = Attribute::from_field(&field(), AttributeValue::String("f.txt".to_string()));
    attribute.attribute_type = AttributeType::File;
    attribute.download = Some(DownloadMeta { href: "d".to_string(), media_type: "text/plain".to_string() });
    assert_eq!(
        attribute.to_json(),
        Json::Object(vec![
            member("meta", meta_json("field")),
            member("id", s("00000000-0000-0000-0000-000000000003")),
            member("name", s("colour")),
            member("type", s("file")),
            member("value", s("f.txt")),
            member(
                "download",
                Json::Object(vec![member("href", s("d")), member("mediaType", s("text/plain"))])
            ),
        ])
    );
    assert_eq!(attribute.clone(), attribute);
}

#[test]
fn attribute_values_stand_bare() {
    let custom = CustomValue { meta: meta("item"), name: "item".to_string() };
    assert_eq!(
        AttributeValue::Custom(custom).to_json(),
        Json::Object(vec![member("meta", meta_json("item")), member("name", s("item"))])
    );
    assert_eq!(AttributeValue::String("x".to_string()).to_json(), s("x"));
    assert_eq!(
        AttributeValue::Date(Moment { seconds: 1672628645, nanos: 0 }).to_json(),
        s("2023-01-02T03:04:05")
    );
    assert_eq!(AttributeValue::Bool(true).to_json(), Json::Bool(true));
    assert_eq!(
        AttributeValue::Float(Double::from_bits(1.5f64.to_bits())).to_json(),
        Json::Real(Double { bits: 1.5f64.to_bits() })
    );
    assert_eq!(AttributeValue::Int(-3).to_json(), Json::Int(-3));
    assert_eq!(AttributeValue::Other.to_json(), Json::Null);
    assert_eq!(AttributeValue::default(), AttributeValue::Other);
}

#[test]
fn attribute_value_clones_are_equal() {
    let values = vec![
        AttributeValue::Custom(CustomValue { meta: meta("item"), name: "item".to_string() }),
        AttributeValue::String("x".to_string()),
        AttributeValue::Date(Moment { seconds: 1, nanos: 2 }),
        AttributeValue::Bool(false),
        AttributeValue::Float(Double::from_bits(7)),
        AttributeValue::Int(4),
        AttributeValue::Other,
    ];
    for value in values {
        assert_eq!(value.clone(), value);
    }
}

#[test]
fn attribute_type_wire_names() {
    assert_eq!(AttributeType::String.as_str(), "string");
    assert_eq!(AttributeType::Customentity.as_str(), "customentity");
    assert_eq!(AttributeType::Long.as_str(), "long");
    assert_eq!(AttributeType::Time.as_str(), "time");
    assert_eq!(AttributeType::File.as_str(), "file");
    assert_eq!(AttributeType::Double.as_str(), "double");
    assert_eq!(AttributeType::Boolean.as_str(), "boolean");
    assert_eq!(AttributeType::Text.as_str(), "text");
    assert_eq!(AttributeType::Link.as_str(), "link");
    assert_eq!(AttributeType::default(), AttributeType::String);
    assert_eq!(AttributeType::Link.to_json(), s("link"));
}

#[test]
fn custom_value_from_custom_entity() {
    let entity = CustomEntity {
        account_id: Uuid::from_u128(1),
        code: None,
        description: None,
        external_code: "ec".to_string(),
        id: Uuid::from_u128(2),
        meta: meta("item"),
        name: "green".to_string(),
        updated: Moment { seconds: 0, nanos: 0 },
        group: MetaWrapper { meta: meta("group") },
        owner: MetaWrapper { meta: meta("owner") },
        shared: Some(true),
    };
    assert_eq!(
        CustomValue::from(entity),
        CustomValue { meta: meta("item"), name: "green".to_string() }
    );
}

#[test]
fn prices_and_barcodes_json() {
    let currency = MetaWrapper { meta: meta("rub") };
    let value = Double::from_bits(99.9f64.to_bits());
    let expected = Json::Object(vec![
        member("value", Json::Real(value)),
        member("currency", Json::Object(vec![member("meta", meta_json("rub"))])),
    ]);
    assert_eq!(BuyPrice { value, currency: currency.clone() }.to_json(), expected);
    assert_eq!(MinPrice { value, currency }.to_json(), expected);
    assert_eq!(
        Barcode { ean13: "4600000000000".to_string() }.to_json(),
        Json::Object(vec![member("ean13", s("4600000000000"))])
    );
}

#[test]
fn scalars_json() {
    assert_eq!(true.to_json(), Json::Bool(true));
    assert_eq!(7i32.to_json(), Json::Int(7));
    assert_eq!(i32::MIN.to_json(), Json::Int(-2147483648));
    assert_eq!(i64::MAX.to_json(), Json::Int(i64::MAX));
    assert_eq!("a".to_string().to_json(), s("a"));
    assert_eq!(Some(3i32).to_json(), Json::Int(3));
    assert_eq!(None::<i32>.to_json(), Json::Null);
    assert_eq!(vec![1i32, 2, 3].to_json(), Json::Array(vec![Json::Int(1), Json::Int(2), Json::Int(3)]));
    assert_eq!(Vec::<String>::new().to_json(), Json::Array(vec![]));
}

#[test]
fn put_appends_and_put_opt_leaves_unset_out() {
    let mut members = Vec::new();
    put(&mut members, "a", &1i32);
    put_opt(&mut members, "b", &None::<i32>);
    put_opt(&mut members, "c", &Some(3i32));
    put(&mut members, "d", &None::<i32>);
    assert_eq!(
        object(members),
        Json::Object(vec![
            member("a", Json::Int(1)),
            member("c", Json::Int(3)),
            member("d", Json::Null),
        ])
    );
}

#[test]
fn array_and_object_keep_what_they_are_given() {
    assert_eq!(array(vec![Json::Null, Json::Bool(false)]), Json::Array(vec![Json::Null, Json::Bool(false)]));
    assert_eq!(object(vec![]), Json::Object(vec![]));
}

#[test]
fn same_document_on_scalars() {
    assert!(same_document(&Json::Null, &Json::Null));
    assert!(same_document(&Json::Bool(true), &Json::Bool(true)));
    assert!(!same_document(&Json::Bool(true), &Json::Bool(false)));
    assert!(same_document(&Json::Int(-1), &Json::Int(-1)));
    assert!(!same_document(&Json::Int(1), &Json::Int(2)));
    assert!(same_document(&s("a"), &s("a")));
    assert!(!same_document(&s("a"), &s("b")));
    assert!(same_document(&Json::Real(Double { bits: 3 }), &Json::Real(Double { bits: 3 })));
    assert!(!same_document(&Json::Real(Double { bits: 3 }), &Json::Real(Double { bits: 4 })));
}

#[test]
fn same_document_tells_the_kinds_apart() {
    assert!(!same_document(&Json::Null, &Json::Bool(false)));
    assert!(!same_document(&Json::Int(0), &Json::Real(Double { bits: 0 })));
    assert!(!same_document(&Json::Int(1), &s("1")));
    assert!(!same_document(&Json::Array(vec![]), &Json::Object(vec![])));
    assert!(!same_document(&Json::Null, &Json::Array(vec![])));
}

#[test]
fn same_document_on_arrays_and_objects() {
    let a = Json::Array(vec![Json::Int(1), s("x"), Json::Array(vec![Json::Null])]);
    let b = Json::Array(vec![Json::Int(1), s("x"), Json::Array(vec![Json::Null])]);
    assert!(same_document(&a, &b));
    assert!(!same_document(&a, &Json::Array(vec![Json::Int(1), s("x")])));
    assert!(!same_document(&a, &Json::Array(vec![Json::Int(1), s("x"), Json::Array(vec![])])));
    assert!(!same_document(&a, &Json::Array(vec![s("x"), Json::Int(1), Json::Array(vec![Json::Null])])));
    let o = Json::Object(vec![member("k", Json::Int(1)), member("l", meta_json("h"))]);
    let p = Json::Object(vec![member("k", Json::Int(1)), member("l", meta_json("h"))]);
    assert!(same_document(&o, &p));
    assert!(!same_document(&o, &Json::Object(vec![member("k", Json::Int(1))])));
    assert!(!same_document(&o, &Json::Object(vec![member("k", Json::Int(1)), member("m", meta_json("h"))])));
    assert!(!same_document(&o, &Json::Object(vec![member("k", Json::Int(1)), member("l", meta_json("i"))])));
    assert!(!same_document(&o, &Json::Object(vec![member("l", meta_json("h")), member("k", Json::Int(1))])));
}

#[test]
fn contains_finds_what_is_written_alike() {
    let list = vec![meta("a"), meta("b")];
    assert!(contains(&list, &meta("a")));
    assert!(contains(&list, &meta("b")));
    assert!(!contains(&list, &meta("c")));
    assert!(!contains(&Vec::<Meta>::new(), &meta("a")));
    assert!(contains(&vec![1i32, 2, 3], &3));
    assert!(!contains(&vec![1i32, 2, 3], &4));
}

#[test]
fn contains_text_finds_the_text() {
    let list = vec!["a".to_string(), "b".to_string()];
    assert!(contains_text(&list, &"a".to_string()));
    assert!(contains_text(&list, &"b".to_string()));
    assert!(!contains_text(&list, &"c".to_string()));
    assert!(!contains_text(&list, &"".to_string()));
    assert!(!contains_text(&vec![], &"a".to_string()));
}

#[test]
fn barcode_is_among() {
    let list = vec![Barcode { ean13: "1".to_string() }, Barcode { ean13: "2".to_string() }];
    assert!(Barcode::is_among(&list, &"2".to_string()));
    assert!(!Barcode::is_among(&list, &"3".to_string()));
    assert!(!Barcode::is_among(&vec![], &"1".to_string()));
}
