use rust_moysklad::json::{Json, ToJson};
use rust_moysklad::models::product_folder::{
    CreateProductFolder, CreateProductFolderBuilder, ProductFolder, UpdateProductFolder,
    UpdateProductFolderBuilder,
};
use rust_moysklad::models::{Meta, MetaWrapper, TaxSystem};
use rust_moysklad::values::Uuid;

fn s(text: &str) -> Json {
    Json::Str(text.to_string())
}

fn member(key: &str, value: Json) -> (String, Json) {
    (key.to_string(), value)
}

fn parent() -> Meta {
    Meta {
        href: "https://api.moysklad.ru/api/remap/1.2/entity/productfolder/1".to_string(),
        meta_type: Some("productfolder".to_string()),
        media_type: "application/json".to_string(),
        ..Meta::default()
    }
}

fn parent_json() -> Json {
    Json::Object(vec![
        member("href", s("https://api.moysklad.ru/api/remap/1.2/entity/productfolder/1")),
        member("metadataHref", Json::Null),
        member("type", s("productfolder")),
        member("mediaType", s("application/json")),
        member("uuidHref", Json::Null),
        member("downloadHref", Json::Null),
        member("size", Json::Null),
        member("limit", Json::Null),
        member("offset", Json::Null),
    ])
}

#[test]
fn product_folder_create_with_only_the_name() {
    let payload = ProductFolder::create("X").build();
    assert_eq!(
        payload,
        CreateProductFolder {
            name: "X".to_string(),
            ..CreateProductFolder::default()
        }
    );
    assert_eq!(payload.to_json(), Json::Object(vec![member("name", s("X"))]));
}

#[test]
fn product_folder_new_holds_the_name() {
    let builder = CreateProductFolderBuilder::new("Carpet holders");
    assert_eq!(builder.payload.name, "Carpet holders");
    assert_eq!(builder.payload.code, None);
    assert_eq!(builder.payload.vat, None);
}

#[test]
fn product_folder_create_with_every_field() {
    let payload = ProductFolder::create("Carpet holders")
        .code("42")
        .description("A fine description")
        .external_code("69")
        .product_folder(parent())
        .shared(true)
        .tax_system(TaxSystem::SimplifiedTaxSystemIncomeOutcome)
        .use_parent_vat(true)
        .vat(0)
        .vat_enabled(false)
        .build();
    assert_eq!(
        payload,
        CreateProductFolder {
            code: Some("42".to_string()),
            description: Some("A fine description".to_string()),
            external_code: Some("69".to_string()),
            name: "Carpet holders".to_string(),
            product_folder: Some(MetaWrapper { meta: parent() }),
            shared: Some(true),
            tax_system: Some(TaxSystem::SimplifiedTaxSystemIncomeOutcome),
            use_parent_vat: Some(true),
            vat: Some(0),
            vat_enabled: Some(false),
        }
    );
    assert_eq!(
        payload.to_json(),
        Json::Object(vec![
            member("code", s("42")),
            member("description", s("A fine description")),
            member("externalCode", s("69")),
            member("name", s("Carpet holders")),
            member("productFolder", Json::Object(vec![member("meta", parent_json())])),
            member("shared", Json::Bool(true)),
            member("taxSystem", s("SIMPLIFIED_TAX_SYSTEM_INCOME_OUTCOME")),
            member("useParentVat", Json::Bool(true)),
            member("vat", Json::Int(0)),
            member("vatEnabled", Json::Bool(false)),
        ])
    );
}

#[test]
fn product_folder_each_create_setter_sets_its_field_alone() {
    let mut b = CreateProductFolderBuilder::new("n");
    b.code("c");
    assert_eq!(b.payload, CreateProductFolder { name: "n".into(), code: Some("c".into()), ..Default::default() });
    let mut b = CreateProductFolderBuilder::new("n");
    b.description("d");
    assert_eq!(b.payload, CreateProductFolder { name: "n".into(), description: Some("d".into()), ..Default::default() });
    let mut b = CreateProductFolderBuilder::new("n");
    b.external_code("e");
    assert_eq!(b.payload, CreateProductFolder { name: "n".into(), external_code: Some("e".into()), ..Default::default() });
    let mut b = CreateProductFolderBuilder::new("n");
    b.shared(false);
    assert_eq!(b.payload, CreateProductFolder { name: "n".into(), shared: Some(false), ..Default::default() });
    let mut b = CreateProductFolderBuilder::new("n");
    b.tax_system(TaxSystem::PatentBased);
    assert_eq!(b.payload, CreateProductFolder { name: "n".into(), tax_system: Some(TaxSystem::PatentBased), ..Default::default() });
    let mut b = CreateProductFolderBuilder::new("n");
    b.use_parent_vat(false);
    assert_eq!(b.payload, CreateProductFolder { name: "n".into(), use_parent_vat: Some(false), ..Default::default() });
    let mut b = CreateProductFolderBuilder::new("n");
    b.vat(20);
    assert_eq!(b.payload, CreateProductFolder { name: "n".into(), vat: Some(20), ..Default::default() });
    let mut b = CreateProductFolderBuilder::new("n");
    b.vat_enabled(true);
    assert_eq!(b.payload, CreateProductFolder { name: "n".into(), vat_enabled: Some(true), ..Default::default() });
    let mut b = CreateProductFolderBuilder::new("n");
    b.product_folder(parent());
    assert_eq!(
        b.payload,
        CreateProductFolder { name: "n".into(), product_folder: Some(MetaWrapper { meta: parent() }), ..Default::default() }
    );
}

#[test]
fn product_folder_last_write_wins() {
    let payload = ProductFolder::create("X").code("1").vat(10).code("2").vat(20).build();
    assert_eq!(payload.code, Some("2".to_string()));
    assert_eq!(payload.vat, Some(20));
}

#[test]
fn product_folder_setting_the_same_value_twice_changes_nothing() {
    let once = ProductFolder::create("X").code("1").build();
    let twice = ProductFolder::create("X").code("1").code("1").build();
    assert_eq!(once, twice);
}

#[test]
fn product_folder_build_leaves_the_builder_as_it_is() {
    let mut builder = ProductFolder::create("X");
    builder.code("1");
    let first = builder.build();
    let second = builder.build();
    assert_eq!(first, second);
    builder.vat(5);
    let third = builder.build();
    assert_eq!(third.code, Some("1".to_string()));
    assert_eq!(third.vat, Some(5));
    assert_eq!(first.vat, None);
}

#[test]
fn product_folder_update_with_nothing_set_is_an_empty_object() {
    let payload = ProductFolder::update().build();
    assert_eq!(payload, UpdateProductFolder::default());
    assert_eq!(payload.to_json(), Json::Object(vec![]));
}

#[test]
fn product_folder_update_builder_new_holds_nothing() {
    assert_eq!(UpdateProductFolderBuilder::new().payload, UpdateProductFolder::default());
}

#[test]
fn product_folder_update_sends_only_what_was_set() {
    let payload = ProductFolder::update().external_code("96").build();
    assert_eq!(payload.to_json(), Json::Object(vec![member("externalCode", s("96"))]));
}

#[test]
fn product_folder_update_with_every_field() {
    let id = Uuid::from_u128(0x936da01f9abd4d9d80c702af85c822a8);
    let payload = ProductFolder::update()
        .archived(true)
        .code("c")
        .description("d")
        .external_code("e")
        .id(id)
        .meta(parent())
        .name("n")
        .product_folder(parent())
        .shared(true)
        .tax_system(TaxSystem::TaxSystemSameAsGroup)
        .use_parent_vat(false)
        .vat(7)
        .vat_enabled(true)
        .build();
    assert_eq!(
        payload.to_json(),
        Json::Object(vec![
            member("archived", Json::Bool(true)),
            member("code", s("c")),
            member("description", s("d")),
            member("externalCode", s("e")),
            member("id", s("936da01f-9abd-4d9d-80c7-02af85c822a8")),
            member("meta", parent_json()),
            member("name", s("n")),
            member("productFolder", Json::Object(vec![member("meta", parent_json())])),
            member("shared", Json::Bool(true)),
            member("taxSystem", s("TAX_SYSTEM_SAME_AS_GROUP")),
            member("useParentVat", Json::Bool(false)),
            member("vat", Json::Int(7)),
            member("vatEnabled", Json::Bool(true)),
        ])
    );
}

#[test]
fn product_folder_batch_update_marker_carries_meta_and_tax_system() {
    let payload = ProductFolder::update()
        .meta(parent())
        .tax_system(TaxSystem::TaxSystemSameAsGroup)
        .build();
    assert_eq!(
        payload.to_json(),
        Json::Object(vec![
            member("meta", parent_json()),
            member("taxSystem", s("TAX_SYSTEM_SAME_AS_GROUP")),
        ])
    );
}

#[test]
fn product_folder_tax_system_wire_names() {
    assert_eq!(TaxSystem::GeneralTaxSystem.as_str(), "GENERAL_TAX_SYSTEM");
    assert_eq!(TaxSystem::PatentBased.as_str(), "PATENT_BASED");
    assert_eq!(TaxSystem::PresumptiveTaxSystem.as_str(), "PRESUMPTIVE_TAX_SYSTEM");
    assert_eq!(TaxSystem::SimplifiedTaxSystemIncome.as_str(), "SIMPLIFIED_TAX_SYSTEM_INCOME");
    assert_eq!(
        TaxSystem::SimplifiedTaxSystemIncomeOutcome.as_str(),
        "SIMPLIFIED_TAX_SYSTEM_INCOME_OUTCOME"
    );
    assert_eq!(TaxSystem::TaxSystemSameAsGroup.as_str(), "TAX_SYSTEM_SAME_AS_GROUP");
    assert_eq!(TaxSystem::UnifiedAgriculturalTax.as_str(), "UNIFIED_AGRICULTURAL_TAX");
    assert_eq!(TaxSystem::default(), TaxSystem::GeneralTaxSystem);
}

#[test]
fn product_folder_meta_writes_unset_fields_as_null() {
    assert_eq!(parent().to_json(), parent_json());
}

#[test]
fn product_folder_meta_of_a_list_writes_its_window() {
    let meta = Meta {
        href: "h".to_string(),
        media_type: "application/json".to_string(),
        size: Some(3),
        limit: Some(1000),
        offset: Some(0),
        ..Meta::default()
    };
    assert_eq!(
        meta.to_json(),
        Json::Object(vec![
            member("href", s("h")),
            member("metadataHref", Json::Null),
            member("type", Json::Null),
            member("mediaType", s("application/json")),
            member("uuidHref", Json::Null),
            member("downloadHref", Json::Null),
            member("size", Json::Int(3)),
            member("limit", Json::Int(1000)),
            member("offset", Json::Int(0)),
        ])
    );
}

#[test]
fn product_folder_clones_are_equal() {
    let meta = parent();
    assert_eq!(meta.clone(), meta);
    let wrapper = MetaWrapper { meta: parent() };
    assert_eq!(wrapper.clone(), wrapper);
    let payload = ProductFolder::create("X").code("1").product_folder(parent()).build();
    assert_eq!(payload.clone(), payload);
}
