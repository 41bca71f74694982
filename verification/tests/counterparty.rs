use rust_moysklad::json::{Json, ToJson};
use rust_moysklad::models::counterparty::{
    Address, CompanyType, Counterparty, CreateCounterparty, CreateCounterpartyBuilder, Sex,
    UpdateCounterparty, UpdateCounterpartyBuilder,
};
use rust_moysklad::models::{Attribute, AttributeType, AttributeValue, Meta, MetaWrapper};
use rust_moysklad::values::Uuid;

fn s(text: &str) -> Json {
    Json::Str(text.to_string())
}

fn member(key: &str, value: Json) -> (String, Json) {
    (key.to_string(), value)
}

fn meta(href: &str) -> Meta {
    Meta {
        href: href.to_string(),
        media_type: "application/json".to_string(),
        ..Meta::default()
    }
}

fn attribute(name: &str) -> Attribute {
    Attribute {
        meta: meta("attr"),
        id: Uuid::from_u128(7),
        name: name.to_string(),
        attribute_type: AttributeType::String,
        value: AttributeValue::String("v".to_string()),
        download: None,
    }
}

#[test]
fn counterparty_create_with_only_the_name() {
    let payload = Counterparty::create("Ivanov").build();
    assert_eq!(
        payload,
        CreateCounterparty {
            name: "Ivanov".to_string(),
            ..CreateCounterparty::default()
        }
    );
    assert_eq!(payload.to_json(), Json::Object(vec![member("name", s("Ivanov"))]));
}

#[test]
fn counterparty_update_with_nothing_set_is_an_empty_object() {
    let payload = Counterparty::update().build();
    assert_eq!(payload, UpdateCounterparty::default());
    assert_eq!(payload.to_json(), Json::Object(vec![]));
    assert_eq!(UpdateCounterpartyBuilder::new().payload, UpdateCounterparty::default());
}

#[test]
fn counterparty_text_setters() {
    let payload = Counterparty::create("n")
        .actual_address("a1")
        .description("d")
        .discount_card_number("dc")
        .email("e@example.test")
        .external_code("ec")
        .fax("f")
        .phone("p")
        .legal_title("lt")
        .legal_address("la")
        .inn("i")
        .kpp("k")
        .ogrn("o")
        .okpo("ok")
        .ogrnip("og")
        .legal_last_name("ll")
        .legal_first_name("lf")
        .legal_middle_name("lm")
        .certificate_number("cn")
        .certificate_date("cd")
        .build();
    assert_eq!(
        payload,
        CreateCounterparty {
            actual_address: Some("a1".into()),
            description: Some("d".into()),
            discount_card_number: Some("dc".into()),
            email: Some("e@example.test".into()),
            external_code: Some("ec".into()),
            fax: Some("f".into()),
            name: "n".into(),
            phone: Some("p".into()),
            legal_title: Some("lt".into()),
            legal_address: Some("la".into()),
            inn: Some("i".into()),
            kpp: Some("k".into()),
            ogrn: Some("o".into()),
            okpo: Some("ok".into()),
            ogrnip: Some("og".into()),
            legal_last_name: Some("ll".into()),
            legal_first_name: Some("lf".into()),
            legal_middle_name: Some("lm".into()),
            certificate_number: Some("cn".into()),
            certificate_date: Some("cd".into()),
            ..CreateCounterparty::default()
        }
    );
}

#[test]
fn counterparty_value_and_reference_setters() {
    let payload = Counterparty::create("n")
        .bonus_program(meta("bonus"))
        .company_type(CompanyType::Legal)
        .price_type(meta("price"))
        .shared(true)
        .state(meta("state"))
        .sex(Sex::Female)
        .build();
    assert_eq!(
        payload,
        CreateCounterparty {
            bonus_program: Some(MetaWrapper { meta: meta("bonus") }),
            company_type: Some(CompanyType::Legal),
            name: "n".into(),
            price_type: Some(MetaWrapper { meta: meta("price") }),
            shared: Some(true),
            state: Some(MetaWrapper { meta: meta("state") }),
            sex: Some(Sex::Female),
            ..CreateCounterparty::default()
        }
    );
}

#[test]
fn counterparty_tags_are_collected_in_order() {
    let payload = Counterparty::create("n").tag("a").tag("b").tag("c").build();
    assert_eq!(
        payload.tags,
        Some(vec!["a".to_string(), "b".to_string(), "c".to_string()])
    );
    assert_eq!(
        payload.to_json(),
        Json::Object(vec![
            member("name", s("n")),
            member("tags", Json::Array(vec![s("a"), s("b"), s("c")])),
        ])
    );
}

#[test]
fn counterparty_tag_set_twice_is_there_once() {
    let mut builder = Counterparty::create("X");
    builder.tag("a");
    let before = builder.build();
    builder.tag("a");
    assert_eq!(builder.build(), before);
    assert_eq!(
        builder.build().to_json(),
        Json::Object(vec![member("name", s("X")), member("tags", Json::Array(vec![s("a")]))])
    );
}

#[test]
fn counterparty_tag_that_is_there_keeps_its_place() {
    let payload = Counterparty::create("n").tag("a").tag("b").tag("a").tag("b").build();
    assert_eq!(payload.tags, Some(vec!["a".to_string(), "b".to_string()]));
}

#[test]
fn counterparty_update_tag_set_twice_is_there_once() {
    let mut builder = Counterparty::update();
    builder.tag("a").tag("b");
    let before = builder.build();
    builder.tag("b").tag("a");
    assert_eq!(builder.build(), before);
    assert_eq!(before.tags, Some(vec!["a".to_string(), "b".to_string()]));
}

#[test]
fn counterparty_tags_are_told_apart_by_their_text() {
    let payload = Counterparty::create("n").tag("a").tag("A").tag("a ").tag("").build();
    assert_eq!(
        payload.tags,
        Some(vec!["a".to_string(), "A".to_string(), "a ".to_string(), "".to_string()])
    );
}

#[test]
fn counterparty_attribute_set_twice_is_there_once() {
    let mut builder = Counterparty::create("n");
    builder.attribute(attribute("first")).attribute(attribute("second"));
    let before = builder.build();
    builder.attribute(attribute("first"));
    assert_eq!(builder.build(), before);
    assert_eq!(before.attributes, Some(vec![attribute("first"), attribute("second")]));
    let mut update = Counterparty::update();
    update.attribute(attribute("x")).attribute(attribute("x"));
    assert_eq!(update.build().attributes, Some(vec![attribute("x")]));
}

#[test]
fn counterparty_attributes_that_are_written_alike_are_the_same() {
    let text = Attribute {
        value: AttributeValue::String("2023-01-02T03:04:05".to_string()),
        ..attribute("a")
    };
    let date = Attribute {
        value: AttributeValue::Date(rust_moysklad::values::Moment { seconds: 1672628645, nanos: 0 }),
        ..attribute("a")
    };
    assert_eq!(text.to_json(), date.to_json());
    let payload = Counterparty::create("n").attribute(text.clone()).attribute(date).build();
    assert_eq!(payload.attributes, Some(vec![text]));
}

#[test]
fn counterparty_attributes_are_collected_in_order() {
    let payload = Counterparty::create("n").attribute(attribute("first")).attribute(attribute("second")).build();
    assert_eq!(payload.attributes, Some(vec![attribute("first"), attribute("second")]));
}

#[test]
fn counterparty_address_parts_are_set_one_by_one() {
    let mut builder = CreateCounterpartyBuilder::new("n");
    builder.actual_address_full_city("Moscow");
    assert_eq!(
        builder.payload.actual_address_full,
        Some(Address { city: Some("Moscow".into()), ..Address::default() })
    );
    builder.actual_address_full_street("Arbat").actual_address_full_city("Kazan");
    assert_eq!(
        builder.payload.actual_address_full,
        Some(Address {
            city: Some("Kazan".into()),
            street: Some("Arbat".into()),
            ..Address::default()
        })
    );
    assert_eq!(builder.payload.legal_address_full, None);
}

#[test]
fn counterparty_every_address_part() {
    let payload = Counterparty::create("n")
        .actual_address_full_add_info("ai")
        .actual_address_full_postal_code("pc")
        .actual_address_full_country(meta("country"))
        .actual_address_full_region(meta("region"))
        .actual_address_full_city("c")
        .actual_address_full_street("s")
        .actual_address_full_house("h")
        .actual_address_full_apartment("a")
        .actual_address_full_comment("cm")
        .legal_address_full_add_info("lai")
        .legal_address_full_postal_code("lpc")
        .legal_address_full_country(meta("lcountry"))
        .legal_address_full_region(meta("lregion"))
        .legal_address_full_city("lc")
        .legal_address_full_street("ls")
        .legal_address_full_house("lh")
        .legal_address_full_apartmen("la")
        .legal_address_full_comment("lcm")
        .build();
    assert_eq!(
        payload.actual_address_full,
        Some(Address {
            add_info: Some("ai".into()),
            postal_code: Some("pc".into()),
            country: Some(MetaWrapper { meta: meta("country") }),
            region: Some(MetaWrapper { meta: meta("region") }),
            city: Some("c".into()),
            street: Some("s".into()),
            house: Some("h".into()),
            apartment: Some("a".into()),
            comment: Some("cm".into()),
        })
    );
    assert_eq!(
        payload.legal_address_full,
        Some(Address {
            add_info: Some("lai".into()),
            postal_code: Some("lpc".into()),
            country: Some(MetaWrapper { meta: meta("lcountry") }),
            region: Some(MetaWrapper { meta: meta("lregion") }),
            city: Some("lc".into()),
            street: Some("ls".into()),
            house: Some("lh".into()),
            apartment: Some("la".into()),
            comment: Some("lcm".into()),
        })
    );
}

#[test]
fn counterparty_address_leaves_unset_parts_out() {
    let payload = Counterparty::update()
        .legal_address_full_city("Tver")
        .legal_address_full_postal_code("170000")
        .build();
    assert_eq!(
        payload.to_json(),
        Json::Object(vec![member(
            "legalAddressFull",
            Json::Object(vec![member("postalCode", s("170000")), member("city", s("Tver"))])
        )])
    );
}

#[test]
fn counterparty_address_of_no_parts_is_an_empty_object() {
    assert_eq!(Address::new().to_json(), Json::Object(vec![]));
}

#[test]
fn counterparty_address_new_is_unset() {
    assert_eq!(Address::new(), Address::default());
}

#[test]
fn counterparty_update_only_setters() {
    let payload = Counterparty::update().archived(true).code("c").meta(meta("m")).name("n").build();
    assert_eq!(
        payload,
        UpdateCounterparty {
            archived: Some(true),
            code: Some("c".into()),
            meta: Some(meta("m")),
            name: Some("n".into()),
            ..UpdateCounterparty::default()
        }
    );
}

#[test]
fn counterparty_update_setters_shared_with_create() {
    let payload = Counterparty::update()
        .actual_address("a")
        .attribute(attribute("x"))
        .bonus_program(meta("b"))
        .company_type(CompanyType::Entrepreneur)
        .description("d")
        .discount_card_number("dc")
        .email("e")
        .external_code("ec")
        .fax("f")
        .phone("p")
        .price_type(meta("pt"))
        .shared(false)
        .state(meta("st"))
        .tag("t")
        .legal_title("lt")
        .legal_address("la")
        .inn("i")
        .kpp("k")
        .ogrn("o")
        .okpo("ok")
        .ogrnip("og")
        .legal_last_name("ll")
        .legal_first_name("lf")
        .legal_middle_name("lm")
        .sex(Sex::Male)
        .certificate_number("cn")
        .certificate_date("cd")
        .build();
    assert_eq!(
        payload,
        UpdateCounterparty {
            actual_address: Some("a".into()),
            attributes: Some(vec![attribute("x")]),
            bonus_program: Some(MetaWrapper { meta: meta("b") }),
            company_type: Some(CompanyType::Entrepreneur),
            description: Some("d".into()),
            discount_card_number: Some("dc".into()),
            email: Some("e".into()),
            external_code: Some("ec".into()),
            fax: Some("f".into()),
            phone: Some("p".into()),
            price_type: Some(MetaWrapper { meta: meta("pt") }),
            shared: Some(false),
            state: Some(MetaWrapper { meta: meta("st") }),
            tags: Some(vec!["t".into()]),
            legal_title: Some("lt".into()),
            legal_address: Some("la".into()),
            inn: Some("i".into()),
            kpp: Some("k".into()),
            ogrn: Some("o".into()),
            okpo: Some("ok".into()),
            ogrnip: Some("og".into()),
            legal_last_name: Some("ll".into()),
            legal_first_name: Some("lf".into()),
            legal_middle_name: Some("lm".into()),
            sex: Some(Sex::Male),
            certificate_number: Some("cn".into()),
            certificate_date: Some("cd".into()),
            ..UpdateCounterparty::default()
        }
    );
}

#[test]
fn counterparty_update_json_keys_are_camel_case() {
    let payload = Counterparty::update()
        .company_type(CompanyType::Individual)
        .discount_card_number("1")
        .legal_first_name("Ivan")
        .sex(Sex::Male)
        .build();
    assert_eq!(
        payload.to_json(),
        Json::Object(vec![
            member("companyType", s("individual")),
            member("discountCardNumber", s("1")),
            member("legalFirstName", s("Ivan")),
            member("sex", s("MALE")),
        ])
    );
}

#[test]
fn counterparty_enum_wire_names() {
    assert_eq!(CompanyType::Legal.as_str(), "legal");
    assert_eq!(CompanyType::Entrepreneur.as_str(), "entrepreneur");
    assert_eq!(CompanyType::Individual.as_str(), "individual");
    assert_eq!(CompanyType::default(), CompanyType::Individual);
    assert_eq!(Sex::Male.as_str(), "MALE");
    assert_eq!(Sex::Female.as_str(), "FEMALE");
    assert_eq!(Sex::default(), Sex::Male);
}

#[test]
fn counterparty_build_twice_gives_equal_payloads() {
    let mut builder = Counterparty::create("n");
    builder.tag("a").attribute(attribute("x")).actual_address_full_city("c");
    assert_eq!(builder.build(), builder.build());
}
