//! Counterparties.

use vstd::prelude::*;
use crate::api_client::MsEntity;
use crate::json::{
    contains, entries, field, holds, object, opt_field, put, put_opt, Double, Json, JsonValue,
    ToJson,
};
use crate::values::{Moment, Uuid};
use super::{contains_text, held, holds_text, same_lists, Attribute, Meta, MetaWrapper, PriceType};

verus! {

/// A counterparty: a customer or a supplier.
#[derive(Default, Debug, Clone, PartialEq)]
pub struct Counterparty {
    pub account_id: Uuid,
    pub accounts: MetaWrapper,
    pub actual_address: Option<String>,
    pub actual_address_full: Option<Address>,
    pub archived: bool,
    pub attributes: Option<Vec<Attribute>>,
    pub bonus_points: Option<i32>,
    pub bonus_program: Option<MetaWrapper>,
    pub code: Option<String>,
    pub company_type: CompanyType,
    pub created: Moment,
    pub description: Option<String>,
    pub discount_card_number: Option<String>,
    pub discounts: Option<MetaWrapper>,
    pub email: Option<String>,
    pub external_code: String,
    pub fax: Option<String>,
    pub files: MetaWrapper,
    pub group: MetaWrapper,
    pub id: Uuid,
    pub meta: Meta,
    pub name: String,
    pub notes: MetaWrapper,
    pub owner: Option<MetaWrapper>,
    pub phone: Option<String>,
    pub price_type: Option<PriceType>,
    pub sales_amount: Double,
    pub shared: bool,
    pub state: Option<MetaWrapper>,
    pub sync_id: Option<Uuid>,
    pub tags: Vec<String>,
    pub updated: Moment,
    pub legal_title: Option<String>,
    pub legal_address: Option<String>,
    pub legal_address_full: Option<Address>,
    pub inn: Option<String>,
    pub kpp: Option<String>,
    pub ogrn: Option<String>,
    pub okpo: Option<String>,
    pub ogrnip: Option<String>,
    pub legal_last_name: Option<String>,
    pub legal_first_name: Option<String>,
    pub legal_middle_name: Option<String>,
    pub sex: Option<Sex>,
    pub certificate_number: Option<String>,
    pub certificate_date: Option<String>,
}

/// An address in its parts. A part that is not set is left out of the document.
#[derive(Default, Debug, PartialEq)]
pub struct Address {
    pub add_info: Option<String>,
    pub postal_code: Option<String>,
    pub country: Option<MetaWrapper>,
    pub region: Option<MetaWrapper>,
    pub city: Option<String>,
    pub street: Option<String>,
    pub house: Option<String>,
    pub apartment: Option<String>,
    pub comment: Option<String>,
}

impl Clone for Address {
    fn clone(&self) -> (r: Self)
        ensures
            r == *self,
    {
        let add_info = self.add_info.clone();
        let postal_code = self.postal_code.clone();
        let country = self.country.clone();
        let region = self.region.clone();
        let city = self.city.clone();
        let street = self.street.clone();
        let house = self.house.clone();
        let apartment = self.apartment.clone();
        let comment = self.comment.clone();
        Address {
            add_info,
            postal_code,
            country,
            region,
            city,
            street,
            house,
            apartment,
            comment,
        }
    }
}

impl ToJson for Address {
    open spec fn json(&self) -> JsonValue {
        JsonValue::Object(
            Seq::empty()
                + opt_field("addInfo"@, self.add_info)
                + opt_field("postalCode"@, self.postal_code)
                + opt_field("country"@, self.country)
                + opt_field("region"@, self.region)
                + opt_field("city"@, self.city)
                + opt_field("street"@, self.street)
                + opt_field("house"@, self.house)
                + opt_field("apartment"@, self.apartment)
                + opt_field("comment"@, self.comment),
        )
    }

    fn to_json(&self) -> (j: Json) {
        let mut members: Vec<(String, Json)> = Vec::new();
        assert(entries(members@) =~= Seq::empty());
        put_opt(&mut members, "addInfo", &self.add_info);
        put_opt(&mut members, "postalCode", &self.postal_code);
        put_opt(&mut members, "country", &self.country);
        put_opt(&mut members, "region", &self.region);
        put_opt(&mut members, "city", &self.city);
        put_opt(&mut members, "street", &self.street);
        put_opt(&mut members, "house", &self.house);
        put_opt(&mut members, "apartment", &self.apartment);
        put_opt(&mut members, "comment", &self.comment);
        object(members)
    }
}

impl Address {
    /// The address of which no part is set.
    pub open spec fn unset() -> Address {
        Address {
            add_info: None,
            postal_code: None,
            country: None,
            region: None,
            city: None,
            street: None,
            house: None,
            apartment: None,
            comment: None,
        }
    }

    /// The address that is there, or the one of which no part is set.
    pub open spec fn or_unset(address: Option<Address>) -> Address {
        match address {
            Some(a) => a,
            None => Address::unset(),
        }
    }

    /// An address of which no part is set.
    pub fn new() -> (address: Address)
        ensures
            address == Address::unset(),
    {
        Address {
            add_info: None,
            postal_code: None,
            country: None,
            region: None,
            city: None,
            street: None,
            house: None,
            apartment: None,
            comment: None,
        }
    }
}

impl Counterparty {
    /// Begins the payload that creates a counterparty of the given name.
    pub fn create(name: &str) -> (builder: CreateCounterpartyBuilder)
        ensures
            builder.payload.name@ == name@,
            builder.payload.is_unset(),
    {
        CreateCounterpartyBuilder::new(name)
    }

    /// Begins the payload that updates a counterparty. Only the fields that are set
    /// afterwards are sent, and only they change.
    pub fn update() -> (builder: UpdateCounterpartyBuilder)
        ensures
            builder.payload.is_unset(),
    {
        UpdateCounterpartyBuilder::new()
    }
}

/// The kind of a counterparty.
#[derive(Clone, Copy, Debug, PartialEq, Eq, Default)]
pub enum CompanyType {
    Legal,
    Entrepreneur,
    #[default]
    Individual,
}

impl CompanyType {
    /// The name of the value on the wire.
    pub open spec fn wire_name(self) -> Seq<char> {
        match self {
            CompanyType::Legal => "legal"@,
            CompanyType::Entrepreneur => "entrepreneur"@,
            CompanyType::Individual => "individual"@,
        }
    }

    /// The name of the value on the wire.
    pub fn as_str(&self) -> (name: &'static str)
        ensures
            name@ == self.wire_name(),
    {
        match self {
            CompanyType::Legal => "legal",
            CompanyType::Entrepreneur => "entrepreneur",
            CompanyType::Individual => "individual",
        }
    }
}

impl ToJson for CompanyType {
    open spec fn json(&self) -> JsonValue {
        JsonValue::Str(self.wire_name())
    }

    fn to_json(&self) -> (j: Json) {
        Json::Str(self.as_str().to_owned())
    }
}

/// The sex of a counterparty.
#[derive(Clone, Copy, Debug, PartialEq, Eq, Default)]
pub enum Sex {
    #[default]
    Male,
    Female,
}

impl Sex {
    /// The name of the value on the wire.
    pub open spec fn wire_name(self) -> Seq<char> {
        match self {
            Sex::Male => "MALE"@,
            Sex::Female => "FEMALE"@,
        }
    }

    /// The name of the value on the wire.
    pub fn as_str(&self) -> (name: &'static str)
        ensures
            name@ == self.wire_name(),
    {
        match self {
            Sex::Male => "MALE",
            Sex::Female => "FEMALE",
        }
    }
}

impl ToJson for Sex {
    open spec fn json(&self) -> JsonValue {
        JsonValue::Str(self.wire_name())
    }

    fn to_json(&self) -> (j: Json) {
        Json::Str(self.as_str().to_owned())
    }
}

impl MsEntity for Counterparty {
    open spec fn endpoint() -> Seq<char> {
        "https://api.moysklad.ru/api/remap/1.2/entity/counterparty"@
    }

    fn url() -> (url: String) {
        "https://api.moysklad.ru/api/remap/1.2/entity/counterparty".to_owned()
    }
}

/// The payload that creates a counterparty. A field that is not set is left out
/// of the document.
#[derive(Default, Debug, PartialEq)]
pub struct CreateCounterparty {
    pub actual_address: Option<String>,
    pub actual_address_full: Option<Address>,
    pub attributes: Option<Vec<Attribute>>,
    pub bonus_program: Option<MetaWrapper>,
    pub company_type: Option<CompanyType>,
    pub description: Option<String>,
    pub discount_card_number: Option<String>,
    pub email: Option<String>,
    pub external_code: Option<String>,
    pub fax: Option<String>,
    pub name: String,
    pub phone: Option<String>,
    pub price_type: Option<MetaWrapper>,
    pub shared: Option<bool>,
    pub state: Option<MetaWrapper>,
    pub tags: Option<Vec<String>>,
    pub legal_title: Option<String>,
    pub legal_address: Option<String>,
    pub legal_address_full: Option<Address>,
    pub inn: Option<String>,
    pub kpp: Option<String>,
    pub ogrn: Option<String>,
    pub okpo: Option<String>,
    pub ogrnip: Option<String>,
    pub legal_last_name: Option<String>,
    pub legal_first_name: Option<String>,
    pub legal_middle_name: Option<String>,
    pub sex: Option<Sex>,
    pub certificate_number: Option<String>,
    pub certificate_date: Option<String>,
}

impl CreateCounterparty {
    /// Whether no optional field is set.
    pub open spec fn is_unset(&self) -> bool {
        &&& self.actual_address is None
        &&& self.actual_address_full is None
        &&& self.attributes is None
        &&& self.bonus_program is None
        &&& self.company_type is None
        &&& self.description is None
        &&& self.discount_card_number is None
        &&& self.email is None
        &&& self.external_code is None
        &&& self.fax is None
        &&& self.phone is None
        &&& self.price_type is None
        &&& self.shared is None
        &&& self.state is None
        &&& self.tags is None
        &&& self.legal_title is None
        &&& self.legal_address is None
        &&& self.legal_address_full is None
        &&& self.inn is None
        &&& self.kpp is None
        &&& self.ogrn is None
        &&& self.okpo is None
        &&& self.ogrnip is None
        &&& self.legal_last_name is None
        &&& self.legal_first_name is None
        &&& self.legal_middle_name is None
        &&& self.sex is None
        &&& self.certificate_number is None
        &&& self.certificate_date is None
    }

    /// Whether two values hold the same in every field; lists are compared by the
    /// items they hold.
    pub open spec fn same(&self, other: &Self) -> bool {
        &&& self.actual_address == other.actual_address
        &&& self.actual_address_full == other.actual_address_full
        &&& same_lists(self.attributes, other.attributes)
        &&& self.bonus_program == other.bonus_program
        &&& self.company_type == other.company_type
        &&& self.description == other.description
        &&& self.discount_card_number == other.discount_card_number
        &&& self.email == other.email
        &&& self.external_code == other.external_code
        &&& self.fax == other.fax
        &&& self.name == other.name
        &&& self.phone == other.phone
        &&& self.price_type == other.price_type
        &&& self.shared == other.shared
        &&& self.state == other.state
        &&& same_lists(self.tags, other.tags)
        &&& self.legal_title == other.legal_title
        &&& self.legal_address == other.legal_address
        &&& self.legal_address_full == other.legal_address_full
        &&& self.inn == other.inn
        &&& self.kpp == other.kpp
        &&& self.ogrn == other.ogrn
        &&& self.okpo == other.okpo
        &&& self.ogrnip == other.ogrnip
        &&& self.legal_last_name == other.legal_last_name
        &&& self.legal_first_name == other.legal_first_name
        &&& self.legal_middle_name == other.legal_middle_name
        &&& self.sex == other.sex
        &&& self.certificate_number == other.certificate_number
        &&& self.certificate_date == other.certificate_date
    }
}

impl Clone for CreateCounterparty {
    fn clone(&self) -> (r: Self)
        ensures
            r.same(self),
            r.json() == self.json(),
    {
        let actual_address = self.actual_address.clone();
        assert(actual_address == self.actual_address);
        let actual_address_full = self.actual_address_full.clone();
        assert(actual_address_full == self.actual_address_full);
        let attributes = self.attributes.clone();
        let bonus_program = self.bonus_program.clone();
        assert(bonus_program == self.bonus_program);
        let description = self.description.clone();
        assert(description == self.description);
        let discount_card_number = self.discount_card_number.clone();
        assert(discount_card_number == self.discount_card_number);
        let email = self.email.clone();
        assert(email == self.email);
        let external_code = self.external_code.clone();
        assert(external_code == self.external_code);
        let fax = self.fax.clone();
        assert(fax == self.fax);
        let name = self.name.clone();
        assert(name == self.name);
        let phone = self.phone.clone();
        assert(phone == self.phone);
        let price_type = self.price_type.clone();
        assert(price_type == self.price_type);
        let state = self.state.clone();
        assert(state == self.state);
        let tags = self.tags.clone();
        let legal_title = self.legal_title.clone();
        assert(legal_title == self.legal_title);
        let legal_address = self.legal_address.clone();
        assert(legal_address == self.legal_address);
        let legal_address_full = self.legal_address_full.clone();
        assert(legal_address_full == self.legal_address_full);
        let inn = self.inn.clone();
        assert(inn == self.inn);
        let kpp = self.kpp.clone();
        assert(kpp == self.kpp);
        let ogrn = self.ogrn.clone();
        assert(ogrn == self.ogrn);
        let okpo = self.okpo.clone();
        assert(okpo == self.okpo);
        let ogrnip = self.ogrnip.clone();
        assert(ogrnip == self.ogrnip);
        let legal_last_name = self.legal_last_name.clone();
        assert(legal_last_name == self.legal_last_name);
        let legal_first_name = self.legal_first_name.clone();
        assert(legal_first_name == self.legal_first_name);
        let legal_middle_name = self.legal_middle_name.clone();
        assert(legal_middle_name == self.legal_middle_name);
        let certificate_number = self.certificate_number.clone();
        assert(certificate_number == self.certificate_number);
        let certificate_date = self.certificate_date.clone();
        assert(certificate_date == self.certificate_date);
        assert({
            &&& same_lists(attributes, self.attributes)
            &&& opt_field("attributes"@, attributes) == opt_field(
                "attributes"@,
                self.attributes,
            )
        }) by {
            match (attributes, self.attributes) {
                (Some(a), Some(b)) => {
                    assert(a@ =~= b@);
                    assert(a.json()->Array_0 =~= b.json()->Array_0);
                },
                _ => {},
            }
        }
        assert({
            &&& same_lists(tags, self.tags)
            &&& opt_field("tags"@, tags) == opt_field(
                "tags"@,
                self.tags,
            )
        }) by {
            match (tags, self.tags) {
                (Some(a), Some(b)) => {
                    assert(a@ =~= b@);
                    assert(a.json()->Array_0 =~= b.json()->Array_0);
                },
                _ => {},
            }
        }
        CreateCounterparty {
            actual_address,
            actual_address_full,
            attributes,
            bonus_program,
            company_type: self.company_type,
            description,
            discount_card_number,
            email,
            external_code,
            fax,
            name,
            phone,
            price_type,
            shared: self.shared,
            state,
            tags,
            legal_title,
            legal_address,
            legal_address_full,
            inn,
            kpp,
            ogrn,
            okpo,
            ogrnip,
            legal_last_name,
            legal_first_name,
            legal_middle_name,
            sex: self.sex,
            certificate_number,
            certificate_date,
        }
    }
}

impl ToJson for CreateCounterparty {
    open spec fn json(&self) -> JsonValue {
        JsonValue::Object(
            Seq::empty()
                + opt_field("actualAddress"@, self.actual_address)
                + opt_field("actualAddressFull"@, self.actual_address_full)
                + opt_field("attributes"@, self.attributes)
                + opt_field("bonusProgram"@, self.bonus_program)
                + opt_field("companyType"@, self.company_type)
                + opt_field("description"@, self.description)
                + opt_field("discountCardNumber"@, self.discount_card_number)
                + opt_field("email"@, self.email)
                + opt_field("externalCode"@, self.external_code)
                + opt_field("fax"@, self.fax)
                + field("name"@, self.name)
                + opt_field("phone"@, self.phone)
                + opt_field("priceType"@, self.price_type)
                + opt_field("shared"@, self.shared)
                + opt_field("state"@, self.state)
                + opt_field("tags"@, self.tags)
                + opt_field("legalTitle"@, self.legal_title)
                + opt_field("legalAddress"@, self.legal_address)
                + opt_field("legalAddressFull"@, self.legal_address_full)
                + opt_field("inn"@, self.inn)
                + opt_field("kpp"@, self.kpp)
                + opt_field("ogrn"@, self.ogrn)
                + opt_field("okpo"@, self.okpo)
                + opt_field("ogrnip"@, self.ogrnip)
                + opt_field("legalLastName"@, self.legal_last_name)
                + opt_field("legalFirstName"@, self.legal_first_name)
                + opt_field("legalMiddleName"@, self.legal_middle_name)
                + opt_field("sex"@, self.sex)
                + opt_field("certificateNumber"@, self.certificate_number)
                + opt_field("certificateDate"@, self.certificate_date),
        )
    }

    fn to_json(&self) -> (j: Json) {
        let mut members: Vec<(String, Json)> = Vec::new();
        assert(entries(members@) =~= Seq::empty());
        put_opt(&mut members, "actualAddress", &self.actual_address);
        put_opt(&mut members, "actualAddressFull", &self.actual_address_full);
        put_opt(&mut members, "attributes", &self.attributes);
        put_opt(&mut members, "bonusProgram", &self.bonus_program);
        put_opt(&mut members, "companyType", &self.company_type);
        put_opt(&mut members, "description", &self.description);
        put_opt(&mut members, "discountCardNumber", &self.discount_card_number);
        put_opt(&mut members, "email", &self.email);
        put_opt(&mut members, "externalCode", &self.external_code);
        put_opt(&mut members, "fax", &self.fax);
        put(&mut members, "name", &self.name);
        put_opt(&mut members, "phone", &self.phone);
        put_opt(&mut members, "priceType", &self.price_type);
        put_opt(&mut members, "shared", &self.shared);
        put_opt(&mut members, "state", &self.state);
        put_opt(&mut members, "tags", &self.tags);
        put_opt(&mut members, "legalTitle", &self.legal_title);
        put_opt(&mut members, "legalAddress", &self.legal_address);
        put_opt(&mut members, "legalAddressFull", &self.legal_address_full);
        put_opt(&mut members, "inn", &self.inn);
        put_opt(&mut members, "kpp", &self.kpp);
        put_opt(&mut members, "ogrn", &self.ogrn);
        put_opt(&mut members, "okpo", &self.okpo);
        put_opt(&mut members, "ogrnip", &self.ogrnip);
        put_opt(&mut members, "legalLastName", &self.legal_last_name);
        put_opt(&mut members, "legalFirstName", &self.legal_first_name);
        put_opt(&mut members, "legalMiddleName", &self.legal_middle_name);
        put_opt(&mut members, "sex", &self.sex);
        put_opt(&mut members, "certificateNumber", &self.certificate_number);
        put_opt(&mut members, "certificateDate", &self.certificate_date);
        object(members)
    }
}

impl CreateCounterparty {
    /// A payload on which no optional field is set is written as the object of
    /// the members that are always written, and of no other: a field that is
    /// not set leaves no member behind, not even a `null`.
    pub proof fn lemma_unset_fields_are_left_out(self)
        requires
            self.is_unset(),
        ensures
            self.json() == JsonValue::Object(seq![("name"@, self.name.json())]),
    {
        assert(self.json()->Object_0 =~= seq![("name"@, self.name.json())]);
    }
}

/// Collects the fields of a `CreateCounterparty`.
#[derive(Default)]
pub struct CreateCounterpartyBuilder {
    pub payload: CreateCounterparty,
}

impl CreateCounterpartyBuilder {
    /// A builder that holds the name of the counterparty and nothing else.
    pub fn new(name: &str) -> (builder: Self)
        ensures
            builder.payload.name@ == name@,
            builder.payload.is_unset(),
    {
        CreateCounterpartyBuilder {
            payload: CreateCounterparty {
                actual_address: None,
                actual_address_full: None,
                attributes: None,
                bonus_program: None,
                company_type: None,
                description: None,
                discount_card_number: None,
                email: None,
                external_code: None,
                fax: None,
                name: name.to_owned(),
                phone: None,
                price_type: None,
                shared: None,
                state: None,
                tags: None,
                legal_title: None,
                legal_address: None,
                legal_address_full: None,
                inn: None,
                kpp: None,
                ogrn: None,
                okpo: None,
                ogrnip: None,
                legal_last_name: None,
                legal_first_name: None,
                legal_middle_name: None,
                sex: None,
                certificate_number: None,
                certificate_date: None,
            },
        }
    }

    /// The actual address, in one line
    pub fn actual_address(&mut self, actual_address: &str) -> (ret: &mut Self)
        ensures
            ret.payload.actual_address matches Some(text) && text@ == actual_address@,
            ret.payload == (CreateCounterparty {
                actual_address: ret.payload.actual_address,
                ..old(self).payload
            }),
            *final(self) == *final(ret),
    {
        self.payload.actual_address = Some(actual_address.to_owned());
        self
    }

    /// Further remarks of the actual address. The other parts of the address
    /// stay as they are.
    pub fn actual_address_full_add_info(&mut self, add_info: &str) -> (ret: &mut Self)
        ensures
            ({
                &&& ret.payload.actual_address_full matches Some(address)
                &&& address.add_info matches Some(text)
                &&& text@ == add_info@
                &&& address == (Address {
                    add_info: address.add_info,
                    ..Address::or_unset(old(self).payload.actual_address_full)
                })
            }),
            ret.payload == (CreateCounterparty {
                actual_address_full: ret.payload.actual_address_full,
                ..old(self).payload
            }),
            *final(self) == *final(ret),
    {
        match &mut self.payload.actual_address_full {
            Some(address) => {
                address.add_info = Some(add_info.to_owned());
            },
            None => {
                let mut address = Address::new();
                address.add_info = Some(add_info.to_owned());
                self.payload.actual_address_full = Some(address);
            },
        }
        self
    }

    /// The postal code of the actual address. The other parts of the address
    /// stay as they are.
    pub fn actual_address_full_postal_code(&mut self, postal_code: &str) -> (ret: &mut Self)
        ensures
            ({
                &&& ret.payload.actual_address_full matches Some(address)
                &&& address.postal_code matches Some(text)
                &&& text@ == postal_code@
                &&& address == (Address {
                    postal_code: address.postal_code,
                    ..Address::or_unset(old(self).payload.actual_address_full)
                })
            }),
            ret.payload == (CreateCounterparty {
                actual_address_full: ret.payload.actual_address_full,
                ..old(self).payload
            }),
            *final(self) == *final(ret),
    {
        match &mut self.payload.actual_address_full {
            Some(address) => {
                address.postal_code = Some(postal_code.to_owned());
            },
            None => {
                let mut address = Address::new();
                address.postal_code = Some(postal_code.to_owned());
                self.payload.actual_address_full = Some(address);
            },
        }
        self
    }

    /// The country of the actual address. The other parts of the address stay
    /// as they are.
    pub fn actual_address_full_country(&mut self, country_meta: Meta) -> (ret: &mut Self)
        ensures
            ret.payload.actual_address_full == Some(
                Address {
                    country: Some(MetaWrapper { meta: country_meta }),
                    ..Address::or_unset(old(self).payload.actual_address_full)
                },
            ),
            ret.payload == (CreateCounterparty {
                actual_address_full: ret.payload.actual_address_full,
                ..old(self).payload
            }),
            *final(self) == *final(ret),
    {
        match &mut self.payload.actual_address_full {
            Some(address) => {
                address.country = Some(MetaWrapper { meta: country_meta });
            },
            None => {
                let mut address = Address::new();
                address.country = Some(MetaWrapper { meta: country_meta });
                self.payload.actual_address_full = Some(address);
            },
        }
        self
    }

    /// The region of the actual address. The other parts of the address stay as
    /// they are.
    pub fn actual_address_full_region(&mut self, region_meta: Meta) -> (ret: &mut Self)
        ensures
            ret.payload.actual_address_full == Some(
                Address {
                    region: Some(MetaWrapper { meta: region_meta }),
                    ..Address::or_unset(old(self).payload.actual_address_full)
                },
            ),
            ret.payload == (CreateCounterparty {
                actual_address_full: ret.payload.actual_address_full,
                ..old(self).payload
            }),
            *final(self) == *final(ret),
    {
        match &mut self.payload.actual_address_full {
            Some(address) => {
                address.region = Some(MetaWrapper { meta: region_meta });
            },
            None => {
                let mut address = Address::new();
                address.region = Some(MetaWrapper { meta: region_meta });
                self.payload.actual_address_full = Some(address);
            },
        }
        self
    }

    /// The city of the actual address. The other parts of the address stay as
    /// they are.
    pub fn actual_address_full_city(&mut self, city: &str) -> (ret: &mut Self)
        ensures
            ({
                &&& ret.payload.actual_address_full matches Some(address)
                &&& address.city matches Some(text)
                &&& text@ == city@
                &&& address == (Address {
                    city: address.city,
                    ..Address::or_unset(old(self).payload.actual_address_full)
                })
            }),
            ret.payload == (CreateCounterparty {
                actual_address_full: ret.payload.actual_address_full,
                ..old(self).payload
            }),
            *final(self) == *final(ret),
    {
        match &mut self.payload.actual_address_full {
            Some(address) => {
                address.city = Some(city.to_owned());
            },
            None => {
                let mut address = Address::new();
                address.city = Some(city.to_owned());
                self.payload.actual_address_full = Some(address);
            },
        }
        self
    }

    /// The street of the actual address. The other parts of the address stay as
    /// they are.
    pub fn actual_address_full_street(&mut self, street: &str) -> (ret: &mut Self)
        ensures
            ({
                &&& ret.payload.actual_address_full matches Some(address)
                &&& address.street matches Some(text)
                &&& text@ == street@
                &&& address == (Address {
                    street: address.street,
                    ..Address::or_unset(old(self).payload.actual_address_full)
                })
            }),
            ret.payload == (CreateCounterparty {
                actual_address_full: ret.payload.actual_address_full,
                ..old(self).payload
            }),
            *final(self) == *final(ret),
    {
        match &mut self.payload.actual_address_full {
            Some(address) => {
                address.street = Some(street.to_owned());
            },
            None => {
                let mut address = Address::new();
                address.street = Some(street.to_owned());
                self.payload.actual_address_full = Some(address);
            },
        }
        self
    }

    /// The house of the actual address. The other parts of the address stay as
    /// they are.
    pub fn actual_address_full_house(&mut self, house: &str) -> (ret: &mut Self)
        ensures
            ({
                &&& ret.payload.actual_address_full matches Some(address)
                &&& address.house matches Some(text)
                &&& text@ == house@
                &&& address == (Address {
                    house: address.house,
                    ..Address::or_unset(old(self).payload.actual_address_full)
                })
            }),
            ret.payload == (CreateCounterparty {
                actual_address_full: ret.payload.actual_address_full,
                ..old(self).payload
            }),
            *final(self) == *final(ret),
    {
        match &mut self.payload.actual_address_full {
            Some(address) => {
                address.house = Some(house.to_owned());
            },
            None => {
                let mut address = Address::new();
                address.house = Some(house.to_owned());
                self.payload.actual_address_full = Some(address);
            },
        }
        self
    }

    /// The apartment of the actual address. The other parts of the address stay
    /// as they are.
    pub fn actual_address_full_apartment(&mut self, apartment: &str) -> (ret: &mut Self)
        ensures
            ({
                &&& ret.payload.actual_address_full matches Some(address)
                &&& address.apartment matches Some(text)
                &&& text@ == apartment@
                &&& address == (Address {
                    apartment: address.apartment,
                    ..Address::or_unset(old(self).payload.actual_address_full)
                })
            }),
            ret.payload == (CreateCounterparty {
                actual_address_full: ret.payload.actual_address_full,
                ..old(self).payload
            }),
            *final(self) == *final(ret),
    {
        match &mut self.payload.actual_address_full {
            Some(address) => {
                address.apartment = Some(apartment.to_owned());
            },
            None => {
                let mut address = Address::new();
                address.apartment = Some(apartment.to_owned());
                self.payload.actual_address_full = Some(address);
            },
        }
        self
    }

    /// The comment of the actual address. The other parts of the address stay
    /// as they are.
    pub fn actual_address_full_comment(&mut self, comment: &str) -> (ret: &mut Self)
        ensures
            ({
                &&& ret.payload.actual_address_full matches Some(address)
                &&& address.comment matches Some(text)
                &&& text@ == comment@
                &&& address == (Address {
                    comment: address.comment,
                    ..Address::or_unset(old(self).payload.actual_address_full)
                })
            }),
            ret.payload == (CreateCounterparty {
                actual_address_full: ret.payload.actual_address_full,
                ..old(self).payload
            }),
            *final(self) == *final(ret),
    {
        match &mut self.payload.actual_address_full {
            Some(address) => {
                address.comment = Some(comment.to_owned());
            },
            None => {
                let mut address = Address::new();
                address.comment = Some(comment.to_owned());
                self.payload.actual_address_full = Some(address);
            },
        }
        self
    }

    /// Adds the value of a custom field, unless a value that is written as the
    /// same document is there already
    pub fn attribute(&mut self, attribute: Attribute) -> (ret: &mut Self)
        ensures
            ({
                let before = held(old(self).payload.attributes);
                if holds(before, attribute) {
                    ret.payload == old(self).payload
                } else {
                    &&& ret.payload.attributes matches Some(list)
                    &&& list@ == before.push(attribute)
                    &&& ret.payload == (CreateCounterparty {
                        attributes: ret.payload.attributes,
                        ..old(self).payload
                    })
                }
            }),
            *final(self) == *final(ret),
    {
        let found = match &self.payload.attributes {
            Some(list) => contains(list, &attribute),
            None => false,
        };
        if !found {
            match &mut self.payload.attributes {
                Some(list) => {
                    list.push(attribute);
                },
                None => {
                    let mut list = Vec::new();
                    list.push(attribute);
                    self.payload.attributes = Some(list);
                },
            }
        }
        self
    }

    /// The bonus program
    pub fn bonus_program(&mut self, bonus_programm_meta: Meta) -> (ret: &mut Self)
        ensures
            ret.payload == (CreateCounterparty {
                bonus_program: Some(MetaWrapper { meta: bonus_programm_meta }),
                ..old(self).payload
            }),
            *final(self) == *final(ret),
    {
        self.payload.bonus_program = Some(MetaWrapper { meta: bonus_programm_meta });
        self
    }

    /// The kind of counterparty
    pub fn company_type(&mut self, company_type: CompanyType) -> (ret: &mut Self)
        ensures
            ret.payload == (CreateCounterparty {
                company_type: Some(company_type),
                ..old(self).payload
            }),
            *final(self) == *final(ret),
    {
        self.payload.company_type = Some(company_type);
        self
    }

    /// The comment
    pub fn description(&mut self, description: &str) -> (ret: &mut Self)
        ensures
            ret.payload.description matches Some(text) && text@ == description@,
            ret.payload == (CreateCounterparty {
                description: ret.payload.description,
                ..old(self).payload
            }),
            *final(self) == *final(ret),
    {
        self.payload.description = Some(description.to_owned());
        self
    }

    /// The number of the discount card
    pub fn discount_card_number(&mut self, discount_card_number: &str) -> (ret: &mut Self)
        ensures
            ret.payload.discount_card_number matches Some(text) && text@ == discount_card_number@,
            ret.payload == (CreateCounterparty {
                discount_card_number: ret.payload.discount_card_number,
                ..old(self).payload
            }),
            *final(self) == *final(ret),
    {
        self.payload.discount_card_number = Some(discount_card_number.to_owned());
        self
    }

    /// The e-mail address
    pub fn email(&mut self, email: &str) -> (ret: &mut Self)
        ensures
            ret.payload.email matches Some(text) && text@ == email@,
            ret.payload == (CreateCounterparty {
                email: ret.payload.email,
                ..old(self).payload
            }),
            *final(self) == *final(ret),
    {
        self.payload.email = Some(email.to_owned());
        self
    }

    /// The external code
    pub fn external_code(&mut self, external_code: &str) -> (ret: &mut Self)
        ensures
            ret.payload.external_code matches Some(text) && text@ == external_code@,
            ret.payload == (CreateCounterparty {
                external_code: ret.payload.external_code,
                ..old(self).payload
            }),
            *final(self) == *final(ret),
    {
        self.payload.external_code = Some(external_code.to_owned());
        self
    }

    /// The fax number
    pub fn fax(&mut self, fax: &str) -> (ret: &mut Self)
        ensures
            ret.payload.fax matches Some(text) && text@ == fax@,
            ret.payload == (CreateCounterparty {
                fax: ret.payload.fax,
                ..old(self).payload
            }),
            *final(self) == *final(ret),
    {
        self.payload.fax = Some(fax.to_owned());
        self
    }

    /// The telephone number
    pub fn phone(&mut self, phone: &str) -> (ret: &mut Self)
        ensures
            ret.payload.phone matches Some(text) && text@ == phone@,
            ret.payload == (CreateCounterparty {
                phone: ret.payload.phone,
                ..old(self).payload
            }),
            *final(self) == *final(ret),
    {
        self.payload.phone = Some(phone.to_owned());
        self
    }

    /// The type of price
    pub fn price_type(&mut self, price_type_meta: Meta) -> (ret: &mut Self)
        ensures
            ret.payload == (CreateCounterparty {
                price_type: Some(MetaWrapper { meta: price_type_meta }),
                ..old(self).payload
            }),
            *final(self) == *final(ret),
    {
        self.payload.price_type = Some(MetaWrapper { meta: price_type_meta });
        self
    }

    /// Whether access is shared
    pub fn shared(&mut self, shared: bool) -> (ret: &mut Self)
        ensures
            ret.payload == (CreateCounterparty {
                shared: Some(shared),
                ..old(self).payload
            }),
            *final(self) == *final(ret),
    {
        self.payload.shared = Some(shared);
        self
    }

    /// The status
    pub fn state(&mut self, state_meta: Meta) -> (ret: &mut Self)
        ensures
            ret.payload == (CreateCounterparty {
                state: Some(MetaWrapper { meta: state_meta }),
                ..old(self).payload
            }),
            *final(self) == *final(ret),
    {
        self.payload.state = Some(MetaWrapper { meta: state_meta });
        self
    }

    /// Adds a tag, unless the tag is there already
    pub fn tag(&mut self, tag: &str) -> (ret: &mut Self)
        ensures
            ({
                let before = held(old(self).payload.tags);
                if holds_text(before, tag@) {
                    ret.payload == old(self).payload
                } else {
                    &&& ret.payload.tags matches Some(list)
                    &&& list@.len() == before.len() + 1
                    &&& list@.drop_last() == before
                    &&& list@.last()@ == tag@
                    &&& ret.payload == (CreateCounterparty {
                        tags: ret.payload.tags,
                        ..old(self).payload
                    })
                }
            }),
            *final(self) == *final(ret),
    {
        let item = tag.to_owned();
        let found = match &self.payload.tags {
            Some(list) => contains_text(list, &item),
            None => false,
        };
        if !found {
            match &mut self.payload.tags {
                Some(list) => {
                    list.push(item);
                },
                None => {
                    let mut list = Vec::new();
                    list.push(item);
                    self.payload.tags = Some(list);
                },
            }
        }
        self
    }

    /// The full name
    pub fn legal_title(&mut self, legal_title: &str) -> (ret: &mut Self)
        ensures
            ret.payload.legal_title matches Some(text) && text@ == legal_title@,
            ret.payload == (CreateCounterparty {
                legal_title: ret.payload.legal_title,
                ..old(self).payload
            }),
            *final(self) == *final(ret),
    {
        self.payload.legal_title = Some(legal_title.to_owned());
        self
    }

    /// The legal address, in one line
    pub fn legal_address(&mut self, legal_address: &str) -> (ret: &mut Self)
        ensures
            ret.payload.legal_address matches Some(text) && text@ == legal_address@,
            ret.payload == (CreateCounterparty {
                legal_address: ret.payload.legal_address,
                ..old(self).payload
            }),
            *final(self) == *final(ret),
    {
        self.payload.legal_address = Some(legal_address.to_owned());
        self
    }

    /// Further remarks of the legal address. The other parts of the address
    /// stay as they are.
    pub fn legal_address_full_add_info(&mut self, add_info: &str) -> (ret: &mut Self)
        ensures
            ({
                &&& ret.payload.legal_address_full matches Some(address)
                &&& address.add_info matches Some(text)
                &&& text@ == add_info@
                &&& address == (Address {
                    add_info: address.add_info,
                    ..Address::or_unset(old(self).payload.legal_address_full)
                })
            }),
            ret.payload == (CreateCounterparty {
                legal_address_full: ret.payload.legal_address_full,
                ..old(self).payload
            }),
            *final(self) == *final(ret),
    {
        match &mut self.payload.legal_address_full {
            Some(address) => {
                address.add_info = Some(add_info.to_owned());
            },
            None => {
                let mut address = Address::new();
                address.add_info = Some(add_info.to_owned());
                self.payload.legal_address_full = Some(address);
            },
        }
        self
    }

    /// The postal code of the legal address. The other parts of the address
    /// stay as they are.
    pub fn legal_address_full_postal_code(&mut self, postal_code: &str) -> (ret: &mut Self)
        ensures
            ({
                &&& ret.payload.legal_address_full matches Some(address)
                &&& address.postal_code matches Some(text)
                &&& text@ == postal_code@
                &&& address == (Address {
                    postal_code: address.postal_code,
                    ..Address::or_unset(old(self).payload.legal_address_full)
                })
            }),
            ret.payload == (CreateCounterparty {
                legal_address_full: ret.payload.legal_address_full,
                ..old(self).payload
            }),
            *final(self) == *final(ret),
    {
        match &mut self.payload.legal_address_full {
            Some(address) => {
                address.postal_code = Some(postal_code.to_owned());
            },
            None => {
                let mut address = Address::new();
                address.postal_code = Some(postal_code.to_owned());
                self.payload.legal_address_full = Some(address);
            },
        }
        self
    }

    /// The country of the legal address. The other parts of the address stay as
    /// they are.
    pub fn legal_address_full_country(&mut self, country_meta: Meta) -> (ret: &mut Self)
        ensures
            ret.payload.legal_address_full == Some(
                Address {
                    country: Some(MetaWrapper { meta: country_meta }),
                    ..Address::or_unset(old(self).payload.legal_address_full)
                },
            ),
            ret.payload == (CreateCounterparty {
                legal_address_full: ret.payload.legal_address_full,
                ..old(self).payload
            }),
            *final(self) == *final(ret),
    {
        match &mut self.payload.legal_address_full {
            Some(address) => {
                address.country = Some(MetaWrapper { meta: country_meta });
            },
            None => {
                let mut address = Address::new();
                address.country = Some(MetaWrapper { meta: country_meta });
                self.payload.legal_address_full = Some(address);
            },
        }
        self
    }

    /// The region of the legal address. The other parts of the address stay as
    /// they are.
    pub fn legal_address_full_region(&mut self, region_meta: Meta) -> (ret: &mut Self)
        ensures
            ret.payload.legal_address_full == Some(
                Address {
                    region: Some(MetaWrapper { meta: region_meta }),
                    ..Address::or_unset(old(self).payload.legal_address_full)
                },
            ),
            ret.payload == (CreateCounterparty {
                legal_address_full: ret.payload.legal_address_full,
                ..old(self).payload
            }),
            *final(self) == *final(ret),
    {
        match &mut self.payload.legal_address_full {
            Some(address) => {
                address.region = Some(MetaWrapper { meta: region_meta });
            },
            None => {
                let mut address = Address::new();
                address.region = Some(MetaWrapper { meta: region_meta });
                self.payload.legal_address_full = Some(address);
            },
        }
        self
    }

    /// The city of the legal address. The other parts of the address stay as
    /// they are.
    pub fn legal_address_full_city(&mut self, city: &str) -> (ret: &mut Self)
        ensures
            ({
                &&& ret.payload.legal_address_full matches Some(address)
                &&& address.city matches Some(text)
                &&& text@ == city@
                &&& address == (Address {
                    city: address.city,
                    ..Address::or_unset(old(self).payload.legal_address_full)
                })
            }),
            ret.payload == (CreateCounterparty {
                legal_address_full: ret.payload.legal_address_full,
                ..old(self).payload
            }),
            *final(self) == *final(ret),
    {
        match &mut self.payload.legal_address_full {
            Some(address) => {
                address.city = Some(city.to_owned());
            },
            None => {
                let mut address = Address::new();
                address.city = Some(city.to_owned());
                self.payload.legal_address_full = Some(address);
            },
        }
        self
    }

    /// The street of the legal address. The other parts of the address stay as
    /// they are.
    pub fn legal_address_full_street(&mut self, street: &str) -> (ret: &mut Self)
        ensures
            ({
                &&& ret.payload.legal_address_full matches Some(address)
                &&& address.street matches Some(text)
                &&& text@ == street@
                &&& address == (Address {
                    street: address.street,
                    ..Address::or_unset(old(self).payload.legal_address_full)
                })
            }),
            ret.payload == (CreateCounterparty {
                legal_address_full: ret.payload.legal_address_full,
                ..old(self).payload
            }),
            *final(self) == *final(ret),
    {
        match &mut self.payload.legal_address_full {
            Some(address) => {
                address.street = Some(street.to_owned());
            },
            None => {
                let mut address = Address::new();
                address.street = Some(street.to_owned());
                self.payload.legal_address_full = Some(address);
            },
        }
        self
    }

    /// The house of the legal address. The other parts of the address stay as
    /// they are.
    pub fn legal_address_full_house(&mut self, house: &str) -> (ret: &mut Self)
        ensures
            ({
                &&& ret.payload.legal_address_full matches Some(address)
                &&& address.house matches Some(text)
                &&& text@ == house@
                &&& address == (Address {
                    house: address.house,
                    ..Address::or_unset(old(self).payload.legal_address_full)
                })
            }),
            ret.payload == (CreateCounterparty {
                legal_address_full: ret.payload.legal_address_full,
                ..old(self).payload
            }),
            *final(self) == *final(ret),
    {
        match &mut self.payload.legal_address_full {
            Some(address) => {
                address.house = Some(house.to_owned());
            },
            None => {
                let mut address = Address::new();
                address.house = Some(house.to_owned());
                self.payload.legal_address_full = Some(address);
            },
        }
        self
    }

    /// The apartment of the legal address. The other parts of the address stay
    /// as they are.
    pub fn legal_address_full_apartmen(&mut self, apartment: &str) -> (ret: &mut Self)
        ensures
            ({
                &&& ret.payload.legal_address_full matches Some(address)
                &&& address.apartment matches Some(text)
                &&& text@ == apartment@
                &&& address == (Address {
                    apartment: address.apartment,
                    ..Address::or_unset(old(self).payload.legal_address_full)
                })
            }),
            ret.payload == (CreateCounterparty {
                legal_address_full: ret.payload.legal_address_full,
                ..old(self).payload
            }),
            *final(self) == *final(ret),
    {
        match &mut self.payload.legal_address_full {
            Some(address) => {
                address.apartment = Some(apartment.to_owned());
            },
            None => {
                let mut address = Address::new();
                address.apartment = Some(apartment.to_owned());
                self.payload.legal_address_full = Some(address);
            },
        }
        self
    }

    /// The comment of the legal address. The other parts of the address stay as
    /// they are.
    pub fn legal_address_full_comment(&mut self, comment: &str) -> (ret: &mut Self)
        ensures
            ({
                &&& ret.payload.legal_address_full matches Some(address)
                &&& address.comment matches Some(text)
                &&& text@ == comment@
                &&& address == (Address {
                    comment: address.comment,
                    ..Address::or_unset(old(self).payload.legal_address_full)
                })
            }),
            ret.payload == (CreateCounterparty {
                legal_address_full: ret.payload.legal_address_full,
                ..old(self).payload
            }),
            *final(self) == *final(ret),
    {
        match &mut self.payload.legal_address_full {
            Some(address) => {
                address.comment = Some(comment.to_owned());
            },
            None => {
                let mut address = Address::new();
                address.comment = Some(comment.to_owned());
                self.payload.legal_address_full = Some(address);
            },
        }
        self
    }

    /// The taxpayer number (INN)
    pub fn inn(&mut self, inn: &str) -> (ret: &mut Self)
        ensures
            ret.payload.inn matches Some(text) && text@ == inn@,
            ret.payload == (CreateCounterparty {
                inn: ret.payload.inn,
                ..old(self).payload
            }),
            *final(self) == *final(ret),
    {
        self.payload.inn = Some(inn.to_owned());
        self
    }

    /// The KPP
    pub fn kpp(&mut self, kpp: &str) -> (ret: &mut Self)
        ensures
            ret.payload.kpp matches Some(text) && text@ == kpp@,
            ret.payload == (CreateCounterparty {
                kpp: ret.payload.kpp,
                ..old(self).payload
            }),
            *final(self) == *final(ret),
    {
        self.payload.kpp = Some(kpp.to_owned());
        self
    }

    /// The OGRN
    pub fn ogrn(&mut self, ogrn: &str) -> (ret: &mut Self)
        ensures
            ret.payload.ogrn matches Some(text) && text@ == ogrn@,
            ret.payload == (CreateCounterparty {
                ogrn: ret.payload.ogrn,
                ..old(self).payload
            }),
            *final(self) == *final(ret),
    {
        self.payload.ogrn = Some(ogrn.to_owned());
        self
    }

    /// The OKPO
    pub fn okpo(&mut self, okpo: &str) -> (ret: &mut Self)
        ensures
            ret.payload.okpo matches Some(text) && text@ == okpo@,
            ret.payload == (CreateCounterparty {
                okpo: ret.payload.okpo,
                ..old(self).payload
            }),
            *final(self) == *final(ret),
    {
        self.payload.okpo = Some(okpo.to_owned());
        self
    }

    /// The OGRNIP
    pub fn ogrnip(&mut self, ogrnip: &str) -> (ret: &mut Self)
        ensures
            ret.payload.ogrnip matches Some(text) && text@ == ogrnip@,
            ret.payload == (CreateCounterparty {
                ogrnip: ret.payload.ogrnip,
                ..old(self).payload
            }),
            *final(self) == *final(ret),
    {
        self.payload.ogrnip = Some(ogrnip.to_owned());
        self
    }

    /// The last name
    pub fn legal_last_name(&mut self, legal_last_name: &str) -> (ret: &mut Self)
        ensures
            ret.payload.legal_last_name matches Some(text) && text@ == legal_last_name@,
            ret.payload == (CreateCounterparty {
                legal_last_name: ret.payload.legal_last_name,
                ..old(self).payload
            }),
            *final(self) == *final(ret),
    {
        self.payload.legal_last_name = Some(legal_last_name.to_owned());
        self
    }

    /// The first name
    pub fn legal_first_name(&mut self, legal_first_name: &str) -> (ret: &mut Self)
        ensures
            ret.payload.legal_first_name matches Some(text) && text@ == legal_first_name@,
            ret.payload == (CreateCounterparty {
                legal_first_name: ret.payload.legal_first_name,
                ..old(self).payload
            }),
            *final(self) == *final(ret),
    {
        self.payload.legal_first_name = Some(legal_first_name.to_owned());
        self
    }

    /// The middle name
    pub fn legal_middle_name(&mut self, legal_middle_name: &str) -> (ret: &mut Self)
        ensures
            ret.payload.legal_middle_name matches Some(text) && text@ == legal_middle_name@,
            ret.payload == (CreateCounterparty {
                legal_middle_name: ret.payload.legal_middle_name,
                ..old(self).payload
            }),
            *final(self) == *final(ret),
    {
        self.payload.legal_middle_name = Some(legal_middle_name.to_owned());
        self
    }

    /// The sex
    pub fn sex(&mut self, sex: Sex) -> (ret: &mut Self)
        ensures
            ret.payload == (CreateCounterparty {
                sex: Some(sex),
                ..old(self).payload
            }),
            *final(self) == *final(ret),
    {
        self.payload.sex = Some(sex);
        self
    }

    /// The number of the certificate
    pub fn certificate_number(&mut self, certificate_number: &str) -> (ret: &mut Self)
        ensures
            ret.payload.certificate_number matches Some(text) && text@ == certificate_number@,
            ret.payload == (CreateCounterparty {
                certificate_number: ret.payload.certificate_number,
                ..old(self).payload
            }),
            *final(self) == *final(ret),
    {
        self.payload.certificate_number = Some(certificate_number.to_owned());
        self
    }

    /// The date of the certificate
    pub fn certificate_date(&mut self, certificate_date: &str) -> (ret: &mut Self)
        ensures
            ret.payload.certificate_date matches Some(text) && text@ == certificate_date@,
            ret.payload == (CreateCounterparty {
                certificate_date: ret.payload.certificate_date,
                ..old(self).payload
            }),
            *final(self) == *final(ret),
    {
        self.payload.certificate_date = Some(certificate_date.to_owned());
        self
    }

    /// The payload as the builder holds it. The builder stays as it is and can
    /// build again.
    pub fn build(&self) -> (payload: CreateCounterparty)
        ensures
            payload.same(&self.payload),
            payload.json() == self.payload.json(),
    {
        self.payload.clone()
    }
}

/// The payload that updates a counterparty. A field that is not set is left out
/// of the document, and the service leaves it as it is.
#[derive(Default, Debug, PartialEq)]
pub struct UpdateCounterparty {
    pub actual_address: Option<String>,
    pub actual_address_full: Option<Address>,
    pub archived: Option<bool>,
    pub attributes: Option<Vec<Attribute>>,
    pub bonus_program: Option<MetaWrapper>,
    pub code: Option<String>,
    pub company_type: Option<CompanyType>,
    pub description: Option<String>,
    pub discount_card_number: Option<String>,
    pub email: Option<String>,
    pub external_code: Option<String>,
    pub fax: Option<String>,
    pub meta: Option<Meta>,
    pub name: Option<String>,
    pub phone: Option<String>,
    pub price_type: Option<MetaWrapper>,
    pub shared: Option<bool>,
    pub state: Option<MetaWrapper>,
    pub tags: Option<Vec<String>>,
    pub legal_title: Option<String>,
    pub legal_address: Option<String>,
    pub legal_address_full: Option<Address>,
    pub inn: Option<String>,
    pub kpp: Option<String>,
    pub ogrn: Option<String>,
    pub okpo: Option<String>,
    pub ogrnip: Option<String>,
    pub legal_last_name: Option<String>,
    pub legal_first_name: Option<String>,
    pub legal_middle_name: Option<String>,
    pub sex: Option<Sex>,
    pub certificate_number: Option<String>,
    pub certificate_date: Option<String>,
}

impl UpdateCounterparty {
    /// Whether no optional field is set.
    pub open spec fn is_unset(&self) -> bool {
        &&& self.actual_address is None
        &&& self.actual_address_full is None
        &&& self.archived is None
        &&& self.attributes is None
        &&& self.bonus_program is None
        &&& self.code is None
        &&& self.company_type is None
        &&& self.description is None
        &&& self.discount_card_number is None
        &&& self.email is None
        &&& self.external_code is None
        &&& self.fax is None
        &&& self.meta is None
        &&& self.name is None
        &&& self.phone is None
        &&& self.price_type is None
        &&& self.shared is None
        &&& self.state is None
        &&& self.tags is None
        &&& self.legal_title is None
        &&& self.legal_address is None
        &&& self.legal_address_full is None
        &&& self.inn is None
        &&& self.kpp is None
        &&& self.ogrn is None
        &&& self.okpo is None
        &&& self.ogrnip is None
        &&& self.legal_last_name is None
        &&& self.legal_first_name is None
        &&& self.legal_middle_name is None
        &&& self.sex is None
        &&& self.certificate_number is None
        &&& self.certificate_date is None
    }

    /// Whether two values hold the same in every field; lists are compared by the
    /// items they hold.
    pub open spec fn same(&self, other: &Self) -> bool {
        &&& self.actual_address == other.actual_address
        &&& self.actual_address_full == other.actual_address_full
        &&& self.archived == other.archived
        &&& same_lists(self.attributes, other.attributes)
        &&& self.bonus_program == other.bonus_program
        &&& self.code == other.code
        &&& self.company_type == other.company_type
        &&& self.description == other.description
        &&& self.discount_card_number == other.discount_card_number
        &&& self.email == other.email
        &&& self.external_code == other.external_code
        &&& self.fax == other.fax
        &&& self.meta == other.meta
        &&& self.name == other.name
        &&& self.phone == other.phone
        &&& self.price_type == other.price_type
        &&& self.shared == other.shared
        &&& self.state == other.state
        &&& same_lists(self.tags, other.tags)
        &&& self.legal_title == other.legal_title
        &&& self.legal_address == other.legal_address
        &&& self.legal_address_full == other.legal_address_full
        &&& self.inn == other.inn
        &&& self.kpp == other.kpp
        &&& self.ogrn == other.ogrn
        &&& self.okpo == other.okpo
        &&& self.ogrnip == other.ogrnip
        &&& self.legal_last_name == other.legal_last_name
        &&& self.legal_first_name == other.legal_first_name
        &&& self.legal_middle_name == other.legal_middle_name
        &&& self.sex == other.sex
        &&& self.certificate_number == other.certificate_number
        &&& self.certificate_date == other.certificate_date
    }
}

impl Clone for UpdateCounterparty {
    fn clone(&self) -> (r: Self)
        ensures
            r.same(self),
            r.json() == self.json(),
    {
        let actual_address = self.actual_address.clone();
        assert(actual_address == self.actual_address);
        let actual_address_full = self.actual_address_full.clone();
        assert(actual_address_full == self.actual_address_full);
        let attributes = self.attributes.clone();
        let bonus_program = self.bonus_program.clone();
        assert(bonus_program == self.bonus_program);
        let code = self.code.clone();
        assert(code == self.code);
        let description = self.description.clone();
        assert(description == self.description);
        let discount_card_number = self.discount_card_number.clone();
        assert(discount_card_number == self.discount_card_number);
        let email = self.email.clone();
        assert(email == self.email);
        let external_code = self.external_code.clone();
        assert(external_code == self.external_code);
        let fax = self.fax.clone();
        assert(fax == self.fax);
        let meta = self.meta.clone();
        assert(meta == self.meta);
        let name = self.name.clone();
        assert(name == self.name);
        let phone = self.phone.clone();
        assert(phone == self.phone);
        let price_type = self.price_type.clone();
        assert(price_type == self.price_type);
        let state = self.state.clone();
        assert(state == self.state);
        let tags = self.tags.clone();
        let legal_title = self.legal_title.clone();
        assert(legal_title == self.legal_title);
        let legal_address = self.legal_address.clone();
        assert(legal_address == self.legal_address);
        let legal_address_full = self.legal_address_full.clone();
        assert(legal_address_full == self.legal_address_full);
        let inn = self.inn.clone();
        assert(inn == self.inn);
        let kpp = self.kpp.clone();
        assert(kpp == self.kpp);
        let ogrn = self.ogrn.clone();
        assert(ogrn == self.ogrn);
        let okpo = self.okpo.clone();
        assert(okpo == self.okpo);
        let ogrnip = self.ogrnip.clone();
        assert(ogrnip == self.ogrnip);
        let legal_last_name = self.legal_last_name.clone();
        assert(legal_last_name == self.legal_last_name);
        let legal_first_name = self.legal_first_name.clone();
        assert(legal_first_name == self.legal_first_name);
        let legal_middle_name = self.legal_middle_name.clone();
        assert(legal_middle_name == self.legal_middle_name);
        let certificate_number = self.certificate_number.clone();
        assert(certificate_number == self.certificate_number);
        let certificate_date = self.certificate_date.clone();
        assert(certificate_date == self.certificate_date);
        assert({
            &&& same_lists(attributes, self.attributes)
            &&& opt_field("attributes"@, attributes) == opt_field(
                "attributes"@,
                self.attributes,
            )
        }) by {
            match (attributes, self.attributes) {
                (Some(a), Some(b)) => {
                    assert(a@ =~= b@);
                    assert(a.json()->Array_0 =~= b.json()->Array_0);
                },
                _ => {},
            }
        }
        assert({
            &&& same_lists(tags, self.tags)
            &&& opt_field("tags"@, tags) == opt_field(
                "tags"@,
                self.tags,
            )
        }) by {
            match (tags, self.tags) {
                (Some(a), Some(b)) => {
                    assert(a@ =~= b@);
                    assert(a.json()->Array_0 =~= b.json()->Array_0);
                },
                _ => {},
            }
        }
        UpdateCounterparty {
            actual_address,
            actual_address_full,
            archived: self.archived,
            attributes,
            bonus_program,
            code,
            company_type: self.company_type,
            description,
            discount_card_number,
            email,
            external_code,
            fax,
            meta,
            name,
            phone,
            price_type,
            shared: self.shared,
            state,
            tags,
            legal_title,
            legal_address,
            legal_address_full,
            inn,
            kpp,
            ogrn,
            okpo,
            ogrnip,
            legal_last_name,
            legal_first_name,
            legal_middle_name,
            sex: self.sex,
            certificate_number,
            certificate_date,
        }
    }
}

impl ToJson for UpdateCounterparty {
    open spec fn json(&self) -> JsonValue {
        JsonValue::Object(
            Seq::empty()
                + opt_field("actualAddress"@, self.actual_address)
                + opt_field("actualAddressFull"@, self.actual_address_full)
                + opt_field("archived"@, self.archived)
                + opt_field("attributes"@, self.attributes)
                + opt_field("bonusProgram"@, self.bonus_program)
                + opt_field("code"@, self.code)
                + opt_field("companyType"@, self.company_type)
                + opt_field("description"@, self.description)
                + opt_field("discountCardNumber"@, self.discount_card_number)
                + opt_field("email"@, self.email)
                + opt_field("externalCode"@, self.external_code)
                + opt_field("fax"@, self.fax)
                + opt_field("meta"@, self.meta)
                + opt_field("name"@, self.name)
                + opt_field("phone"@, self.phone)
                + opt_field("priceType"@, self.price_type)
                + opt_field("shared"@, self.shared)
                + opt_field("state"@, self.state)
                + opt_field("tags"@, self.tags)
                + opt_field("legalTitle"@, self.legal_title)
                + opt_field("legalAddress"@, self.legal_address)
                + opt_field("legalAddressFull"@, self.legal_address_full)
                + opt_field("inn"@, self.inn)
                + opt_field("kpp"@, self.kpp)
                + opt_field("ogrn"@, self.ogrn)
                + opt_field("okpo"@, self.okpo)
                + opt_field("ogrnip"@, self.ogrnip)
                + opt_field("legalLastName"@, self.legal_last_name)
                + opt_field("legalFirstName"@, self.legal_first_name)
                + opt_field("legalMiddleName"@, self.legal_middle_name)
                + opt_field("sex"@, self.sex)
                + opt_field("certificateNumber"@, self.certificate_number)
                + opt_field("certificateDate"@, self.certificate_date),
        )
    }

    fn to_json(&self) -> (j: Json) {
        let mut members: Vec<(String, Json)> = Vec::new();
        assert(entries(members@) =~= Seq::empty());
        put_opt(&mut members, "actualAddress", &self.actual_address);
        put_opt(&mut members, "actualAddressFull", &self.actual_address_full);
        put_opt(&mut members, "archived", &self.archived);
        put_opt(&mut members, "attributes", &self.attributes);
        put_opt(&mut members, "bonusProgram", &self.bonus_program);
        put_opt(&mut members, "code", &self.code);
        put_opt(&mut members, "companyType", &self.company_type);
        put_opt(&mut members, "description", &self.description);
        put_opt(&mut members, "discountCardNumber", &self.discount_card_number);
        put_opt(&mut members, "email", &self.email);
        put_opt(&mut members, "externalCode", &self.external_code);
        put_opt(&mut members, "fax", &self.fax);
        put_opt(&mut members, "meta", &self.meta);
        put_opt(&mut members, "name", &self.name);
        put_opt(&mut members, "phone", &self.phone);
        put_opt(&mut members, "priceType", &self.price_type);
        put_opt(&mut members, "shared", &self.shared);
        put_opt(&mut members, "state", &self.state);
        put_opt(&mut members, "tags", &self.tags);
        put_opt(&mut members, "legalTitle", &self.legal_title);
        put_opt(&mut members, "legalAddress", &self.legal_address);
        put_opt(&mut members, "legalAddressFull", &self.legal_address_full);
        put_opt(&mut members, "inn", &self.inn);
        put_opt(&mut members, "kpp", &self.kpp);
        put_opt(&mut members, "ogrn", &self.ogrn);
        put_opt(&mut members, "okpo", &self.okpo);
        put_opt(&mut members, "ogrnip", &self.ogrnip);
        put_opt(&mut members, "legalLastName", &self.legal_last_name);
        put_opt(&mut members, "legalFirstName", &self.legal_first_name);
        put_opt(&mut members, "legalMiddleName", &self.legal_middle_name);
        put_opt(&mut members, "sex", &self.sex);
        put_opt(&mut members, "certificateNumber", &self.certificate_number);
        put_opt(&mut members, "certificateDate", &self.certificate_date);
        object(members)
    }
}

impl UpdateCounterparty {
    /// A payload on which no optional field is set is written as the empty
    /// object: a field that is not set leaves no member behind, not even a
    /// `null`.
    pub proof fn lemma_unset_fields_are_left_out(self)
        requires
            self.is_unset(),
        ensures
            self.json() == JsonValue::Object(Seq::empty()),
    {
        assert(self.json()->Object_0 =~= Seq::empty());
    }
}

/// Collects the fields of an `UpdateCounterparty`.
#[derive(Default)]
pub struct UpdateCounterpartyBuilder {
    pub payload: UpdateCounterparty,
}

impl UpdateCounterpartyBuilder {
    /// A builder that holds no field.
    pub fn new() -> (builder: Self)
        ensures
            builder.payload.is_unset(),
    {
        UpdateCounterpartyBuilder {
            payload: UpdateCounterparty {
                actual_address: None,
                actual_address_full: None,
                archived: None,
                attributes: None,
                bonus_program: None,
                code: None,
                company_type: None,
                description: None,
                discount_card_number: None,
                email: None,
                external_code: None,
                fax: None,
                meta: None,
                name: None,
                phone: None,
                price_type: None,
                shared: None,
                state: None,
                tags: None,
                legal_title: None,
                legal_address: None,
                legal_address_full: None,
                inn: None,
                kpp: None,
                ogrn: None,
                okpo: None,
                ogrnip: None,
                legal_last_name: None,
                legal_first_name: None,
                legal_middle_name: None,
                sex: None,
                certificate_number: None,
                certificate_date: None,
            },
        }
    }

    /// The actual address, in one line
    pub fn actual_address(&mut self, actual_address: &str) -> (ret: &mut Self)
        ensures
            ret.payload.actual_address matches Some(text) && text@ == actual_address@,
            ret.payload == (UpdateCounterparty {
                actual_address: ret.payload.actual_address,
                ..old(self).payload
            }),
            *final(self) == *final(ret),
    {
        self.payload.actual_address = Some(actual_address.to_owned());
        self
    }

    /// Further remarks of the actual address. The other parts of the address
    /// stay as they are.
    pub fn actual_address_full_add_info(&mut self, add_info: &str) -> (ret: &mut Self)
        ensures
            ({
                &&& ret.payload.actual_address_full matches Some(address)
                &&& address.add_info matches Some(text)
                &&& text@ == add_info@
                &&& address == (Address {
                    add_info: address.add_info,
                    ..Address::or_unset(old(self).payload.actual_address_full)
                })
            }),
            ret.payload == (UpdateCounterparty {
                actual_address_full: ret.payload.actual_address_full,
                ..old(self).payload
            }),
            *final(self) == *final(ret),
    {
        match &mut self.payload.actual_address_full {
            Some(address) => {
                address.add_info = Some(add_info.to_owned());
            },
            None => {
                let mut address = Address::new();
                address.add_info = Some(add_info.to_owned());
                self.payload.actual_address_full = Some(address);
            },
        }
        self
    }

    /// The postal code of the actual address. The other parts of the address
    /// stay as they are.
    pub fn actual_address_full_postal_code(&mut self, postal_code: &str) -> (ret: &mut Self)
        ensures
            ({
                &&& ret.payload.actual_address_full matches Some(address)
                &&& address.postal_code matches Some(text)
                &&& text@ == postal_code@
                &&& address == (Address {
                    postal_code: address.postal_code,
                    ..Address::or_unset(old(self).payload.actual_address_full)
                })
            }),
            ret.payload == (UpdateCounterparty {
                actual_address_full: ret.payload.actual_address_full,
                ..old(self).payload
            }),
            *final(self) == *final(ret),
    {
        match &mut self.payload.actual_address_full {
            Some(address) => {
                address.postal_code = Some(postal_code.to_owned());
            },
            None => {
                let mut address = Address::new();
                address.postal_code = Some(postal_code.to_owned());
                self.payload.actual_address_full = Some(address);
            },
        }
        self
    }

    /// The country of the actual address. The other parts of the address stay
    /// as they are.
    pub fn actual_address_full_country(&mut self, country_meta: Meta) -> (ret: &mut Self)
        ensures
            ret.payload.actual_address_full == Some(
                Address {
                    country: Some(MetaWrapper { meta: country_meta }),
                    ..Address::or_unset(old(self).payload.actual_address_full)
                },
            ),
            ret.payload == (UpdateCounterparty {
                actual_address_full: ret.payload.actual_address_full,
                ..old(self).payload
            }),
            *final(self) == *final(ret),
    {
        match &mut self.payload.actual_address_full {
            Some(address) => {
                address.country = Some(MetaWrapper { meta: country_meta });
            },
            None => {
                let mut address = Address::new();
                address.country = Some(MetaWrapper { meta: country_meta });
                self.payload.actual_address_full = Some(address);
            },
        }
        self
    }

    /// The region of the actual address. The other parts of the address stay as
    /// they are.
    pub fn actual_address_full_region(&mut self, region_meta: Meta) -> (ret: &mut Self)
        ensures
            ret.payload.actual_address_full == Some(
                Address {
                    region: Some(MetaWrapper { meta: region_meta }),
                    ..Address::or_unset(old(self).payload.actual_address_full)
                },
            ),
            ret.payload == (UpdateCounterparty {
                actual_address_full: ret.payload.actual_address_full,
                ..old(self).payload
            }),
            *final(self) == *final(ret),
    {
        match &mut self.payload.actual_address_full {
            Some(address) => {
                address.region = Some(MetaWrapper { meta: region_meta });
            },
            None => {
                let mut address = Address::new();
                address.region = Some(MetaWrapper { meta: region_meta });
                self.payload.actual_address_full = Some(address);
            },
        }
        self
    }

    /// The city of the actual address. The other parts of the address stay as
    /// they are.
    pub fn actual_address_full_city(&mut self, city: &str) -> (ret: &mut Self)
        ensures
            ({
                &&& ret.payload.actual_address_full matches Some(address)
                &&& address.city matches Some(text)
                &&& text@ == city@
                &&& address == (Address {
                    city: address.city,
                    ..Address::or_unset(old(self).payload.actual_address_full)
                })
            }),
            ret.payload == (UpdateCounterparty {
                actual_address_full: ret.payload.actual_address_full,
                ..old(self).payload
            }),
            *final(self) == *final(ret),
    {
        match &mut self.payload.actual_address_full {
            Some(address) => {
                address.city = Some(city.to_owned());
            },
            None => {
                let mut address = Address::new();
                address.city = Some(city.to_owned());
                self.payload.actual_address_full = Some(address);
            },
        }
        self
    }

    /// The street of the actual address. The other parts of the address stay as
    /// they are.
    pub fn actual_address_full_street(&mut self, street: &str) -> (ret: &mut Self)
        ensures
            ({
                &&& ret.payload.actual_address_full matches Some(address)
                &&& address.street matches Some(text)
                &&& text@ == street@
                &&& address == (Address {
                    street: address.street,
                    ..Address::or_unset(old(self).payload.actual_address_full)
                })
            }),
            ret.payload == (UpdateCounterparty {
                actual_address_full: ret.payload.actual_address_full,
                ..old(self).payload
            }),
            *final(self) == *final(ret),
    {
        match &mut self.payload.actual_address_full {
            Some(address) => {
                address.street = Some(street.to_owned());
            },
            None => {
                let mut address = Address::new();
                address.street = Some(street.to_owned());
                self.payload.actual_address_full = Some(address);
            },
        }
        self
    }

    /// The house of the actual address. The other parts of the address stay as
    /// they are.
    pub fn actual_address_full_house(&mut self, house: &str) -> (ret: &mut Self)
        ensures
            ({
                &&& ret.payload.actual_address_full matches Some(address)
                &&& address.house matches Some(text)
                &&& text@ == house@
                &&& address == (Address {
                    house: address.house,
                    ..Address::or_unset(old(self).payload.actual_address_full)
                })
            }),
            ret.payload == (UpdateCounterparty {
                actual_address_full: ret.payload.actual_address_full,
                ..old(self).payload
            }),
            *final(self) == *final(ret),
    {
        match &mut self.payload.actual_address_full {
            Some(address) => {
                address.house = Some(house.to_owned());
            },
            None => {
                let mut address = Address::new();
                address.house = Some(house.to_owned());
                self.payload.actual_address_full = Some(address);
            },
        }
        self
    }

    /// The apartment of the actual address. The other parts of the address stay
    /// as they are.
    pub fn actual_address_full_apartment(&mut self, apartment: &str) -> (ret: &mut Self)
        ensures
            ({
                &&& ret.payload.actual_address_full matches Some(address)
                &&& address.apartment matches Some(text)
                &&& text@ == apartment@
                &&& address == (Address {
                    apartment: address.apartment,
                    ..Address::or_unset(old(self).payload.actual_address_full)
                })
            }),
            ret.payload == (UpdateCounterparty {
                actual_address_full: ret.payload.actual_address_full,
                ..old(self).payload
            }),
            *final(self) == *final(ret),
    {
        match &mut self.payload.actual_address_full {
            Some(address) => {
                address.apartment = Some(apartment.to_owned());
            },
            None => {
                let mut address = Address::new();
                address.apartment = Some(apartment.to_owned());
                self.payload.actual_address_full = Some(address);
            },
        }
        self
    }

    /// The comment of the actual address. The other parts of the address stay
    /// as they are.
    pub fn actual_address_full_comment(&mut self, comment: &str) -> (ret: &mut Self)
        ensures
            ({
                &&& ret.payload.actual_address_full matches Some(address)
                &&& address.comment matches Some(text)
                &&& text@ == comment@
                &&& address == (Address {
                    comment: address.comment,
                    ..Address::or_unset(old(self).payload.actual_address_full)
                })
            }),
            ret.payload == (UpdateCounterparty {
                actual_address_full: ret.payload.actual_address_full,
                ..old(self).payload
            }),
            *final(self) == *final(ret),
    {
        match &mut self.payload.actual_address_full {
            Some(address) => {
                address.comment = Some(comment.to_owned());
            },
            None => {
                let mut address = Address::new();
                address.comment = Some(comment.to_owned());
                self.payload.actual_address_full = Some(address);
            },
        }
        self
    }

    /// Whether the counterparty is archived
    pub fn archived(&mut self, archived: bool) -> (ret: &mut Self)
        ensures
            ret.payload == (UpdateCounterparty {
                archived: Some(archived),
                ..old(self).payload
            }),
            *final(self) == *final(ret),
    {
        self.payload.archived = Some(archived);
        self
    }

    /// Adds the value of a custom field, unless a value that is written as the
    /// same document is there already
    pub fn attribute(&mut self, attribute: Attribute) -> (ret: &mut Self)
        ensures
            ({
                let before = held(old(self).payload.attributes);
                if holds(before, attribute) {
                    ret.payload == old(self).payload
                } else {
                    &&& ret.payload.attributes matches Some(list)
                    &&& list@ == before.push(attribute)
                    &&& ret.payload == (UpdateCounterparty {
                        attributes: ret.payload.attributes,
                        ..old(self).payload
                    })
                }
            }),
            *final(self) == *final(ret),
    {
        let found = match &self.payload.attributes {
            Some(list) => contains(list, &attribute),
            None => false,
        };
        if !found {
            match &mut self.payload.attributes {
                Some(list) => {
                    list.push(attribute);
                },
                None => {
                    let mut list = Vec::new();
                    list.push(attribute);
                    self.payload.attributes = Some(list);
                },
            }
        }
        self
    }

    /// The bonus program
    pub fn bonus_program(&mut self, bonus_programm_meta: Meta) -> (ret: &mut Self)
        ensures
            ret.payload == (UpdateCounterparty {
                bonus_program: Some(MetaWrapper { meta: bonus_programm_meta }),
                ..old(self).payload
            }),
            *final(self) == *final(ret),
    {
        self.payload.bonus_program = Some(MetaWrapper { meta: bonus_programm_meta });
        self
    }

    /// The kind of counterparty
    pub fn company_type(&mut self, company_type: CompanyType) -> (ret: &mut Self)
        ensures
            ret.payload == (UpdateCounterparty {
                company_type: Some(company_type),
                ..old(self).payload
            }),
            *final(self) == *final(ret),
    {
        self.payload.company_type = Some(company_type);
        self
    }

    /// The comment
    pub fn description(&mut self, description: &str) -> (ret: &mut Self)
        ensures
            ret.payload.description matches Some(text) && text@ == description@,
            ret.payload == (UpdateCounterparty {
                description: ret.payload.description,
                ..old(self).payload
            }),
            *final(self) == *final(ret),
    {
        self.payload.description = Some(description.to_owned());
        self
    }

    /// The code
    pub fn code(&mut self, code: &str) -> (ret: &mut Self)
        ensures
            ret.payload.code matches Some(text) && text@ == code@,
            ret.payload == (UpdateCounterparty {
                code: ret.payload.code,
                ..old(self).payload
            }),
            *final(self) == *final(ret),
    {
        self.payload.code = Some(code.to_owned());
        self
    }

    /// The metadata of the counterparty, by which a batch tells an update
    pub fn meta(&mut self, meta: Meta) -> (ret: &mut Self)
        ensures
            ret.payload == (UpdateCounterparty {
                meta: Some(meta),
                ..old(self).payload
            }),
            *final(self) == *final(ret),
    {
        self.payload.meta = Some(meta);
        self
    }

    /// The name
    pub fn name(&mut self, name: &str) -> (ret: &mut Self)
        ensures
            ret.payload.name matches Some(text) && text@ == name@,
            ret.payload == (UpdateCounterparty {
                name: ret.payload.name,
                ..old(self).payload
            }),
            *final(self) == *final(ret),
    {
        self.payload.name = Some(name.to_owned());
        self
    }

    /// The number of the discount card
    pub fn discount_card_number(&mut self, discount_card_number: &str) -> (ret: &mut Self)
        ensures
            ret.payload.discount_card_number matches Some(text) && text@ == discount_card_number@,
            ret.payload == (UpdateCounterparty {
                discount_card_number: ret.payload.discount_card_number,
                ..old(self).payload
            }),
            *final(self) == *final(ret),
    {
        self.payload.discount_card_number = Some(discount_card_number.to_owned());
        self
    }

    /// The e-mail address
    pub fn email(&mut self, email: &str) -> (ret: &mut Self)
        ensures
            ret.payload.email matches Some(text) && text@ == email@,
            ret.payload == (UpdateCounterparty {
                email: ret.payload.email,
                ..old(self).payload
            }),
            *final(self) == *final(ret),
    {
        self.payload.email = Some(email.to_owned());
        self
    }

    /// The external code
    pub fn external_code(&mut self, external_code: &str) -> (ret: &mut Self)
        ensures
            ret.payload.external_code matches Some(text) && text@ == external_code@,
            ret.payload == (UpdateCounterparty {
                external_code: ret.payload.external_code,
                ..old(self).payload
            }),
            *final(self) == *final(ret),
    {
        self.payload.external_code = Some(external_code.to_owned());
        self
    }

    /// The fax number
    pub fn fax(&mut self, fax: &str) -> (ret: &mut Self)
        ensures
            ret.payload.fax matches Some(text) && text@ == fax@,
            ret.payload == (UpdateCounterparty {
                fax: ret.payload.fax,
                ..old(self).payload
            }),
            *final(self) == *final(ret),
    {
        self.payload.fax = Some(fax.to_owned());
        self
    }

    /// The telephone number
    pub fn phone(&mut self, phone: &str) -> (ret: &mut Self)
        ensures
            ret.payload.phone matches Some(text) && text@ == phone@,
            ret.payload == (UpdateCounterparty {
                phone: ret.payload.phone,
                ..old(self).payload
            }),
            *final(self) == *final(ret),
    {
        self.payload.phone = Some(phone.to_owned());
        self
    }

    /// The type of price
    pub fn price_type(&mut self, price_type_meta: Meta) -> (ret: &mut Self)
        ensures
            ret.payload == (UpdateCounterparty {
                price_type: Some(MetaWrapper { meta: price_type_meta }),
                ..old(self).payload
            }),
            *final(self) == *final(ret),
    {
        self.payload.price_type = Some(MetaWrapper { meta: price_type_meta });
        self
    }

    /// Whether access is shared
    pub fn shared(&mut self, shared: bool) -> (ret: &mut Self)
        ensures
            ret.payload == (UpdateCounterparty {
                shared: Some(shared),
                ..old(self).payload
            }),
            *final(self) == *final(ret),
    {
        self.payload.shared = Some(shared);
        self
    }

    /// The status
    pub fn state(&mut self, state_meta: Meta) -> (ret: &mut Self)
        ensures
            ret.payload == (UpdateCounterparty {
                state: Some(MetaWrapper { meta: state_meta }),
                ..old(self).payload
            }),
            *final(self) == *final(ret),
    {
        self.payload.state = Some(MetaWrapper { meta: state_meta });
        self
    }

    /// Adds a tag, unless the tag is there already
    pub fn tag(&mut self, tag: &str) -> (ret: &mut Self)
        ensures
            ({
                let before = held(old(self).payload.tags);
                if holds_text(before, tag@) {
                    ret.payload == old(self).payload
                } else {
                    &&& ret.payload.tags matches Some(list)
                    &&& list@.len() == before.len() + 1
                    &&& list@.drop_last() == before
                    &&& list@.last()@ == tag@
                    &&& ret.payload == (UpdateCounterparty {
                        tags: ret.payload.tags,
                        ..old(self).payload
                    })
                }
            }),
            *final(self) == *final(ret),
    {
        let item = tag.to_owned();
        let found = match &self.payload.tags {
            Some(list) => contains_text(list, &item),
            None => false,
        };
        if !found {
            match &mut self.payload.tags {
                Some(list) => {
                    list.push(item);
                },
                None => {
                    let mut list = Vec::new();
                    list.push(item);
                    self.payload.tags = Some(list);
                },
            }
        }
        self
    }

    /// The full name
    pub fn legal_title(&mut self, legal_title: &str) -> (ret: &mut Self)
        ensures
            ret.payload.legal_title matches Some(text) && text@ == legal_title@,
            ret.payload == (UpdateCounterparty {
                legal_title: ret.payload.legal_title,
                ..old(self).payload
            }),
            *final(self) == *final(ret),
    {
        self.payload.legal_title = Some(legal_title.to_owned());
        self
    }

    /// The legal address, in one line
    pub fn legal_address(&mut self, legal_address: &str) -> (ret: &mut Self)
        ensures
            ret.payload.legal_address matches Some(text) && text@ == legal_address@,
            ret.payload == (UpdateCounterparty {
                legal_address: ret.payload.legal_address,
                ..old(self).payload
            }),
            *final(self) == *final(ret),
    {
        self.payload.legal_address = Some(legal_address.to_owned());
        self
    }

    /// Further remarks of the legal address. The other parts of the address
    /// stay as they are.
    pub fn legal_address_full_add_info(&mut self, add_info: &str) -> (ret: &mut Self)
        ensures
            ({
                &&& ret.payload.legal_address_full matches Some(address)
                &&& address.add_info matches Some(text)
                &&& text@ == add_info@
                &&& address == (Address {
                    add_info: address.add_info,
                    ..Address::or_unset(old(self).payload.legal_address_full)
                })
            }),
            ret.payload == (UpdateCounterparty {
                legal_address_full: ret.payload.legal_address_full,
                ..old(self).payload
            }),
            *final(self) == *final(ret),
    {
        match &mut self.payload.legal_address_full {
            Some(address) => {
                address.add_info = Some(add_info.to_owned());
            },
            None => {
                let mut address = Address::new();
                address.add_info = Some(add_info.to_owned());
                self.payload.legal_address_full = Some(address);
            },
        }
        self
    }

    /// The postal code of the legal address. The other parts of the address
    /// stay as they are.
    pub fn legal_address_full_postal_code(&mut self, postal_code: &str) -> (ret: &mut Self)
        ensures
            ({
                &&& ret.payload.legal_address_full matches Some(address)
                &&& address.postal_code matches Some(text)
                &&& text@ == postal_code@
                &&& address == (Address {
                    postal_code: address.postal_code,
                    ..Address::or_unset(old(self).payload.legal_address_full)
                })
            }),
            ret.payload == (UpdateCounterparty {
                legal_address_full: ret.payload.legal_address_full,
                ..old(self).payload
            }),
            *final(self) == *final(ret),
    {
        match &mut self.payload.legal_address_full {
            Some(address) => {
                address.postal_code = Some(postal_code.to_owned());
            },
            None => {
                let mut address = Address::new();
                address.postal_code = Some(postal_code.to_owned());
                self.payload.legal_address_full = Some(address);
            },
        }
        self
    }

    /// The country of the legal address. The other parts of the address stay as
    /// they are.
    pub fn legal_address_full_country(&mut self, country_meta: Meta) -> (ret: &mut Self)
        ensures
            ret.payload.legal_address_full == Some(
                Address {
                    country: Some(MetaWrapper { meta: country_meta }),
                    ..Address::or_unset(old(self).payload.legal_address_full)
                },
            ),
            ret.payload == (UpdateCounterparty {
                legal_address_full: ret.payload.legal_address_full,
                ..old(self).payload
            }),
            *final(self) == *final(ret),
    {
        match &mut self.payload.legal_address_full {
            Some(address) => {
                address.country = Some(MetaWrapper { meta: country_meta });
            },
            None => {
                let mut address = Address::new();
                address.country = Some(MetaWrapper { meta: country_meta });
                self.payload.legal_address_full = Some(address);
            },
        }
        self
    }

    /// The region of the legal address. The other parts of the address stay as
    /// they are.
    pub fn legal_address_full_region(&mut self, region_meta: Meta) -> (ret: &mut Self)
        ensures
            ret.payload.legal_address_full == Some(
                Address {
                    region: Some(MetaWrapper { meta: region_meta }),
                    ..Address::or_unset(old(self).payload.legal_address_full)
                },
            ),
            ret.payload == (UpdateCounterparty {
                legal_address_full: ret.payload.legal_address_full,
                ..old(self).payload
            }),
            *final(self) == *final(ret),
    {
        match &mut self.payload.legal_address_full {
            Some(address) => {
                address.region = Some(MetaWrapper { meta: region_meta });
            },
            None => {
                let mut address = Address::new();
                address.region = Some(MetaWrapper { meta: region_meta });
                self.payload.legal_address_full = Some(address);
            },
        }
        self
    }

    /// The city of the legal address. The other parts of the address stay as
    /// they are.
    pub fn legal_address_full_city(&mut self, city: &str) -> (ret: &mut Self)
        ensures
            ({
                &&& ret.payload.legal_address_full matches Some(address)
                &&& address.city matches Some(text)
                &&& text@ == city@
                &&& address == (Address {
                    city: address.city,
                    ..Address::or_unset(old(self).payload.legal_address_full)
                })
            }),
            ret.payload == (UpdateCounterparty {
                legal_address_full: ret.payload.legal_address_full,
                ..old(self).payload
            }),
            *final(self) == *final(ret),
    {
        match &mut self.payload.legal_address_full {
            Some(address) => {
                address.city = Some(city.to_owned());
            },
            None => {
                let mut address = Address::new();
                address.city = Some(city.to_owned());
                self.payload.legal_address_full = Some(address);
            },
        }
        self
    }

    /// The street of the legal address. The other parts of the address stay as
    /// they are.
    pub fn legal_address_full_street(&mut self, street: &str) -> (ret: &mut Self)
        ensures
            ({
                &&& ret.payload.legal_address_full matches Some(address)
                &&& address.street matches Some(text)
                &&& text@ == street@
                &&& address == (Address {
                    street: address.street,
                    ..Address::or_unset(old(self).payload.legal_address_full)
                })
            }),
            ret.payload == (UpdateCounterparty {
                legal_address_full: ret.payload.legal_address_full,
                ..old(self).payload
            }),
            *final(self) == *final(ret),
    {
        match &mut self.payload.legal_address_full {
            Some(address) => {
                address.street = Some(street.to_owned());
            },
            None => {
                let mut address = Address::new();
                address.street = Some(street.to_owned());
                self.payload.legal_address_full = Some(address);
            },
        }
        self
    }

    /// The house of the legal address. The other parts of the address stay as
    /// they are.
    pub fn legal_address_full_house(&mut self, house: &str) -> (ret: &mut Self)
        ensures
            ({
                &&& ret.payload.legal_address_full matches Some(address)
                &&& address.house matches Some(text)
                &&& text@ == house@
                &&& address == (Address {
                    house: address.house,
                    ..Address::or_unset(old(self).payload.legal_address_full)
                })
            }),
            ret.payload == (UpdateCounterparty {
                legal_address_full: ret.payload.legal_address_full,
                ..old(self).payload
            }),
            *final(self) == *final(ret),
    {
        match &mut self.payload.legal_address_full {
            Some(address) => {
                address.house = Some(house.to_owned());
            },
            None => {
                let mut address = Address::new();
                address.house = Some(house.to_owned());
                self.payload.legal_address_full = Some(address);
            },
        }
        self
    }

    /// The apartment of the legal address. The other parts of the address stay
    /// as they are.
    pub fn legal_address_full_apartmen(&mut self, apartment: &str) -> (ret: &mut Self)
        ensures
            ({
                &&& ret.payload.legal_address_full matches Some(address)
                &&& address.apartment matches Some(text)
                &&& text@ == apartment@
                &&& address == (Address {
                    apartment: address.apartment,
                    ..Address::or_unset(old(self).payload.legal_address_full)
                })
            }),
            ret.payload == (UpdateCounterparty {
                legal_address_full: ret.payload.legal_address_full,
                ..old(self).payload
            }),
            *final(self) == *final(ret),
    {
        match &mut self.payload.legal_address_full {
            Some(address) => {
                address.apartment = Some(apartment.to_owned());
            },
            None => {
                let mut address = Address::new();
                address.apartment = Some(apartment.to_owned());
                self.payload.legal_address_full = Some(address);
            },
        }
        self
    }

    /// The comment of the legal address. The other parts of the address stay as
    /// they are.
    pub fn legal_address_full_comment(&mut self, comment: &str) -> (ret: &mut Self)
        ensures
            ({
                &&& ret.payload.legal_address_full matches Some(address)
                &&& address.comment matches Some(text)
                &&& text@ == comment@
                &&& address == (Address {
                    comment: address.comment,
                    ..Address::or_unset(old(self).payload.legal_address_full)
                })
            }),
            ret.payload == (UpdateCounterparty {
                legal_address_full: ret.payload.legal_address_full,
                ..old(self).payload
            }),
            *final(self) == *final(ret),
    {
        match &mut self.payload.legal_address_full {
            Some(address) => {
                address.comment = Some(comment.to_owned());
            },
            None => {
                let mut address = Address::new();
                address.comment = Some(comment.to_owned());
                self.payload.legal_address_full = Some(address);
            },
        }
        self
    }

    /// The taxpayer number (INN)
    pub fn inn(&mut self, inn: &str) -> (ret: &mut Self)
        ensures
            ret.payload.inn matches Some(text) && text@ == inn@,
            ret.payload == (UpdateCounterparty {
                inn: ret.payload.inn,
                ..old(self).payload
            }),
            *final(self) == *final(ret),
    {
        self.payload.inn = Some(inn.to_owned());
        self
    }

    /// The KPP
    pub fn kpp(&mut self, kpp: &str) -> (ret: &mut Self)
        ensures
            ret.payload.kpp matches Some(text) && text@ == kpp@,
            ret.payload == (UpdateCounterparty {
                kpp: ret.payload.kpp,
                ..old(self).payload
            }),
            *final(self) == *final(ret),
    {
        self.payload.kpp = Some(kpp.to_owned());
        self
    }

    /// The OGRN
    pub fn ogrn(&mut self, ogrn: &str) -> (ret: &mut Self)
        ensures
            ret.payload.ogrn matches Some(text) && text@ == ogrn@,
            ret.payload == (UpdateCounterparty {
                ogrn: ret.payload.ogrn,
                ..old(self).payload
            }),
            *final(self) == *final(ret),
    {
        self.payload.ogrn = Some(ogrn.to_owned());
        self
    }

    /// The OKPO
    pub fn okpo(&mut self, okpo: &str) -> (ret: &mut Self)
        ensures
            ret.payload.okpo matches Some(text) && text@ == okpo@,
            ret.payload == (UpdateCounterparty {
                okpo: ret.payload.okpo,
                ..old(self).payload
            }),
            *final(self) == *final(ret),
    {
        self.payload.okpo = Some(okpo.to_owned());
        self
    }

    /// The OGRNIP
    pub fn ogrnip(&mut self, ogrnip: &str) -> (ret: &mut Self)
        ensures
            ret.payload.ogrnip matches Some(text) && text@ == ogrnip@,
            ret.payload == (UpdateCounterparty {
                ogrnip: ret.payload.ogrnip,
                ..old(self).payload
            }),
            *final(self) == *final(ret),
    {
        self.payload.ogrnip = Some(ogrnip.to_owned());
        self
    }

    /// The last name
    pub fn legal_last_name(&mut self, legal_last_name: &str) -> (ret: &mut Self)
        ensures
            ret.payload.legal_last_name matches Some(text) && text@ == legal_last_name@,
            ret.payload == (UpdateCounterparty {
                legal_last_name: ret.payload.legal_last_name,
                ..old(self).payload
            }),
            *final(self) == *final(ret),
    {
        self.payload.legal_last_name = Some(legal_last_name.to_owned());
        self
    }

    /// The first name
    pub fn legal_first_name(&mut self, legal_first_name: &str) -> (ret: &mut Self)
        ensures
            ret.payload.legal_first_name matches Some(text) && text@ == legal_first_name@,
            ret.payload == (UpdateCounterparty {
                legal_first_name: ret.payload.legal_first_name,
                ..old(self).payload
            }),
            *final(self) == *final(ret),
    {
        self.payload.legal_first_name = Some(legal_first_name.to_owned());
        self
    }

    /// The middle name
    pub fn legal_middle_name(&mut self, legal_middle_name: &str) -> (ret: &mut Self)
        ensures
            ret.payload.legal_middle_name matches Some(text) && text@ == legal_middle_name@,
            ret.payload == (UpdateCounterparty {
                legal_middle_name: ret.payload.legal_middle_name,
                ..old(self).payload
            }),
            *final(self) == *final(ret),
    {
        self.payload.legal_middle_name = Some(legal_middle_name.to_owned());
        self
    }

    /// The sex
    pub fn sex(&mut self, sex: Sex) -> (ret: &mut Self)
        ensures
            ret.payload == (UpdateCounterparty {
                sex: Some(sex),
                ..old(self).payload
            }),
            *final(self) == *final(ret),
    {
        self.payload.sex = Some(sex);
        self
    }

    /// The number of the certificate
    pub fn certificate_number(&mut self, certificate_number: &str) -> (ret: &mut Self)
        ensures
            ret.payload.certificate_number matches Some(text) && text@ == certificate_number@,
            ret.payload == (UpdateCounterparty {
                certificate_number: ret.payload.certificate_number,
                ..old(self).payload
            }),
            *final(self) == *final(ret),
    {
        self.payload.certificate_number = Some(certificate_number.to_owned());
        self
    }

    /// The date of the certificate
    pub fn certificate_date(&mut self, certificate_date: &str) -> (ret: &mut Self)
        ensures
            ret.payload.certificate_date matches Some(text) && text@ == certificate_date@,
            ret.payload == (UpdateCounterparty {
                certificate_date: ret.payload.certificate_date,
                ..old(self).payload
            }),
            *final(self) == *final(ret),
    {
        self.payload.certificate_date = Some(certificate_date.to_owned());
        self
    }

    /// The payload as the builder holds it. The builder stays as it is and can
    /// build again.
    pub fn build(&self) -> (payload: UpdateCounterparty)
        ensures
            payload.same(&self.payload),
            payload.json() == self.payload.json(),
    {
        self.payload.clone()
    }
}

} // verus!
