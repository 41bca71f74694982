//! The types that several kinds of entity share.

pub mod assortment;
pub mod characteristic;
pub mod counterparty;
pub mod country;
pub mod currency;
pub mod product;
pub mod product_folder;
pub mod region;
pub mod uom;
pub mod variant;

use vstd::prelude::*;
use crate::api_client::MsEntity;
use crate::json::{
    entries, field, holds, object, opt_field, put, put_opt, Double, Json, JsonValue, ToJson,
};
use crate::values::{Moment, Uuid};

verus! {

/// The metadata of a resource: where it is and what it is. Under a list it also
/// tells which slice the list holds, and of how many rows.
#[derive(Default, Debug, PartialEq)]
pub struct Meta {
    pub href: String,
    pub metadata_href: Option<String>,
    pub meta_type: Option<String>,
    pub media_type: String,
    pub uuid_href: Option<String>,
    pub download_href: Option<String>,
    pub size: Option<i32>,
    pub limit: Option<i32>,
    pub offset: Option<i32>,
}

impl Clone for Meta {
    fn clone(&self) -> (r: Self)
        ensures
            r == *self,
    {
        let href = self.href.clone();
        let metadata_href = self.metadata_href.clone();
        let meta_type = self.meta_type.clone();
        let media_type = self.media_type.clone();
        let uuid_href = self.uuid_href.clone();
        let download_href = self.download_href.clone();
        Meta {
            href,
            metadata_href,
            meta_type,
            media_type,
            uuid_href,
            download_href,
            size: self.size,
            limit: self.limit,
            offset: self.offset,
        }
    }
}

impl ToJson for Meta {
    open spec fn json(&self) -> JsonValue {
        JsonValue::Object(
            Seq::empty()
                + field("href"@, self.href)
                + field("metadataHref"@, self.metadata_href)
                + field("type"@, self.meta_type)
                + field("mediaType"@, self.media_type)
                + field("uuidHref"@, self.uuid_href)
                + field("downloadHref"@, self.download_href)
                + field("size"@, self.size)
                + field("limit"@, self.limit)
                + field("offset"@, self.offset),
        )
    }

    fn to_json(&self) -> (j: Json) {
        let mut members: Vec<(String, Json)> = Vec::new();
        assert(entries(members@) =~= Seq::empty());
        put(&mut members, "href", &self.href);
        put(&mut members, "metadataHref", &self.metadata_href);
        put(&mut members, "type", &self.meta_type);
        put(&mut members, "mediaType", &self.media_type);
        put(&mut members, "uuidHref", &self.uuid_href);
        put(&mut members, "downloadHref", &self.download_href);
        put(&mut members, "size", &self.size);
        put(&mut members, "limit", &self.limit);
        put(&mut members, "offset", &self.offset);
        object(members)
    }
}

/// One page of a list: its rows after the metadata that tells the size of the
/// whole list.
#[derive(Default, Debug, Clone, PartialEq)]
pub struct EntityResponse<T> {
    pub context: Option<Context>,
    pub meta: Meta,
    pub rows: Vec<T>,
}

/// On whose behalf a list was asked for.
#[derive(Default, Debug, Clone, PartialEq)]
pub struct Context {
    pub employee: MetaWrapper,
}

/// A reference to another resource by its metadata alone.
#[derive(Default, Debug, PartialEq)]
pub struct MetaWrapper {
    pub meta: Meta,
}

impl Clone for MetaWrapper {
    fn clone(&self) -> (r: Self)
        ensures
            r == *self,
    {
        let meta = self.meta.clone();
        MetaWrapper {
            meta,
        }
    }
}

impl ToJson for MetaWrapper {
    open spec fn json(&self) -> JsonValue {
        JsonValue::Object(
            Seq::empty()
                + field("meta"@, self.meta),
        )
    }

    fn to_json(&self) -> (j: Json) {
        let mut members: Vec<(String, Json)> = Vec::new();
        assert(entries(members@) =~= Seq::empty());
        put(&mut members, "meta", &self.meta);
        object(members)
    }
}

/// The tax system code.
#[derive(Clone, Copy, Debug, PartialEq, Eq, Default)]
pub enum TaxSystem {
    #[default]
    GeneralTaxSystem,
    PatentBased,
    PresumptiveTaxSystem,
    SimplifiedTaxSystemIncome,
    SimplifiedTaxSystemIncomeOutcome,
    TaxSystemSameAsGroup,
    UnifiedAgriculturalTax,
}

impl TaxSystem {
    /// The name of the value on the wire.
    pub open spec fn wire_name(self) -> Seq<char> {
        match self {
            TaxSystem::GeneralTaxSystem => "GENERAL_TAX_SYSTEM"@,
            TaxSystem::PatentBased => "PATENT_BASED"@,
            TaxSystem::PresumptiveTaxSystem => "PRESUMPTIVE_TAX_SYSTEM"@,
            TaxSystem::SimplifiedTaxSystemIncome => "SIMPLIFIED_TAX_SYSTEM_INCOME"@,
            TaxSystem::SimplifiedTaxSystemIncomeOutcome => "SIMPLIFIED_TAX_SYSTEM_INCOME_OUTCOME"@,
            TaxSystem::TaxSystemSameAsGroup => "TAX_SYSTEM_SAME_AS_GROUP"@,
            TaxSystem::UnifiedAgriculturalTax => "UNIFIED_AGRICULTURAL_TAX"@,
        }
    }

    /// The name of the value on the wire.
    pub fn as_str(&self) -> (name: &'static str)
        ensures
            name@ == self.wire_name(),
    {
        match self {
            TaxSystem::GeneralTaxSystem => "GENERAL_TAX_SYSTEM",
            TaxSystem::PatentBased => "PATENT_BASED",
            TaxSystem::PresumptiveTaxSystem => "PRESUMPTIVE_TAX_SYSTEM",
            TaxSystem::SimplifiedTaxSystemIncome => "SIMPLIFIED_TAX_SYSTEM_INCOME",
            TaxSystem::SimplifiedTaxSystemIncomeOutcome => "SIMPLIFIED_TAX_SYSTEM_INCOME_OUTCOME",
            TaxSystem::TaxSystemSameAsGroup => "TAX_SYSTEM_SAME_AS_GROUP",
            TaxSystem::UnifiedAgriculturalTax => "UNIFIED_AGRICULTURAL_TAX",
        }
    }
}

impl ToJson for TaxSystem {
    open spec fn json(&self) -> JsonValue {
        JsonValue::Str(self.wire_name())
    }

    fn to_json(&self) -> (j: Json) {
        Json::Str(self.as_str().to_owned())
    }
}

/// A custom field that products can carry.
#[derive(Default, Debug, Clone, PartialEq)]
pub struct ProductsCustomField {
    pub custom_entity_meta: Option<Meta>,
    pub meta: Meta,
    pub id: Uuid,
    pub name: String,
    pub attribute_type: AttributeType,
    pub required: bool,
    pub description: Option<String>,
}

impl MsEntity for ProductsCustomField {
    open spec fn endpoint() -> Seq<char> {
        "https://api.moysklad.ru/api/remap/1.2/entity/product/metadata/attributes"@
    }

    fn url() -> (url: String) {
        "https://api.moysklad.ru/api/remap/1.2/entity/product/metadata/attributes".to_owned()
    }
}

/// An item of a custom dictionary.
#[derive(Default, Debug, Clone, PartialEq)]
pub struct CustomEntity {
    pub account_id: Uuid,
    pub code: Option<String>,
    pub description: Option<String>,
    pub external_code: String,
    pub id: Uuid,
    pub meta: Meta,
    pub name: String,
    pub updated: Moment,
    pub group: MetaWrapper,
    pub owner: MetaWrapper,
    pub shared: Option<bool>,
}

/// The value that an entity has for a custom field.
#[derive(Default, Debug, PartialEq)]
pub struct Attribute {
    pub meta: Meta,
    pub id: Uuid,
    pub name: String,
    pub attribute_type: AttributeType,
    pub value: AttributeValue,
    pub download: Option<DownloadMeta>,
}

impl Clone for Attribute {
    fn clone(&self) -> (r: Self)
        ensures
            r == *self,
    {
        let meta = self.meta.clone();
        let name = self.name.clone();
        let value = self.value.clone();
        let download = self.download.clone();
        Attribute {
            meta,
            id: self.id,
            name,
            attribute_type: self.attribute_type,
            value,
            download,
        }
    }
}

impl ToJson for Attribute {
    open spec fn json(&self) -> JsonValue {
        JsonValue::Object(
            Seq::empty()
                + field("meta"@, self.meta)
                + field("id"@, self.id)
                + field("name"@, self.name)
                + field("type"@, self.attribute_type)
                + field("value"@, self.value)
                + opt_field("download"@, self.download),
        )
    }

    fn to_json(&self) -> (j: Json) {
        let mut members: Vec<(String, Json)> = Vec::new();
        assert(entries(members@) =~= Seq::empty());
        put(&mut members, "meta", &self.meta);
        put(&mut members, "id", &self.id);
        put(&mut members, "name", &self.name);
        put(&mut members, "type", &self.attribute_type);
        put(&mut members, "value", &self.value);
        put_opt(&mut members, "download", &self.download);
        object(members)
    }
}

impl Attribute {
    /// The attribute that gives `value` to the custom field `field`. It has no
    /// download.
    pub fn from_field(field: &ProductsCustomField, value: AttributeValue) -> (attribute: Self)
        ensures
            attribute == (Attribute {
                meta: field.meta,
                id: field.id,
                name: field.name,
                attribute_type: field.attribute_type,
                value,
                download: None,
            }),
    {
        Attribute {
            meta: field.meta.clone(),
            id: field.id,
            name: field.name.clone(),
            attribute_type: field.attribute_type,
            value,
            download: None,
        }
    }
}

/// Where the file of a file attribute can be had.
#[derive(Default, Debug, PartialEq)]
pub struct DownloadMeta {
    pub href: String,
    pub media_type: String,
}

impl Clone for DownloadMeta {
    fn clone(&self) -> (r: Self)
        ensures
            r == *self,
    {
        let href = self.href.clone();
        let media_type = self.media_type.clone();
        DownloadMeta {
            href,
            media_type,
        }
    }
}

impl ToJson for DownloadMeta {
    open spec fn json(&self) -> JsonValue {
        JsonValue::Object(
            Seq::empty()
                + field("href"@, self.href)
                + field("mediaType"@, self.media_type),
        )
    }

    fn to_json(&self) -> (j: Json) {
        let mut members: Vec<(String, Json)> = Vec::new();
        assert(entries(members@) =~= Seq::empty());
        put(&mut members, "href", &self.href);
        put(&mut members, "mediaType", &self.media_type);
        object(members)
    }
}

/// An item of a custom dictionary as the value of an attribute.
#[derive(Default, Debug, PartialEq)]
pub struct CustomValue {
    pub meta: Meta,
    pub name: String,
}

impl Clone for CustomValue {
    fn clone(&self) -> (r: Self)
        ensures
            r == *self,
    {
        let meta = self.meta.clone();
        let name = self.name.clone();
        CustomValue {
            meta,
            name,
        }
    }
}

impl ToJson for CustomValue {
    open spec fn json(&self) -> JsonValue {
        JsonValue::Object(
            Seq::empty()
                + field("meta"@, self.meta)
                + field("name"@, self.name),
        )
    }

    fn to_json(&self) -> (j: Json) {
        let mut members: Vec<(String, Json)> = Vec::new();
        assert(entries(members@) =~= Seq::empty());
        put(&mut members, "meta", &self.meta);
        put(&mut members, "name", &self.name);
        object(members)
    }
}

impl From<CustomEntity> for CustomValue {
    fn from(value: CustomEntity) -> (custom: Self) {
        CustomValue { meta: value.meta, name: value.name }
    }
}

impl vstd::std_specs::convert::FromSpecImpl<CustomEntity> for CustomValue {
    open spec fn obeys_from_spec() -> bool {
        true
    }

    open spec fn from_spec(value: CustomEntity) -> Self {
        CustomValue { meta: value.meta, name: value.name }
    }
}

/// The value of an attribute. On the wire it stands bare, with nothing that
/// tells its kind: the attribute's declared type does.
#[derive(Default, Debug, PartialEq)]
pub enum AttributeValue {
    Custom(CustomValue),
    String(String),
    Date(Moment),
    Bool(bool),
    Float(Double),
    Int(i32),
    #[default]
    Other,
}

impl Clone for AttributeValue {
    fn clone(&self) -> (r: Self)
        ensures
            r == *self,
    {
        match self {
            AttributeValue::Custom(custom) => AttributeValue::Custom(custom.clone()),
            AttributeValue::String(text) => AttributeValue::String(text.clone()),
            AttributeValue::Date(moment) => AttributeValue::Date(*moment),
            AttributeValue::Bool(flag) => AttributeValue::Bool(*flag),
            AttributeValue::Float(number) => AttributeValue::Float(*number),
            AttributeValue::Int(number) => AttributeValue::Int(*number),
            AttributeValue::Other => AttributeValue::Other,
        }
    }
}

impl ToJson for AttributeValue {
    open spec fn json(&self) -> JsonValue {
        match self {
            AttributeValue::Custom(custom) => custom.json(),
            AttributeValue::String(text) => text.json(),
            AttributeValue::Date(moment) => moment.json(),
            AttributeValue::Bool(flag) => flag.json(),
            AttributeValue::Float(number) => number.json(),
            AttributeValue::Int(number) => number.json(),
            AttributeValue::Other => JsonValue::Null,
        }
    }

    fn to_json(&self) -> (j: Json) {
        match self {
            AttributeValue::Custom(custom) => custom.to_json(),
            AttributeValue::String(text) => text.to_json(),
            AttributeValue::Date(moment) => moment.to_json(),
            AttributeValue::Bool(flag) => flag.to_json(),
            AttributeValue::Float(number) => number.to_json(),
            AttributeValue::Int(number) => number.to_json(),
            AttributeValue::Other => Json::Null,
        }
    }
}

/// Whether two optional lists are both unset, or hold the same items in the
/// same order.
pub open spec fn same_lists<T>(a: Option<Vec<T>>, b: Option<Vec<T>>) -> bool {
    match (a, b) {
        (Some(x), Some(y)) => x@ == y@,
        (None, None) => true,
        _ => false,
    }
}

/// The items that an optional list holds: none where it is unset.
pub open spec fn held<T>(list: Option<Vec<T>>) -> Seq<T> {
    match list {
        Some(items) => items@,
        None => Seq::empty(),
    }
}

/// Whether one of the texts of a list is the given text.
pub open spec fn holds_text(list: Seq<String>, text: Seq<char>) -> bool {
    exists|i: int| 0 <= i < list.len() && (#[trigger] list[i])@ == text
}

/// A text that was put behind a list is held by it: what is added once is
/// found when it is added again.
pub proof fn lemma_added_text_is_held(list: Seq<String>, text: String)
    ensures
        holds_text(list.push(text), text@),
        forall|other: Seq<char>| holds_text(list, other) ==> holds_text(list.push(text), other),
{
    assert(list.push(text)[list.len() as int]@ == text@);
    assert forall|other: Seq<char>| holds_text(list, other) implies holds_text(
        list.push(text),
        other,
    ) by {
        let i = choose|i: int| 0 <= i < list.len() && (#[trigger] list[i])@ == other;
        assert(list.push(text)[i]@ == other);
    }
}

/// Whether one of the texts of a list is the given text.
pub fn contains_text(list: &Vec<String>, text: &String) -> (found: bool)
    ensures
        found == holds_text(list@, text@),
{
    let mut i: usize = 0;
    while i < list.len()
        invariant
            i <= list.len(),
            forall|k: int| 0 <= k < i ==> (#[trigger] list@[k])@ != text@,
        decreases list.len() - i,
    {
        if list[i] == *text {
            return true;
        }
        i += 1;
    }
    false
}

/// The declared type of a custom field.
#[derive(Clone, Copy, Debug, PartialEq, Eq, Default)]
pub enum AttributeType {
    #[default]
    String,
    Customentity,
    Long,
    Time,
    File,
    Double,
    Boolean,
    Text,
    Link,
}

impl AttributeType {
    /// The name of the value on the wire.
    pub open spec fn wire_name(self) -> Seq<char> {
        match self {
            AttributeType::String => "string"@,
            AttributeType::Customentity => "customentity"@,
            AttributeType::Long => "long"@,
            AttributeType::Time => "time"@,
            AttributeType::File => "file"@,
            AttributeType::Double => "double"@,
            AttributeType::Boolean => "boolean"@,
            AttributeType::Text => "text"@,
            AttributeType::Link => "link"@,
        }
    }

    /// The name of the value on the wire.
    pub fn as_str(&self) -> (name: &'static str)
        ensures
            name@ == self.wire_name(),
    {
        match self {
            AttributeType::String => "string",
            AttributeType::Customentity => "customentity",
            AttributeType::Long => "long",
            AttributeType::Time => "time",
            AttributeType::File => "file",
            AttributeType::Double => "double",
            AttributeType::Boolean => "boolean",
            AttributeType::Text => "text",
            AttributeType::Link => "link",
        }
    }
}

impl ToJson for AttributeType {
    open spec fn json(&self) -> JsonValue {
        JsonValue::Str(self.wire_name())
    }

    fn to_json(&self) -> (j: Json) {
        Json::Str(self.as_str().to_owned())
    }
}

/// A type of price.
#[derive(Default, Debug, Clone, PartialEq)]
pub struct PriceType {
    pub meta: Meta,
    pub id: String,
    pub name: String,
    pub external_code: String,
}

} // verus!
