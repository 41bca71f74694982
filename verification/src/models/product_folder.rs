//! Groups of products.

use vstd::prelude::*;
use crate::api_client::MsEntity;
use crate::json::{entries, field, holds, object, opt_field, put, put_opt, Json, JsonValue, ToJson};
use crate::values::{Moment, Uuid};
use super::{Meta, MetaWrapper, TaxSystem};

verus! {

/// A group of products.
#[derive(Default, Debug, Clone, PartialEq)]
pub struct ProductFolder {
    /// The account
    pub account_id: Uuid,
    /// Whether the group is archived
    pub archived: bool,
    /// The code of the group
    pub code: Option<String>,
    /// The description of the group
    pub description: Option<String>,
    /// The effective VAT, in percent
    pub effective_vat: Option<i32>,
    /// Tells an effective VAT of 0 % (true) from no VAT (false)
    pub effective_vat_enabled: Option<bool>,
    /// The external code of the group
    pub external_code: String,
    /// The department of the employee
    pub group: MetaWrapper,
    /// The identifier of the group
    pub id: Uuid,
    /// The metadata of the group
    pub meta: Meta,
    /// The name of the group
    pub name: String,
    /// The owner, an employee
    pub owner: MetaWrapper,
    /// The name of the group that holds this group
    pub path_name: String,
    /// The group that holds this group
    pub product_folder: Option<MetaWrapper>,
    /// Whether access is shared
    pub shared: bool,
    /// The tax system code
    pub tax_system: Option<TaxSystem>,
    /// When the group was last updated
    pub updated: Moment,
    /// Whether the VAT rate of the parent group applies
    pub use_parent_vat: bool,
    /// The VAT, in percent
    pub vat: Option<i32>,
    /// Tells a VAT of 0 % (true) from no VAT (false)
    pub vat_enabled: Option<bool>,
}

impl MsEntity for ProductFolder {
    open spec fn endpoint() -> Seq<char> {
        "https://api.moysklad.ru/api/remap/1.2/entity/productfolder"@
    }

    fn url() -> (url: String) {
        "https://api.moysklad.ru/api/remap/1.2/entity/productfolder".to_owned()
    }
}

impl ProductFolder {
    /// Begins the payload that creates a group of the given name.
    pub fn create(name: &str) -> (builder: CreateProductFolderBuilder)
        ensures
            builder.payload.name@ == name@,
            builder.payload.is_unset(),
    {
        CreateProductFolderBuilder::new(name)
    }

    /// Begins the payload that updates a group. Only the fields that are set
    /// afterwards are sent, and only they change.
    pub fn update() -> (builder: UpdateProductFolderBuilder)
        ensures
            builder.payload.is_unset(),
    {
        UpdateProductFolderBuilder::new()
    }
}

/// The payload that creates a group of products. A field that is not set is
/// left out of the document.
#[derive(Default, Debug, PartialEq)]
pub struct CreateProductFolder {
    pub code: Option<String>,
    pub description: Option<String>,
    pub external_code: Option<String>,
    pub name: String,
    pub product_folder: Option<MetaWrapper>,
    pub shared: Option<bool>,
    pub tax_system: Option<TaxSystem>,
    pub use_parent_vat: Option<bool>,
    pub vat: Option<i32>,
    pub vat_enabled: Option<bool>,
}

impl CreateProductFolder {
    /// Whether no optional field is set.
    pub open spec fn is_unset(&self) -> bool {
        &&& self.code is None
        &&& self.description is None
        &&& self.external_code is None
        &&& self.product_folder is None
        &&& self.shared is None
        &&& self.tax_system is None
        &&& self.use_parent_vat is None
        &&& self.vat is None
        &&& self.vat_enabled is None
    }

    /// Whether two values hold the same in every field; lists are compared by the
    /// items they hold.
    pub open spec fn same(&self, other: &Self) -> bool {
        &&& self.code == other.code
        &&& self.description == other.description
        &&& self.external_code == other.external_code
        &&& self.name == other.name
        &&& self.product_folder == other.product_folder
        &&& self.shared == other.shared
        &&& self.tax_system == other.tax_system
        &&& self.use_parent_vat == other.use_parent_vat
        &&& self.vat == other.vat
        &&& self.vat_enabled == other.vat_enabled
    }
}

impl Clone for CreateProductFolder {
    fn clone(&self) -> (r: Self)
        ensures
            r.same(self),
            r.json() == self.json(),
    {
        let code = self.code.clone();
        assert(code == self.code);
        let description = self.description.clone();
        assert(description == self.description);
        let external_code = self.external_code.clone();
        assert(external_code == self.external_code);
        let name = self.name.clone();
        assert(name == self.name);
        let product_folder = self.product_folder.clone();
        assert(product_folder == self.product_folder);
        CreateProductFolder {
            code,
            description,
            external_code,
            name,
            product_folder,
            shared: self.shared,
            tax_system: self.tax_system,
            use_parent_vat: self.use_parent_vat,
            vat: self.vat,
            vat_enabled: self.vat_enabled,
        }
    }
}

impl ToJson for CreateProductFolder {
    open spec fn json(&self) -> JsonValue {
        JsonValue::Object(
            Seq::empty()
                + opt_field("code"@, self.code)
                + opt_field("description"@, self.description)
                + opt_field("externalCode"@, self.external_code)
                + field("name"@, self.name)
                + opt_field("productFolder"@, self.product_folder)
                + opt_field("shared"@, self.shared)
                + opt_field("taxSystem"@, self.tax_system)
                + opt_field("useParentVat"@, self.use_parent_vat)
                + opt_field("vat"@, self.vat)
                + opt_field("vatEnabled"@, self.vat_enabled),
        )
    }

    fn to_json(&self) -> (j: Json) {
        let mut members: Vec<(String, Json)> = Vec::new();
        assert(entries(members@) =~= Seq::empty());
        put_opt(&mut members, "code", &self.code);
        put_opt(&mut members, "description", &self.description);
        put_opt(&mut members, "externalCode", &self.external_code);
        put(&mut members, "name", &self.name);
        put_opt(&mut members, "productFolder", &self.product_folder);
        put_opt(&mut members, "shared", &self.shared);
        put_opt(&mut members, "taxSystem", &self.tax_system);
        put_opt(&mut members, "useParentVat", &self.use_parent_vat);
        put_opt(&mut members, "vat", &self.vat);
        put_opt(&mut members, "vatEnabled", &self.vat_enabled);
        object(members)
    }
}

impl CreateProductFolder {
    /// A payload on which no optional field is set is written as the object of
    /// the members that are always written, and of no other: a field that is
    /// not set leaves no member behind, not even a `null`.
    pub proof fn lemma_unset_fields_are_left_out(self)
        requires
            self.is_unset(),
        ensures
            self.json() == JsonValue::Object(seq![("name"@, self.name.json())]),
    {
        assert(self.json()->Object_0 =~= seq![("name"@, self.name.json())]);
    }
}

/// Collects the fields of a `CreateProductFolder`.
#[derive(Default)]
pub struct CreateProductFolderBuilder {
    pub payload: CreateProductFolder,
}

impl CreateProductFolderBuilder {
    /// A builder that holds the name of the group and nothing else.
    pub fn new(name: &str) -> (builder: Self)
        ensures
            builder.payload.name@ == name@,
            builder.payload.is_unset(),
    {
        CreateProductFolderBuilder {
            payload: CreateProductFolder {
                code: None,
                description: None,
                external_code: None,
                name: name.to_owned(),
                product_folder: None,
                shared: None,
                tax_system: None,
                use_parent_vat: None,
                vat: None,
                vat_enabled: None,
            },
        }
    }

    /// The code of the group
    pub fn code(&mut self, code: &str) -> (ret: &mut Self)
        ensures
            ret.payload.code matches Some(text) && text@ == code@,
            ret.payload == (CreateProductFolder {
                code: ret.payload.code,
                ..old(self).payload
            }),
            *final(self) == *final(ret),
    {
        self.payload.code = Some(code.to_owned());
        self
    }

    /// The description of the group
    pub fn description(&mut self, description: &str) -> (ret: &mut Self)
        ensures
            ret.payload.description matches Some(text) && text@ == description@,
            ret.payload == (CreateProductFolder {
                description: ret.payload.description,
                ..old(self).payload
            }),
            *final(self) == *final(ret),
    {
        self.payload.description = Some(description.to_owned());
        self
    }

    /// The external code of the group
    pub fn external_code(&mut self, external_code: &str) -> (ret: &mut Self)
        ensures
            ret.payload.external_code matches Some(text) && text@ == external_code@,
            ret.payload == (CreateProductFolder {
                external_code: ret.payload.external_code,
                ..old(self).payload
            }),
            *final(self) == *final(ret),
    {
        self.payload.external_code = Some(external_code.to_owned());
        self
    }

    /// The group that holds this group
    pub fn product_folder(&mut self, meta: Meta) -> (ret: &mut Self)
        ensures
            ret.payload == (CreateProductFolder {
                product_folder: Some(MetaWrapper { meta: meta }),
                ..old(self).payload
            }),
            *final(self) == *final(ret),
    {
        self.payload.product_folder = Some(MetaWrapper { meta: meta });
        self
    }

    /// Whether access is shared
    pub fn shared(&mut self, shared: bool) -> (ret: &mut Self)
        ensures
            ret.payload == (CreateProductFolder {
                shared: Some(shared),
                ..old(self).payload
            }),
            *final(self) == *final(ret),
    {
        self.payload.shared = Some(shared);
        self
    }

    /// The tax system code
    pub fn tax_system(&mut self, tax_system: TaxSystem) -> (ret: &mut Self)
        ensures
            ret.payload == (CreateProductFolder {
                tax_system: Some(tax_system),
                ..old(self).payload
            }),
            *final(self) == *final(ret),
    {
        self.payload.tax_system = Some(tax_system);
        self
    }

    /// Whether the VAT rate of the parent group applies
    pub fn use_parent_vat(&mut self, use_parent_vat: bool) -> (ret: &mut Self)
        ensures
            ret.payload == (CreateProductFolder {
                use_parent_vat: Some(use_parent_vat),
                ..old(self).payload
            }),
            *final(self) == *final(ret),
    {
        self.payload.use_parent_vat = Some(use_parent_vat);
        self
    }

    /// The VAT, in percent
    pub fn vat(&mut self, vat: i32) -> (ret: &mut Self)
        ensures
            ret.payload == (CreateProductFolder {
                vat: Some(vat),
                ..old(self).payload
            }),
            *final(self) == *final(ret),
    {
        self.payload.vat = Some(vat);
        self
    }

    /// Tells a VAT of 0 % (true) from no VAT (false)
    pub fn vat_enabled(&mut self, vat_enabled: bool) -> (ret: &mut Self)
        ensures
            ret.payload == (CreateProductFolder {
                vat_enabled: Some(vat_enabled),
                ..old(self).payload
            }),
            *final(self) == *final(ret),
    {
        self.payload.vat_enabled = Some(vat_enabled);
        self
    }

    /// The payload as the builder holds it. The builder stays as it is and can
    /// build again.
    pub fn build(&self) -> (payload: CreateProductFolder)
        ensures
            payload.same(&self.payload),
            payload.json() == self.payload.json(),
    {
        self.payload.clone()
    }
}

/// The payload that updates a group of products. A field that is not set is
/// left out of the document, and the service leaves it as it is.
#[derive(Default, Debug, PartialEq)]
pub struct UpdateProductFolder {
    pub archived: Option<bool>,
    pub code: Option<String>,
    pub description: Option<String>,
    pub external_code: Option<String>,
    pub id: Option<Uuid>,
    pub meta: Option<Meta>,
    pub name: Option<String>,
    pub product_folder: Option<MetaWrapper>,
    pub shared: Option<bool>,
    pub tax_system: Option<TaxSystem>,
    pub use_parent_vat: Option<bool>,
    pub vat: Option<i32>,
    pub vat_enabled: Option<bool>,
}

impl UpdateProductFolder {
    /// Whether no optional field is set.
    pub open spec fn is_unset(&self) -> bool {
        &&& self.archived is None
        &&& self.code is None
        &&& self.description is None
        &&& self.external_code is None
        &&& self.id is None
        &&& self.meta is None
        &&& self.name is None
        &&& self.product_folder is None
        &&& self.shared is None
        &&& self.tax_system is None
        &&& self.use_parent_vat is None
        &&& self.vat is None
        &&& self.vat_enabled is None
    }

    /// Whether two values hold the same in every field; lists are compared by the
    /// items they hold.
    pub open spec fn same(&self, other: &Self) -> bool {
        &&& self.archived == other.archived
        &&& self.code == other.code
        &&& self.description == other.description
        &&& self.external_code == other.external_code
        &&& self.id == other.id
        &&& self.meta == other.meta
        &&& self.name == other.name
        &&& self.product_folder == other.product_folder
        &&& self.shared == other.shared
        &&& self.tax_system == other.tax_system
        &&& self.use_parent_vat == other.use_parent_vat
        &&& self.vat == other.vat
        &&& self.vat_enabled == other.vat_enabled
    }
}

impl Clone for UpdateProductFolder {
    fn clone(&self) -> (r: Self)
        ensures
            r.same(self),
            r.json() == self.json(),
    {
        let code = self.code.clone();
        assert(code == self.code);
        let description = self.description.clone();
        assert(description == self.description);
        let external_code = self.external_code.clone();
        assert(external_code == self.external_code);
        let meta = self.meta.clone();
        assert(meta == self.meta);
        let name = self.name.clone();
        assert(name == self.name);
        let product_folder = self.product_folder.clone();
        assert(product_folder == self.product_folder);
        UpdateProductFolder {
            archived: self.archived,
            code,
            description,
            external_code,
            id: self.id,
            meta,
            name,
            product_folder,
            shared: self.shared,
            tax_system: self.tax_system,
            use_parent_vat: self.use_parent_vat,
            vat: self.vat,
            vat_enabled: self.vat_enabled,
        }
    }
}

impl ToJson for UpdateProductFolder {
    open spec fn json(&self) -> JsonValue {
        JsonValue::Object(
            Seq::empty()
                + opt_field("archived"@, self.archived)
                + opt_field("code"@, self.code)
                + opt_field("description"@, self.description)
                + opt_field("externalCode"@, self.external_code)
                + opt_field("id"@, self.id)
                + opt_field("meta"@, self.meta)
                + opt_field("name"@, self.name)
                + opt_field("productFolder"@, self.product_folder)
                + opt_field("shared"@, self.shared)
                + opt_field("taxSystem"@, self.tax_system)
                + opt_field("useParentVat"@, self.use_parent_vat)
                + opt_field("vat"@, self.vat)
                + opt_field("vatEnabled"@, self.vat_enabled),
        )
    }

    fn to_json(&self) -> (j: Json) {
        let mut members: Vec<(String, Json)> = Vec::new();
        assert(entries(members@) =~= Seq::empty());
        put_opt(&mut members, "archived", &self.archived);
        put_opt(&mut members, "code", &self.code);
        put_opt(&mut members, "description", &self.description);
        put_opt(&mut members, "externalCode", &self.external_code);
        put_opt(&mut members, "id", &self.id);
        put_opt(&mut members, "meta", &self.meta);
        put_opt(&mut members, "name", &self.name);
        put_opt(&mut members, "productFolder", &self.product_folder);
        put_opt(&mut members, "shared", &self.shared);
        put_opt(&mut members, "taxSystem", &self.tax_system);
        put_opt(&mut members, "useParentVat", &self.use_parent_vat);
        put_opt(&mut members, "vat", &self.vat);
        put_opt(&mut members, "vatEnabled", &self.vat_enabled);
        object(members)
    }
}

impl UpdateProductFolder {
    /// A payload on which no optional field is set is written as the empty
    /// object: a field that is not set leaves no member behind, not even a
    /// `null`.
    pub proof fn lemma_unset_fields_are_left_out(self)
        requires
            self.is_unset(),
        ensures
            self.json() == JsonValue::Object(Seq::empty()),
    {
        assert(self.json()->Object_0 =~= Seq::empty());
    }
}

/// Collects the fields of an `UpdateProductFolder`.
#[derive(Default)]
pub struct UpdateProductFolderBuilder {
    pub payload: UpdateProductFolder,
}

impl UpdateProductFolderBuilder {
    /// A builder that holds no field.
    pub fn new() -> (builder: Self)
        ensures
            builder.payload.is_unset(),
    {
        UpdateProductFolderBuilder {
            payload: UpdateProductFolder {
                archived: None,
                code: None,
                description: None,
                external_code: None,
                id: None,
                meta: None,
                name: None,
                product_folder: None,
                shared: None,
                tax_system: None,
                use_parent_vat: None,
                vat: None,
                vat_enabled: None,
            },
        }
    }

    /// Whether the group is archived
    pub fn archived(&mut self, archived: bool) -> (ret: &mut Self)
        ensures
            ret.payload == (UpdateProductFolder {
                archived: Some(archived),
                ..old(self).payload
            }),
            *final(self) == *final(ret),
    {
        self.payload.archived = Some(archived);
        self
    }

    /// The code of the group
    pub fn code(&mut self, code: &str) -> (ret: &mut Self)
        ensures
            ret.payload.code matches Some(text) && text@ == code@,
            ret.payload == (UpdateProductFolder {
                code: ret.payload.code,
                ..old(self).payload
            }),
            *final(self) == *final(ret),
    {
        self.payload.code = Some(code.to_owned());
        self
    }

    /// The description of the group
    pub fn description(&mut self, description: &str) -> (ret: &mut Self)
        ensures
            ret.payload.description matches Some(text) && text@ == description@,
            ret.payload == (UpdateProductFolder {
                description: ret.payload.description,
                ..old(self).payload
            }),
            *final(self) == *final(ret),
    {
        self.payload.description = Some(description.to_owned());
        self
    }

    /// The external code of the group
    pub fn external_code(&mut self, external_code: &str) -> (ret: &mut Self)
        ensures
            ret.payload.external_code matches Some(text) && text@ == external_code@,
            ret.payload == (UpdateProductFolder {
                external_code: ret.payload.external_code,
                ..old(self).payload
            }),
            *final(self) == *final(ret),
    {
        self.payload.external_code = Some(external_code.to_owned());
        self
    }

    /// The identifier of the group
    pub fn id(&mut self, id: Uuid) -> (ret: &mut Self)
        ensures
            ret.payload == (UpdateProductFolder {
                id: Some(id),
                ..old(self).payload
            }),
            *final(self) == *final(ret),
    {
        self.payload.id = Some(id);
        self
    }

    /// The metadata of the group
    pub fn meta(&mut self, meta: Meta) -> (ret: &mut Self)
        ensures
            ret.payload == (UpdateProductFolder {
                meta: Some(meta),
                ..old(self).payload
            }),
            *final(self) == *final(ret),
    {
        self.payload.meta = Some(meta);
        self
    }

    /// The name of the group
    pub fn name(&mut self, name: &str) -> (ret: &mut Self)
        ensures
            ret.payload.name matches Some(text) && text@ == name@,
            ret.payload == (UpdateProductFolder {
                name: ret.payload.name,
                ..old(self).payload
            }),
            *final(self) == *final(ret),
    {
        self.payload.name = Some(name.to_owned());
        self
    }

    /// The group that holds this group
    pub fn product_folder(&mut self, meta: Meta) -> (ret: &mut Self)
        ensures
            ret.payload == (UpdateProductFolder {
                product_folder: Some(MetaWrapper { meta: meta }),
                ..old(self).payload
            }),
            *final(self) == *final(ret),
    {
        self.payload.product_folder = Some(MetaWrapper { meta: meta });
        self
    }

    /// Whether access is shared
    pub fn shared(&mut self, shared: bool) -> (ret: &mut Self)
        ensures
            ret.payload == (UpdateProductFolder {
                shared: Some(shared),
                ..old(self).payload
            }),
            *final(self) == *final(ret),
    {
        self.payload.shared = Some(shared);
        self
    }

    /// The tax system code
    pub fn tax_system(&mut self, tax_system: TaxSystem) -> (ret: &mut Self)
        ensures
            ret.payload == (UpdateProductFolder {
                tax_system: Some(tax_system),
                ..old(self).payload
            }),
            *final(self) == *final(ret),
    {
        self.payload.tax_system = Some(tax_system);
        self
    }

    /// Whether the VAT rate of the parent group applies
    pub fn use_parent_vat(&mut self, use_parent_vat: bool) -> (ret: &mut Self)
        ensures
            ret.payload == (UpdateProductFolder {
                use_parent_vat: Some(use_parent_vat),
                ..old(self).payload
            }),
            *final(self) == *final(ret),
    {
        self.payload.use_parent_vat = Some(use_parent_vat);
        self
    }

    /// The VAT, in percent
    pub fn vat(&mut self, vat: i32) -> (ret: &mut Self)
        ensures
            ret.payload == (UpdateProductFolder {
                vat: Some(vat),
                ..old(self).payload
            }),
            *final(self) == *final(ret),
    {
        self.payload.vat = Some(vat);
        self
    }

    /// Tells a VAT of 0 % (true) from no VAT (false)
    pub fn vat_enabled(&mut self, vat_enabled: bool) -> (ret: &mut Self)
        ensures
            ret.payload == (UpdateProductFolder {
                vat_enabled: Some(vat_enabled),
                ..old(self).payload
            }),
            *final(self) == *final(ret),
    {
        self.payload.vat_enabled = Some(vat_enabled);
        self
    }

    /// The payload as the builder holds it. The builder stays as it is and can
    /// build again.
    pub fn build(&self) -> (payload: UpdateProductFolder)
        ensures
            payload.same(&self.payload),
            payload.json() == self.payload.json(),
    {
        self.payload.clone()
    }
}

} // verus!
