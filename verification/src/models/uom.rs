//! Units of measure.

use vstd::prelude::*;
use crate::api_client::MsEntity;
use crate::values::{Moment, Uuid};
use super::{Meta, MetaWrapper};

verus! {

/// A unit of measure.
#[derive(Default, Debug, Clone, PartialEq)]
pub struct Uom {
    /// The account
    pub account_id: Option<Uuid>,
    /// The code of the unit
    pub code: String,
    /// The description of the unit
    pub description: String,
    /// The external code of the unit
    pub external_code: String,
    /// The department of the employee
    pub group: Option<MetaWrapper>,
    /// The identifier of the unit
    pub id: Uuid,
    /// The metadata of the unit
    pub meta: Meta,
    /// The name of the unit
    pub name: String,
    /// The owner, an employee
    pub owner: Option<MetaWrapper>,
    /// Whether access is shared
    pub shared: Option<bool>,
    /// When the unit was last updated
    pub updated: Moment,
}

impl MsEntity for Uom {
    open spec fn endpoint() -> Seq<char> {
        "https://api.moysklad.ru/api/remap/1.2/entity/uom"@
    }

    fn url() -> (url: String) {
        "https://api.moysklad.ru/api/remap/1.2/entity/uom".to_owned()
    }
}

} // verus!
