//! Countries.

use vstd::prelude::*;
use crate::api_client::MsEntity;
use crate::values::{Moment, Uuid};
use super::{Meta, MetaWrapper};

verus! {

/// A country.
#[derive(Default, Debug, Clone, PartialEq)]
pub struct Country {
    pub account_id: Option<Uuid>,
    pub code: Option<String>,
    pub description: Option<String>,
    pub external_code: String,
    pub group: Option<MetaWrapper>,
    pub id: Uuid,
    pub meta: Meta,
    pub name: String,
    pub owner: Option<MetaWrapper>,
    pub shared: Option<bool>,
    pub updated: Moment,
}

impl MsEntity for Country {
    open spec fn endpoint() -> Seq<char> {
        "https://api.moysklad.ru/api/remap/1.2/entity/country"@
    }

    fn url() -> (url: String) {
        "https://api.moysklad.ru/api/remap/1.2/entity/country".to_owned()
    }
}

} // verus!
