//! Regions.

use vstd::prelude::*;
use crate::api_client::MsEntity;
use crate::values::{Moment, Uuid};
use super::Meta;

verus! {

/// A region.
#[derive(Default, Debug, Clone, PartialEq)]
pub struct Region {
    pub account_id: Option<Uuid>,
    pub code: Option<String>,
    pub external_code: String,
    pub id: Uuid,
    pub meta: Meta,
    pub name: String,
    pub updated: Moment,
    pub version: Option<i32>,
}

impl MsEntity for Region {
    open spec fn endpoint() -> Seq<char> {
        "https://api.moysklad.ru/api/remap/1.2/entity/region"@
    }

    fn url() -> (url: String) {
        "https://api.moysklad.ru/api/remap/1.2/entity/region".to_owned()
    }
}

} // verus!
