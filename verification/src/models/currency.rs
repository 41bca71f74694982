//! Currencies.

use vstd::prelude::*;
use crate::api_client::MsEntity;
use crate::json::Double;
use crate::values::Uuid;
use super::Meta;

verus! {

/// A currency.
#[derive(Default, Debug, Clone, PartialEq)]
pub struct Currency {
    /// Whether the currency is archived
    pub archived: bool,
    /// The numeric code of the currency
    pub code: String,
    /// Whether the books are kept in this currency
    pub is_default: bool,
    /// The full name of the currency
    pub full_name: String,
    /// The identifier of the currency
    pub id: Uuid,
    /// Whether the rate is the inverse one
    pub indirect: bool,
    /// The letter code of the currency
    pub iso_code: String,
    /// The forms of the name of the whole unit
    pub major_unit: MajorUnit,
    /// The margin added when the rate is updated by itself
    pub margin: Option<Double>,
    /// The metadata of the currency
    pub meta: Meta,
    /// The forms of the name of the hundredth
    pub minor_unit: MinorUnit,
    /// For how many units the rate is given
    pub multiplicity: i32,
    /// The short name of the currency
    pub name: String,
    /// The rate of the currency
    pub rate: Double,
    /// How the rate is updated: auto or manual
    pub rate_update_type: String,
    /// Whether the currency comes from the system dictionary
    pub system: bool,
}

impl MsEntity for Currency {
    open spec fn endpoint() -> Seq<char> {
        "https://api.moysklad.ru/api/remap/1.2/entity/currency"@
    }

    fn url() -> (url: String) {
        "https://api.moysklad.ru/api/remap/1.2/entity/currency".to_owned()
    }
}

/// The forms of the name of the whole unit of a currency.
#[derive(Default, Debug, Clone, PartialEq)]
pub struct MajorUnit {
    pub gender: Option<String>,
    pub s1: Option<String>,
    pub s2: Option<String>,
    pub s5: Option<String>,
}

/// The forms of the name of the hundredth of a currency.
#[derive(Default, Debug, Clone, PartialEq)]
pub struct MinorUnit {
    pub gender: String,
    pub s1: Option<String>,
    pub s2: Option<String>,
    pub s5: Option<String>,
}

} // verus!
