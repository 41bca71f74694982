//! A typed client library for the MoySklad JSON API: request and response
//! models for the business entities, builders of create and update payloads,
//! and the rules by which requests are formed, pages are collected and
//! responses are judged.
//!
//! The library performs no input or output. A `MoySkladApiClient` tells for
//! each operation the `Request` to make; whoever performs it hands the status
//! and the body to `response::success_body`, which gives the body back to be
//! decoded, or the error. A list is collected by a `Pager`: it tells the
//! request for the next page, takes what came back, and decides whether to go
//! on, to stop with the rows, or to fail.
//!
//! Payloads are made by builders and are known by the JSON document that they
//! are written as: a field that was not set is not in the document.

pub mod api_client;
pub mod error;
pub mod json;
pub mod models;
pub mod pagination;
pub mod request;
pub mod response;
pub mod values;

pub use api_client::{FilterOperator, MoySkladApiClient, MsEntity};
pub use error::ApiError;
pub use json::{Double, Json, JsonValue, ToJson};
pub use models::{
    assortment::Assortment,
    characteristic::Characteristic,
    counterparty::{CompanyType, Counterparty, Sex},
    country::Country,
    currency::Currency,
    product::Product,
    product_folder::ProductFolder,
    region::Region,
    uom::Uom,
    variant::Variant,
    Attribute, AttributeValue, CustomValue, EntityResponse, Meta, MetaWrapper, PriceType,
    ProductsCustomField, TaxSystem,
};
pub use pagination::{Pager, Step, PAGE_SIZE};
pub use request::{Method, PageWindow, Request, USER_AGENT};
pub use values::{Moment, Uuid};
