use rust_moysklad::api_client::{filter_query, FilterOperator, MoySkladApiClient};
use rust_moysklad::models::uom::Uom;
use rust_moysklad::request::{Method, PageWindow};

fn filter_param(field: &str, operator: FilterOperator, value: &str) -> (String, String) {
    let client = MoySkladApiClient::new("token");
    let pager = client.filter::<Uom>(field, operator, value);
    pager.request().param.expect("a filter carries a parameter")
}

#[test]
fn operator_symbols() {
    assert_eq!(FilterOperator::Equal.to_string(), "=");
    assert_eq!(FilterOperator::PartialMatch.to_string(), "~");
    assert_eq!(FilterOperator::NoPartialMatch.to_string(), "!~");
    assert_eq!(FilterOperator::FullMatchAtTheBeginning.to_string(), "~=");
    assert_eq!(FilterOperator::CompleteMatchAtTheEnd.to_string(), "=~");
    assert_eq!(FilterOperator::GreaterThan.to_string(), ">");
    assert_eq!(FilterOperator::LesserThan.to_string(), "<");
    assert_eq!(FilterOperator::GreaterThanOrEqual.to_string(), ">=");
    assert_eq!(FilterOperator::LesserThanOrEqual.to_string(), "<=");
}

#[test]
fn operator_symbols_as_str() {
    assert_eq!(FilterOperator::Equal.as_str(), "=");
    assert_eq!(FilterOperator::NoPartialMatch.as_str(), "!~");
    assert_eq!(FilterOperator::LesserThanOrEqual.as_str(), "<=");
}

#[test]
fn filter_query_partial_match() {
    assert_eq!(filter_query("name", FilterOperator::PartialMatch, "Ivan"), "name~Ivan");
}

#[test]
fn filter_query_equal() {
    assert_eq!(filter_query("name", FilterOperator::Equal, "Ivan"), "name=Ivan");
}

#[test]
fn filter_query_no_partial_match() {
    assert_eq!(filter_query("name", FilterOperator::NoPartialMatch, "Ivan"), "name!~Ivan");
}

#[test]
fn filter_query_full_match_at_the_beginning() {
    assert_eq!(filter_query("name", FilterOperator::FullMatchAtTheBeginning, "Ivan"), "name~=Ivan");
}

#[test]
fn filter_query_complete_match_at_the_end() {
    assert_eq!(filter_query("name", FilterOperator::CompleteMatchAtTheEnd, "Ivan"), "name=~Ivan");
}

#[test]
fn filter_query_greater_than() {
    assert_eq!(filter_query("sum", FilterOperator::GreaterThan, "99"), "sum>99");
}

#[test]
fn filter_query_lesser_than() {
    assert_eq!(filter_query("sum", FilterOperator::LesserThan, "99"), "sum<99");
}

#[test]
fn filter_query_greater_than_or_equal() {
    assert_eq!(filter_query("sum", FilterOperator::GreaterThanOrEqual, "99"), "sum>=99");
}

#[test]
fn filter_query_lesser_than_or_equal() {
    assert_eq!(filter_query("sum", FilterOperator::LesserThanOrEqual, "99"), "sum<=99");
}

#[test]
fn filter_query_keeps_empty_parts() {
    assert_eq!(filter_query("", FilterOperator::Equal, ""), "=");
}

#[test]
fn filter_query_does_not_escape() {
    assert_eq!(
        filter_query("moment", FilterOperator::GreaterThan, "2016-10-11 12:00:00"),
        "moment>2016-10-11 12:00:00"
    );
}

#[test]
fn filter_request_carries_the_query() {
    let (name, value) = filter_param("name", FilterOperator::PartialMatch, "Ivan");
    assert_eq!(name, "filter");
    assert_eq!(value, "name~Ivan");
}

#[test]
fn filter_request_is_a_first_page_of_the_collection() {
    let client = MoySkladApiClient::new("token");
    let request = client
        .filter::<Uom>("description", FilterOperator::Equal, "m2")
        .request();
    assert_eq!(request.method, Method::Get);
    assert_eq!(request.url, "https://api.moysklad.ru/api/remap/1.2/entity/uom");
    assert_eq!(request.token, "token");
    assert_eq!(request.page, Some(PageWindow { limit: 1000, offset: 0 }));
    assert_eq!(request.body, None);
}

#[test]
fn search_request_carries_the_text() {
    let client = MoySkladApiClient::new("token");
    let request = client.search::<Uom>("square metre").request();
    assert_eq!(request.method, Method::Get);
    assert_eq!(request.url, "https://api.moysklad.ru/api/remap/1.2/entity/uom");
    assert_eq!(
        request.param,
        Some(("search".to_string(), "square metre".to_string()))
    );
    assert_eq!(request.page, Some(PageWindow { limit: 1000, offset: 0 }));
}
