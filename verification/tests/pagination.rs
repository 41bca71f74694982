use rust_moysklad::api_client::MoySkladApiClient;
use rust_moysklad::error::ApiError;
use rust_moysklad::models::currency::Currency;
use rust_moysklad::models::{EntityResponse, Meta};
use rust_moysklad::pagination::{Pager, Step, PAGE_SIZE};
use rust_moysklad::request::{Method, PageWindow};

fn page<T>(size: Option<i32>, rows: Vec<T>) -> EntityResponse<T> {
    EntityResponse {
        context: None,
        meta: Meta {
            size,
            ..Meta::default()
        },
        rows,
    }
}

fn numbers() -> Pager<i32> {
    Pager::new("https://example.test/list".to_string(), "token".to_string(), None)
}

fn currency(name: &str) -> Currency {
    Currency {
        name: name.to_string(),
        ..Currency::default()
    }
}

/// Feeds the pages in turn, as a service would that answers each request with
/// the next of them, and tells the rows and the number of requests made.
fn list_all<T>(mut pager: Pager<T>, pages: Vec<EntityResponse<T>>) -> (Vec<T>, usize) {
    let mut requests = 0;
    for page in pages {
        let _ = pager.request();
        requests += 1;
        match pager.advance(Ok(page)) {
            Step::Fetch(next) => pager = next,
            Step::Done(rows) => return (rows, requests),
            Step::Failed(error) => panic!("unexpected failure: {:?}", error),
        }
    }
    panic!("the listing asked for more pages than there are")
}

#[test]
fn page_size_is_one_thousand() {
    assert_eq!(PAGE_SIZE, 1000);
}

#[test]
fn first_request_starts_at_offset_zero() {
    let request = numbers().request();
    assert_eq!(request.method, Method::Get);
    assert_eq!(request.url, "https://example.test/list");
    assert_eq!(request.token, "token");
    assert_eq!(request.user_agent, "rust-moysklad/0.1.0");
    assert!(request.gzip);
    assert_eq!(request.page, Some(PageWindow { limit: 1000, offset: 0 }));
    assert_eq!(request.param, None);
    assert_eq!(request.body, None);
}

#[test]
fn window_parameter_names() {
    assert_eq!(PageWindow::limit_name(), "limit");
    assert_eq!(PageWindow::offset_name(), "offset");
}

#[test]
fn empty_first_page_ends_with_no_rows() {
    let (rows, requests) = list_all(numbers(), vec![page(None, vec![])]);
    assert_eq!(rows, Vec::<i32>::new());
    assert_eq!(requests, 1);
}

#[test]
fn empty_page_ends_even_if_declared_size_is_nonzero() {
    let (rows, requests) = list_all(numbers(), vec![page(Some(5000), vec![]), page(Some(5000), vec![1])]);
    assert_eq!(rows, Vec::<i32>::new());
    assert_eq!(requests, 1);
}

#[test]
fn window_beyond_declared_size_ends() {
    let (rows, requests) = list_all(numbers(), vec![page(Some(999), vec![1, 2, 3]), page(Some(999), vec![4])]);
    assert_eq!(rows, vec![1, 2, 3]);
    assert_eq!(requests, 1);
}

#[test]
fn window_that_meets_declared_size_goes_on() {
    match numbers().advance(Ok(page(Some(1000), vec![1]))) {
        Step::Fetch(next) => {
            assert_eq!(next.request().page, Some(PageWindow { limit: 1000, offset: 1000 }));
        }
        _ => panic!("a window that ends at the declared size is not yet beyond it"),
    }
}

#[test]
fn negative_declared_size_ends() {
    let (rows, requests) = list_all(numbers(), vec![page(Some(-1), vec![7])]);
    assert_eq!(rows, vec![7]);
    assert_eq!(requests, 1);
}

#[test]
fn pages_are_concatenated_in_order() {
    let pages = vec![
        page(Some(2500), vec![1, 2]),
        page(Some(2500), vec![3]),
        page(Some(2500), vec![4, 5, 6]),
        page(Some(2500), vec![99]),
    ];
    let (rows, requests) = list_all(numbers(), pages);
    assert_eq!(rows, vec![1, 2, 3, 4, 5, 6]);
    assert_eq!(requests, 3);
}

#[test]
fn without_declared_size_only_an_empty_page_ends() {
    let pages = vec![page(None, vec![1]), page(None, vec![2]), page(None, vec![3]), page(None, vec![])];
    let (rows, requests) = list_all(numbers(), pages);
    assert_eq!(rows, vec![1, 2, 3]);
    assert_eq!(requests, 4);
}

#[test]
fn offsets_advance_by_page_size() {
    let mut pager = numbers();
    for expected in [0u128, 1000, 2000, 3000] {
        assert_eq!(pager.request().page, Some(PageWindow { limit: 1000, offset: expected }));
        pager = match pager.advance(Ok(page(None, vec![1]))) {
            Step::Fetch(next) => next,
            _ => panic!("a page with rows and no declared size goes on"),
        };
    }
}

#[test]
fn every_request_of_a_listing_keeps_url_token_and_parameter() {
    let pager: Pager<i32> = Pager::new(
        "https://example.test/list".to_string(),
        "secret".to_string(),
        Some(("search".to_string(), "tea".to_string())),
    );
    let next = match pager.advance(Ok(page(Some(5000), vec![1]))) {
        Step::Fetch(next) => next,
        _ => panic!("expected another page"),
    };
    let request = next.request();
    assert_eq!(request.url, "https://example.test/list");
    assert_eq!(request.token, "secret");
    assert_eq!(request.param, Some(("search".to_string(), "tea".to_string())));
    assert_eq!(request.page, Some(PageWindow { limit: 1000, offset: 1000 }));
}

#[test]
fn error_on_first_page_fails() {
    let error = ApiError::transport("connection refused");
    match numbers().advance(Err(error)) {
        Step::Failed(e) => assert_eq!(e, ApiError::transport("connection refused")),
        _ => panic!("an error must fail the listing"),
    }
}

#[test]
fn error_after_pages_discards_the_rows() {
    let pager = match numbers().advance(Ok(page(Some(5000), vec![1, 2, 3]))) {
        Step::Fetch(next) => next,
        _ => panic!("expected another page"),
    };
    let error = ApiError::Remote {
        status: 429,
        payload: "{}".to_string(),
        message: "Object {}\n".to_string(),
    };
    match pager.advance(Err(error)) {
        Step::Failed(e) => match e {
            ApiError::Remote { status, .. } => assert_eq!(status, 429),
            _ => panic!("the error must be handed on as it is"),
        },
        _ => panic!("an error must fail the listing"),
    }
}

#[test]
fn get_all_lists_the_collection_of_the_kind() {
    let client = MoySkladApiClient::new("token");
    let request = client.get_all::<Currency>().request();
    assert_eq!(request.method, Method::Get);
    assert_eq!(request.url, "https://api.moysklad.ru/api/remap/1.2/entity/currency");
    assert_eq!(request.token, "token");
    assert_eq!(request.page, Some(PageWindow { limit: 1000, offset: 0 }));
    assert_eq!(request.param, None);
    assert_eq!(request.body, None);
}

#[test]
fn currencies_two_pages_declared_size_within_second_window() {
    let client = MoySkladApiClient::new("token");
    let pages = vec![
        page(Some(1001), vec![currency("rouble"), currency("euro")]),
        page(Some(1001), vec![currency("dollar")]),
    ];
    let (rows, requests) = list_all(client.get_all::<Currency>(), pages);
    let names: Vec<&str> = rows.iter().map(|c| c.name.as_str()).collect();
    assert_eq!(names, vec!["rouble", "euro", "dollar"]);
    assert_eq!(requests, 2);
}

#[test]
fn currencies_declared_size_three_is_within_the_first_window() {
    let client = MoySkladApiClient::new("token");
    let pages = vec![
        page(Some(3), vec![currency("rouble"), currency("euro")]),
        page(Some(3), vec![currency("dollar")]),
    ];
    let (rows, requests) = list_all(client.get_all::<Currency>(), pages);
    let names: Vec<&str> = rows.iter().map(|c| c.name.as_str()).collect();
    assert_eq!(names, vec!["rouble", "euro"]);
    assert_eq!(requests, 1);
}

#[test]
fn the_declared_size_is_the_one_of_the_first_page() {
    let pages = vec![
        page(Some(5000), vec![1]),
        page(Some(1500), vec![2]),
        page(Some(1), vec![3]),
        page(None, vec![4]),
        page(Some(5000), vec![5]),
        page(Some(5000), vec![6]),
        page(Some(5000), vec![7]),
    ];
    let (rows, requests) = list_all(numbers(), pages);
    assert_eq!(rows, vec![1, 2, 3, 4, 5, 6]);
    assert_eq!(requests, 6);
}

#[test]
fn a_size_declared_after_the_first_page_is_not_read() {
    let pages = vec![page(None, vec![1]), page(Some(10), vec![2]), page(Some(10), vec![])];
    let (rows, requests) = list_all(numbers(), pages);
    assert_eq!(rows, vec![1, 2]);
    assert_eq!(requests, 3);
}

#[test]
fn feed_collects_until_the_last_page() {
    let outcomes = vec![
        Ok(page(Some(1500), vec![1, 2])),
        Ok(page(Some(1500), vec![3])),
        Ok(page(Some(1500), vec![4])),
    ];
    match numbers().feed(outcomes) {
        Step::Done(rows) => assert_eq!(rows, vec![1, 2, 3]),
        _ => panic!("the second window reaches beyond the declared size"),
    }
}

#[test]
fn feed_waits_for_more_when_the_answers_run_out() {
    let outcomes = vec![Ok(page(Some(5000), vec![1])), Ok(page(Some(5000), vec![2]))];
    match numbers().feed(outcomes) {
        Step::Fetch(pager) => {
            assert_eq!(pager.request().page, Some(PageWindow { limit: 1000, offset: 2000 }));
        }
        _ => panic!("two pages of five do not end the listing"),
    }
}

#[test]
fn feed_with_no_answers_changes_nothing() {
    match numbers().feed(vec![]) {
        Step::Fetch(pager) => {
            assert_eq!(pager.request().page, Some(PageWindow { limit: 1000, offset: 0 }));
        }
        _ => panic!("a listing does not end before its first page"),
    }
}

#[test]
fn feed_fails_on_the_first_error_and_drops_the_rows() {
    let outcomes = vec![
        Ok(page(Some(5000), vec![1])),
        Err(ApiError::transport("timed out")),
        Ok(page(Some(5000), vec![3])),
    ];
    match numbers().feed(outcomes) {
        Step::Failed(error) => assert_eq!(error, ApiError::transport("timed out")),
        _ => panic!("an error must fail the listing"),
    }
}

#[test]
fn feed_currencies_two_pages() {
    let client = MoySkladApiClient::new("token");
    let outcomes = vec![
        Ok(page(Some(1001), vec![currency("rouble"), currency("euro")])),
        Ok(page(Some(1001), vec![currency("dollar")])),
    ];
    match client.get_all::<Currency>().feed(outcomes) {
        Step::Done(rows) => {
            assert_eq!(rows, vec![currency("rouble"), currency("euro"), currency("dollar")]);
        }
        _ => panic!("the second window reaches beyond the declared size"),
    }
}
