//! The client: which request each operation makes.

use vstd::prelude::*;
use crate::error::{ApiError, ApiErrorModel};
use crate::json::{JsonValue, ToJson};
use crate::models::Meta;
use crate::pagination::{Pager, PagerModel};
use crate::request::{Method, Request, RequestModel, USER_AGENT};
use crate::values::{hyphenated, Uuid};

verus! {

/// The name of the environment variable that holds the token.
pub const TOKEN_VARIABLE: &'static str = "MS_TOKEN";

/// What the error says when the environment holds no token.
pub const TOKEN_MISSING: &'static str = "the environment variable MS_TOKEN is not set";

/// The URL under which the types of prices are listed.
pub const PRICE_TYPES_URL: &'static str =
    "https://api.moysklad.ru/api/remap/1.2/context/companysettings/pricetype";

/// The URL under which the custom dictionaries stand, each under its
/// identifier.
pub const CUSTOM_ENTITY_URL: &'static str =
    "https://api.moysklad.ru/api/remap/1.2/entity/customentity";

/// A kind of entity that the service keeps a collection of.
pub trait MsEntity {
    /// The URL of the kind's collection.
    spec fn endpoint() -> Seq<char>;

    /// The URL of the kind's collection.
    fn url() -> (url: String)
        ensures
            url@ == Self::endpoint(),
    ;
}

/// The operators that a filter can compare a field with a value by.
#[derive(Clone, Copy, Debug, PartialEq, Eq)]
pub enum FilterOperator {
    /// `=`: the field has the value
    Equal,
    /// `~`: the field contains the value
    PartialMatch,
    /// `!~`: the field does not contain the value
    NoPartialMatch,
    /// `~=`: the field begins with the value
    FullMatchAtTheBeginning,
    /// `=~`: the field ends with the value
    CompleteMatchAtTheEnd,
    /// `>`: the field is greater than the value
    GreaterThan,
    /// `<`: the field is less than the value
    LesserThan,
    /// `>=`: the field is greater than the value or equal to it
    GreaterThanOrEqual,
    /// `<=`: the field is less than the value or equal to it
    LesserThanOrEqual,
}

impl FilterOperator {
    /// The symbol that stands for the operator in a filter.
    pub open spec fn symbol(self) -> Seq<char> {
        match self {
            FilterOperator::Equal => seq!['='],
            FilterOperator::PartialMatch => seq!['~'],
            FilterOperator::NoPartialMatch => seq!['!', '~'],
            FilterOperator::FullMatchAtTheBeginning => seq!['~', '='],
            FilterOperator::CompleteMatchAtTheEnd => seq!['=', '~'],
            FilterOperator::GreaterThan => seq!['>'],
            FilterOperator::LesserThan => seq!['<'],
            FilterOperator::GreaterThanOrEqual => seq!['>', '='],
            FilterOperator::LesserThanOrEqual => seq!['<', '='],
        }
    }

    /// The symbol that stands for the operator in a filter.
    pub fn as_str(&self) -> (text: &'static str)
        ensures
            text@ == self.symbol(),
    {
        proof {
            reveal_strlit("=");
            reveal_strlit("~");
            reveal_strlit("!~");
            reveal_strlit("~=");
            reveal_strlit("=~");
            reveal_strlit(">");
            reveal_strlit("<");
            reveal_strlit(">=");
            reveal_strlit("<=");
        }
        let text = match self {
            FilterOperator::Equal => "=",
            FilterOperator::PartialMatch => "~",
            FilterOperator::NoPartialMatch => "!~",
            FilterOperator::FullMatchAtTheBeginning => "~=",
            FilterOperator::CompleteMatchAtTheEnd => "=~",
            FilterOperator::GreaterThan => ">",
            FilterOperator::LesserThan => "<",
            FilterOperator::GreaterThanOrEqual => ">=",
            FilterOperator::LesserThanOrEqual => "<=",
        };
        assert(text@ =~= self.symbol());
        text
    }

    /// The symbol that stands for the operator in a filter, as a text of its
    /// own.
    pub fn to_string(&self) -> (text: String)
        ensures
            text@ == self.symbol(),
    {
        self.as_str().to_owned()
    }
}

/// The value of the `filter` query parameter: the field, the operator's symbol
/// and the value, in this order and with nothing between them.
pub open spec fn filter_value(field: Seq<char>, operator: FilterOperator, value: Seq<char>) -> Seq<
    char,
> {
    field + operator.symbol() + value
}

/// The value of the `filter` query parameter for one condition.
pub fn filter_query(field: &str, operator: FilterOperator, value: &str) -> (query: String)
    ensures
        query@ == filter_value(field@, operator, value@),
{
    let mut query = field.to_owned();
    query.append(operator.as_str());
    query.append(value);
    query
}

/// What stands behind the last `/` of a path; the whole path where it has
/// none.
pub open spec fn last_segment(path: Seq<char>) -> Seq<char>
    decreases path.len(),
{
    if path.len() == 0 || path.last() == '/' {
        Seq::empty()
    } else {
        last_segment(path.drop_last()).push(path.last())
    }
}

/// The last segment holds no `/`, the path ends with it, and what stands
/// before it is nothing or ends with `/`.
pub proof fn lemma_last_segment(path: Seq<char>)
    ensures
        !last_segment(path).contains('/'),
        last_segment(path).len() <= path.len(),
        path.subrange(path.len() - last_segment(path).len(), path.len() as int) == last_segment(
            path,
        ),
        last_segment(path).len() < path.len() ==> path[path.len() - last_segment(path).len() - 1]
            == '/',
    decreases path.len(),
{
    if path.len() == 0 || path.last() == '/' {
        assert(path.subrange(path.len() as int, path.len() as int) =~= Seq::<char>::empty());
    } else {
        let front = path.drop_last();
        lemma_last_segment(front);
        let inner = last_segment(front);
        let whole = inner.push(path.last());
        assert(path.subrange(path.len() - whole.len(), path.len() as int) =~= whole) by {
            assert(front.subrange(front.len() - inner.len(), front.len() as int) == inner);
            assert forall|i: int| 0 <= i < whole.len() implies path.subrange(
                path.len() - whole.len(),
                path.len() as int,
            )[i] == whole[i] by {
                if i < inner.len() {
                    assert(front.subrange(front.len() - inner.len(), front.len() as int)[i]
                        == inner[i]);
                }
            }
        }
        assert(!whole.contains('/')) by {
            if whole.contains('/') {
                let i = choose|i: int| 0 <= i < whole.len() && whole[i] == '/';
                if i < inner.len() {
                    assert(inner.contains('/'));
                }
            }
        }
    }
}

/// What stands behind the last `/` of a path.
pub fn trailing_segment(path: &str) -> (segment: String)
    ensures
        segment@ == last_segment(path@),
{
    let n = path.unicode_len();
    let mut start = n;
    assert(path@.subrange(0, n as int) =~= path@);
    assert(path@.subrange(n as int, n as int) =~= Seq::<char>::empty());
    assert(last_segment(path@) + Seq::<char>::empty() =~= last_segment(path@));
    loop
        invariant
            start <= n == path@.len(),
            last_segment(path@) == last_segment(path@.subrange(0, start as int)) + path@.subrange(
                start as int,
                n as int,
            ),
        ensures
            start <= n == path@.len(),
            last_segment(path@) == path@.subrange(start as int, n as int),
        decreases start,
    {
        let ghost head = path@.subrange(0, start as int);
        if start == 0 {
            assert(last_segment(head) + path@.subrange(0, n as int) =~= path@.subrange(
                0,
                n as int,
            ));
            break ;
        }
        let c = path.get_char(start - 1);
        assert(head.last() == c);
        if c == '/' {
            assert(last_segment(head) + path@.subrange(start as int, n as int) =~= path@.subrange(
                start as int,
                n as int,
            ));
            break ;
        }
        assert(head.drop_last() =~= path@.subrange(0, start - 1));
        assert(last_segment(head.drop_last()).push(c) + path@.subrange(start as int, n as int)
            =~= last_segment(head.drop_last()) + path@.subrange(start - 1, n as int));
        start = start - 1;
    }
    path.substring_char(start, n).to_owned()
}

/// The request of a method to a URL that carries the token and the user
/// agent and asks for a compressed answer, with no window, no further
/// parameter and the given body.
pub open spec fn plain_request(
    method: Method,
    url: Seq<char>,
    token: Seq<char>,
    body: Option<JsonValue>,
) -> RequestModel {
    RequestModel {
        method,
        url,
        token,
        user_agent: USER_AGENT@,
        gzip: true,
        page: None,
        param: None,
        body,
    }
}

/// The state in which the listing of a collection begins.
pub open spec fn listing<T>(
    url: Seq<char>,
    token: Seq<char>,
    param: Option<(Seq<char>, Seq<char>)>,
) -> PagerModel<T> {
    PagerModel { url, token, param, offset: 0, declared: None, rows: Seq::empty() }
}

/// The client: it holds the token, and tells for each operation the request
/// to make. Every request carries the token as its bearer.
#[derive(Debug)]
pub struct MoySkladApiClient {
    token: String,
}

impl MoySkladApiClient {
    /// The token that the client holds.
    pub closed spec fn token(&self) -> Seq<char> {
        self.token@
    }

    /// A client that holds the given token.
    pub fn new(token: &str) -> (client: Self)
        ensures
            client.token() == token@,
    {
        MoySkladApiClient { token: token.to_owned() }
    }

    /// The client for what the environment holds under `TOKEN_VARIABLE`: a
    /// client with that token, or a configuration error where the variable is
    /// not set. Nothing is sent to find out whether the token is good.
    pub fn from_env_value(value: Option<String>) -> (r: Result<Self, ApiError>)
        ensures
            match value {
                Some(token) => r is Ok && r->Ok_0.token() == token@,
                None => r is Err && r->Err_0@ == (ApiErrorModel::Configuration {
                    message: TOKEN_MISSING@,
                }),
            },
    {
        match value {
            Some(token) => Ok(MoySkladApiClient { token }),
            None => Err(ApiError::configuration(TOKEN_MISSING)),
        }
    }

    /// The URL of one entity of a kind.
    fn entity_url<E: MsEntity>(id: Uuid) -> (url: String)
        ensures
            url@ == E::endpoint() + "/"@ + hyphenated(id.bits),
    {
        let mut url = E::url();
        url.append("/");
        url.append(id.to_string().as_str());
        url
    }

    /// Lists all entities of a kind: the pager begins at the first page of the
    /// kind's collection.
    pub fn get_all<E: MsEntity>(&self) -> (pager: Pager<E>)
        ensures
            pager@ == listing::<E>(E::endpoint(), self.token(), None),
    {
        Pager::new(E::url(), self.token.clone(), None)
    }

    /// Gets one entity by its identifier.
    pub fn get<E: MsEntity>(&self, id: Uuid) -> (request: Request)
        ensures
            request@ == plain_request(
                Method::Get,
                E::endpoint() + "/"@ + hyphenated(id.bits),
                self.token(),
                None,
            ),
    {
        Request {
            method: Method::Get,
            url: Self::entity_url::<E>(id),
            token: self.token.clone(),
            user_agent: USER_AGENT.to_owned(),
            gzip: true,
            page: None,
            param: None,
            body: None,
        }
    }

    /// Creates an entity of a kind from a payload: the payload's document is
    /// posted to the kind's collection.
    pub fn create<E: MsEntity, C: ToJson>(&self, object: C) -> (request: Request)
        ensures
            request@ == plain_request(
                Method::Post,
                E::endpoint(),
                self.token(),
                Some(object.json()),
            ),
    {
        Request {
            method: Method::Post,
            url: E::url(),
            token: self.token.clone(),
            user_agent: USER_AGENT.to_owned(),
            gzip: true,
            page: None,
            param: None,
            body: Some(object.to_json()),
        }
    }

    /// Updates the entity of the given identifier from a payload: the
    /// payload's document, which holds the fields that were set and no
    /// others, is put to the entity's URL.
    pub fn update<E: MsEntity, U: ToJson>(&self, id: Uuid, object: U) -> (request: Request)
        ensures
            request@ == plain_request(
                Method::Put,
                E::endpoint() + "/"@ + hyphenated(id.bits),
                self.token(),
                Some(object.json()),
            ),
    {
        Request {
            method: Method::Put,
            url: Self::entity_url::<E>(id),
            token: self.token.clone(),
            user_agent: USER_AGENT.to_owned(),
            gzip: true,
            page: None,
            param: None,
            body: Some(object.to_json()),
        }
    }

    /// Deletes the entity of the given identifier.
    pub fn delete<E: MsEntity>(&self, id: Uuid) -> (request: Request)
        ensures
            request@ == plain_request(
                Method::Delete,
                E::endpoint() + "/"@ + hyphenated(id.bits),
                self.token(),
                None,
            ),
    {
        Request {
            method: Method::Delete,
            url: Self::entity_url::<E>(id),
            token: self.token.clone(),
            user_agent: USER_AGENT.to_owned(),
            gzip: true,
            page: None,
            param: None,
            body: None,
        }
    }

    /// Creates and updates entities of a kind in one request: the array of the
    /// payloads' documents, in the order given, is posted to the kind's
    /// collection. The service takes a payload with metadata for an update.
    pub fn batch_create_update<E: MsEntity, C: ToJson>(&self, objects: Vec<C>) -> (request:
        Request)
        ensures
            request@ == plain_request(
                Method::Post,
                E::endpoint(),
                self.token(),
                Some(objects.json()),
            ),
    {
        Request {
            method: Method::Post,
            url: E::url(),
            token: self.token.clone(),
            user_agent: USER_AGENT.to_owned(),
            gzip: true,
            page: None,
            param: None,
            body: Some(objects.to_json()),
        }
    }

    /// Deletes entities of a kind in one request: the array of the markers'
    /// documents is posted to `delete` under the kind's collection.
    pub fn batch_delete<E: MsEntity, C: ToJson>(&self, objects: Vec<C>) -> (request: Request)
        ensures
            request@ == plain_request(
                Method::Post,
                E::endpoint() + "/delete"@,
                self.token(),
                Some(objects.json()),
            ),
    {
        let mut url = E::url();
        url.append("/delete");
        Request {
            method: Method::Post,
            url,
            token: self.token.clone(),
            user_agent: USER_AGENT.to_owned(),
            gzip: true,
            page: None,
            param: None,
            body: Some(objects.to_json()),
        }
    }

    /// Searches the entities of a kind for a text: the listing of the kind's
    /// collection with the parameter `search`.
    pub fn search<E: MsEntity>(&self, search_string: &str) -> (pager: Pager<E>)
        ensures
            pager@ == listing::<E>(
                E::endpoint(),
                self.token(),
                Some(("search"@, search_string@)),
            ),
    {
        Pager::new(
            E::url(),
            self.token.clone(),
            Some(("search".to_owned(), search_string.to_owned())),
        )
    }

    /// Filters the entities of a kind by one condition: the listing of the
    /// kind's collection with the parameter `filter`, whose value is the field,
    /// the operator's symbol and the value. Neither the field nor the operator
    /// is checked against the kind: the service refuses what it does not take.
    pub fn filter<E: MsEntity>(&self, field: &str, operator: FilterOperator, value: &str) -> (pager:
        Pager<E>)
        ensures
            pager@ == listing::<E>(
                E::endpoint(),
                self.token(),
                Some(("filter"@, filter_value(field@, operator, value@))),
            ),
    {
        Pager::new(
            E::url(),
            self.token.clone(),
            Some(("filter".to_owned(), filter_query(field, operator, value))),
        )
    }

    /// Gets the types of prices.
    pub fn get_price_types(&self) -> (request: Request)
        ensures
            request@ == plain_request(Method::Get, PRICE_TYPES_URL@, self.token(), None),
    {
        Request {
            method: Method::Get,
            url: PRICE_TYPES_URL.to_owned(),
            token: self.token.clone(),
            user_agent: USER_AGENT.to_owned(),
            gzip: true,
            page: None,
            param: None,
            body: None,
        }
    }

    /// Gets the items of the custom dictionary that the metadata points to:
    /// the dictionary's identifier is the last segment of the metadata's URL.
    pub fn get_custom_entities(&self, customentity_meta: &Meta) -> (request: Request)
        ensures
            request@ == plain_request(
                Method::Get,
                CUSTOM_ENTITY_URL@ + "/"@ + last_segment(customentity_meta.href@),
                self.token(),
                None,
            ),
    {
        let mut url = CUSTOM_ENTITY_URL.to_owned();
        url.append("/");
        url.append(trailing_segment(customentity_meta.href.as_str()).as_str());
        Request {
            method: Method::Get,
            url,
            token: self.token.clone(),
            user_agent: USER_AGENT.to_owned(),
            gzip: true,
            page: None,
            param: None,
            body: None,
        }
    }
}

} // verus!
