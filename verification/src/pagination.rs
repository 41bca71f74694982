//! Lists come in pages. A `Pager` holds what was collected so far and tells
//! which page to ask for next; `advance` takes what came back for that page
//! and decides whether to go on, to stop with the rows, or to fail. The
//! listing stops at a page without rows, and at a page whose window reaches
//! beyond the size that the first page declared for the whole list.

use vstd::prelude::*;
use crate::error::{ApiError, ApiErrorModel};
use crate::models::EntityResponse;
use crate::request::{Method, PageWindow, Request, RequestModel, USER_AGENT};

verus! {

/// The number of rows that every page is asked to hold at most.
pub const PAGE_SIZE: u32 = 1000;

/// What the pager reads of a page: the size that the page declares for the
/// whole list, if any, and the rows.
pub struct Page<T> {
    pub size: Option<i32>,
    pub rows: Seq<T>,
}

/// What the pager reads of a response that holds one page.
pub open spec fn page_of<T>(response: EntityResponse<T>) -> Page<T> {
    Page { size: response.meta.size, rows: response.rows@ }
}

/// The size of the whole list that holds for a page asked for at `offset`:
/// the size that the first page declares, which is the page asked for at
/// offset 0. What a later page declares is not read.
pub open spec fn declared_by<T>(offset: nat, declared: Option<i32>, page: Page<T>) -> Option<i32> {
    if offset == 0 {
        page.size
    } else {
        declared
    }
}

/// What the pager reads of what came back for a page.
pub open spec fn outcome_of<T>(outcome: Result<EntityResponse<T>, ApiError>) -> Result<
    Page<T>,
    ApiErrorModel,
> {
    match outcome {
        Ok(response) => Ok(page_of(response)),
        Err(error) => Err(error@),
    }
}

/// What the pager reads of what came back for each page of a row of pages.
pub open spec fn outcomes_of<T>(outcomes: Seq<Result<EntityResponse<T>, ApiError>>) -> Seq<
    Result<Page<T>, ApiErrorModel>,
> {
    Seq::new(outcomes.len(), |i: int| outcome_of(outcomes[i]))
}

/// Whether a page that was asked for at `offset` is the last to ask for: it
/// has no rows, or this window already reaches beyond the size that was
/// declared for the whole list.
pub open spec fn is_last<T>(offset: nat, declared: Option<i32>, page: Page<T>) -> bool {
    page.rows.len() == 0 || (declared_by(offset, declared, page) matches Some(size) && offset
        + PAGE_SIZE > size)
}

/// The state of a pager as a mathematical value: where the list is, what
/// every request carries, where the next page begins, what the first page
/// declared as the size of the list, and the rows collected so far.
pub struct PagerModel<T> {
    pub url: Seq<char>,
    pub token: Seq<char>,
    pub param: Option<(Seq<char>, Seq<char>)>,
    pub offset: nat,
    pub declared: Option<i32>,
    pub rows: Seq<T>,
}

/// What one step of a pager comes to.
pub enum StepModel<T> {
    Fetch(PagerModel<T>),
    Done(Seq<T>),
    Failed(ApiErrorModel),
}

/// The request for the page that a pager in the given state is waiting for.
pub open spec fn page_request<T>(state: PagerModel<T>) -> RequestModel {
    RequestModel {
        method: Method::Get,
        url: state.url,
        token: state.token,
        user_agent: USER_AGENT@,
        gzip: true,
        page: Some(PageWindow { limit: PAGE_SIZE, offset: state.offset as u128 }),
        param: state.param,
        body: None,
    }
}

/// The step from a state on what came back for the page it was waiting for.
/// An error ends the listing at once and is all that is left of it. A page's
/// rows are added behind the rows that are there. The last page ends the
/// listing; after any other page the window moves on by one page size.
pub open spec fn next<T>(state: PagerModel<T>, outcome: Result<Page<T>, ApiErrorModel>)
    -> StepModel<T> {
    match outcome {
        Err(error) => StepModel::Failed(error),
        Ok(page) => if is_last(state.offset, state.declared, page) {
            StepModel::Done(state.rows + page.rows)
        } else {
            StepModel::Fetch(
                PagerModel {
                    offset: state.offset + PAGE_SIZE as nat,
                    declared: declared_by(state.offset, state.declared, page),
                    rows: state.rows + page.rows,
                    ..state
                },
            )
        },
    }
}

/// The collecting of one list, page by page.
pub struct Pager<T> {
    url: String,
    token: String,
    param: Option<(String, String)>,
    offset: u128,
    declared: Option<i32>,
    rows: Vec<T>,
}

/// What a pager decided on a page.
pub enum Step<T> {
    /// There is more to ask for: go on with this pager.
    Fetch(Pager<T>),
    /// The list is complete: these are its rows.
    Done(Vec<T>),
    /// The listing failed; the rows collected so far are gone.
    Failed(ApiError),
}

impl<T> View for Pager<T> {
    type V = PagerModel<T>;

    closed spec fn view(&self) -> PagerModel<T> {
        PagerModel {
            url: self.url@,
            token: self.token@,
            param: match self.param {
                Some((name, value)) => Some((name@, value@)),
                None => None,
            },
            offset: self.offset as nat,
            declared: self.declared,
            rows: self.rows@,
        }
    }
}

impl<T> View for Step<T> {
    type V = StepModel<T>;

    open spec fn view(&self) -> StepModel<T> {
        match self {
            Step::Fetch(pager) => StepModel::Fetch(pager@),
            Step::Done(rows) => StepModel::Done(rows@),
            Step::Failed(error) => StepModel::Failed(error@),
        }
    }
}

impl<T> Pager<T> {
    /// Every page but the first follows a page that had a row, so the offset
    /// is at most the page size times the number of rows held.
    #[verifier::type_invariant]
    spec fn bounded(self) -> bool {
        self.offset <= PAGE_SIZE * self.rows@.len()
    }

    /// A pager at the start of the list at `url`: no rows yet, and the first
    /// page to ask for begins at offset 0.
    pub fn new(url: String, token: String, param: Option<(String, String)>) -> (pager: Self)
        ensures
            pager@ == (PagerModel {
                url: url@,
                token: token@,
                param: match param {
                    Some((name, value)) => Some((name@, value@)),
                    None => None,
                },
                offset: 0,
                declared: None,
                rows: Seq::<T>::empty(),
            }),
    {
        Pager { url, token, param, offset: 0, declared: None, rows: Vec::new() }
    }

    /// The request for the page that the pager is waiting for.
    pub fn request(&self) -> (request: Request)
        ensures
            request@ == page_request(self@),
            self@.offset <= u128::MAX,
    {
        let param = match &self.param {
            Some((name, value)) => Some((name.clone(), value.clone())),
            None => None,
        };
        Request {
            method: Method::Get,
            url: self.url.clone(),
            token: self.token.clone(),
            user_agent: USER_AGENT.to_owned(),
            gzip: true,
            page: Some(PageWindow { limit: PAGE_SIZE, offset: self.offset }),
            param,
            body: None,
        }
    }

    /// Takes what came back for the page that the pager was waiting for, and
    /// decides how the listing goes on.
    pub fn advance(self, outcome: Result<EntityResponse<T>, ApiError>) -> (step: Step<T>)
        ensures
            step@ == next(self@, outcome_of(outcome)),
    {
        proof {
            use_type_invariant(&self);
        }
        match outcome {
            Err(error) => Step::Failed(error),
            Ok(response) => {
                let ghost page = page_of(response);
                let EntityResponse { context: _, meta, rows: mut page_rows } = response;
                let Pager { url, token, param, offset, declared, rows: mut rows } = self;
                let declared = if offset == 0 {
                    meta.size
                } else {
                    declared
                };
                let empty = page_rows.len() == 0;
                rows.append(&mut page_rows);
                let beyond = match declared {
                    Some(size) => size < 0 || offset > size as u128 || size as u128 - offset
                        < PAGE_SIZE as u128,
                    None => false,
                };
                if empty || beyond {
                    Step::Done(rows)
                } else {
                    let held = rows.len();
                    assert(offset + PAGE_SIZE <= PAGE_SIZE * held && PAGE_SIZE * held <= u128::MAX)
                        by (nonlinear_arith)
                        requires
                            offset <= PAGE_SIZE * (held - page.rows.len()),
                            page.rows.len() >= 1,
                            held <= 0xffff_ffff_ffff_ffff,
                            PAGE_SIZE == 1000,
                    ;
                    Step::Fetch(
                        Pager {
                            url,
                            token,
                            param,
                            offset: offset + PAGE_SIZE as u128,
                            declared,
                            rows,
                        },
                    )
                }
            },
        }
    }

    /// Goes through a listing for which the answers are at hand: each page
    /// that the pager asks for is answered with the next of `outcomes`, until
    /// the listing ends or the answers run out. Answers behind the end of the
    /// listing are not looked at.
    pub fn feed(self, outcomes: Vec<Result<EntityResponse<T>, ApiError>>) -> (step: Step<T>)
        ensures
            step@ == run(self@, outcomes_of(outcomes@)),
    {
        let mut pager = self;
        let mut left = outcomes;
        loop
            invariant
                run(self@, outcomes_of(outcomes@)) == run(pager@, outcomes_of(left@)),
            decreases left@.len(),
        {
            if left.len() == 0 {
                return Step::Fetch(pager);
            }
            let ghost before = left@;
            let outcome = left.remove(0);
            assert(outcomes_of(before)[0] == outcome_of(outcome));
            assert(outcomes_of(before).drop_first() =~= outcomes_of(left@));
            match pager.advance(outcome) {
                Step::Fetch(next) => {
                    pager = next;
                },
                Step::Done(rows) => {
                    return Step::Done(rows);
                },
                Step::Failed(error) => {
                    return Step::Failed(error);
                },
            }
        }
    }
}

/// The listing from a state on, given what comes back for each page that is
/// asked for, in turn. What would come back after the listing has ended is
/// never asked for.
pub open spec fn run<T>(state: PagerModel<T>, outcomes: Seq<Result<Page<T>, ApiErrorModel>>)
    -> StepModel<T>
    decreases outcomes.len(),
{
    if outcomes.len() == 0 {
        StepModel::Fetch(state)
    } else {
        match next(state, outcomes[0]) {
            StepModel::Fetch(then) => run(then, outcomes.drop_first()),
            ended => ended,
        }
    }
}

/// The pages as what came back for them without an error.
pub open spec fn delivered<T>(pages: Seq<Page<T>>) -> Seq<Result<Page<T>, ApiErrorModel>> {
    Seq::new(pages.len(), |i: int| Ok(pages[i]))
}

/// How many of the pages that a service holds ready a listing asks for, when
/// the first of them is asked for at `offset`: all up to the first that is
/// the last to ask for, that one included.
pub open spec fn taken<T>(offset: nat, declared: Option<i32>, pages: Seq<Page<T>>) -> nat
    decreases pages.len(),
{
    if pages.len() == 0 {
        0
    } else if is_last(offset, declared, pages[0]) {
        1
    } else {
        1 + taken(
            offset + PAGE_SIZE as nat,
            declared_by(offset, declared, pages[0]),
            pages.drop_first(),
        )
    }
}

/// Whether one of the pages is the last to ask for, so that the listing ends
/// within them.
pub open spec fn ends<T>(offset: nat, declared: Option<i32>, pages: Seq<Page<T>>) -> bool
    decreases pages.len(),
{
    pages.len() > 0 && (is_last(offset, declared, pages[0]) || ends(
        offset + PAGE_SIZE as nat,
        declared_by(offset, declared, pages[0]),
        pages.drop_first(),
    ))
}

/// The rows of the pages, page after page.
pub open spec fn concat<T>(pages: Seq<Page<T>>) -> Seq<T>
    decreases pages.len(),
{
    if pages.len() == 0 {
        Seq::empty()
    } else {
        pages[0].rows + concat(pages.drop_first())
    }
}

/// A page without rows ends the listing, whatever size was declared, and adds
/// nothing to the rows.
pub proof fn lemma_empty_page_ends_listing<T>(state: PagerModel<T>, size: Option<i32>)
    ensures
        next(state, Ok(Page { size, rows: Seq::empty() })) == StepModel::Done(state.rows),
{
    assert(state.rows + Seq::<T>::empty() =~= state.rows);
}

/// A page whose window reaches beyond the declared size ends the listing: no
/// page is asked for behind the declared size.
pub proof fn lemma_window_beyond_size_ends_listing<T>(state: PagerModel<T>, page: Page<T>)
    requires
        declared_by(state.offset, state.declared, page) matches Some(size) && state.offset
            + PAGE_SIZE > size,
    ensures
        next(state, Ok(page)) == StepModel::Done(state.rows + page.rows),
{
}

/// The size that holds for a listing is the one that its first page declares:
/// once the listing has moved on, what a page declares changes nothing.
pub proof fn lemma_later_sizes_are_not_read<T>(
    state: PagerModel<T>,
    page: Page<T>,
    size: Option<i32>,
)
    requires
        state.offset > 0,
    ensures
        next(state, Ok(Page { size, ..page })) == next(state, Ok(page)),
{
}

/// An error ends the listing at once, and nothing is left of the rows that
/// were collected before it.
pub proof fn lemma_error_discards_rows<T>(
    state: PagerModel<T>,
    error: ApiErrorModel,
    later: Seq<Result<Page<T>, ApiErrorModel>>,
)
    ensures
        run(state, seq![Err(error)] + later) == StepModel::<T>::Failed(error),
{
}

/// The pages that a listing asks for are fewer than the pages held ready, or
/// all of them; none before the last of them is a last page; and where the
/// listing ends within the pages, the last one asked for is a last page.
pub proof fn lemma_taken_stops_at_the_last_page<T>(
    offset: nat,
    declared: Option<i32>,
    pages: Seq<Page<T>>,
)
    ensures
        taken(offset, declared, pages) <= pages.len(),
        pages.len() > 0 ==> forall|i: int|
            0 <= i < taken(offset, declared, pages) - 1 ==> !is_last(
                (offset + i * PAGE_SIZE) as nat,
                declared_by(offset, declared, pages[0]),
                #[trigger] pages[i],
            ),
        ends(offset, declared, pages) ==> taken(offset, declared, pages) >= 1 && is_last(
            (offset + (taken(offset, declared, pages) - 1) * PAGE_SIZE) as nat,
            declared_by(offset, declared, pages[0]),
            pages[taken(offset, declared, pages) - 1],
        ),
        !ends(offset, declared, pages) ==> taken(offset, declared, pages) == pages.len(),
    decreases pages.len(),
{
    if pages.len() > 0 && !is_last(offset, declared, pages[0]) {
        let rest = pages.drop_first();
        let then = offset + PAGE_SIZE as nat;
        let size = declared_by(offset, declared, pages[0]);
        lemma_taken_stops_at_the_last_page(then, size, rest);
        if rest.len() > 0 {
            assert(declared_by(then, size, rest[0]) == size);
        }
        assert forall|i: int| 0 <= i < taken(offset, declared, pages) - 1 implies !is_last(
            (offset + i * PAGE_SIZE) as nat,
            size,
            #[trigger] pages[i],
        ) by {
            if i > 0 {
                assert(pages[i] == rest[i - 1]);
                assert((offset + i * PAGE_SIZE) as nat == (then + (i - 1) * PAGE_SIZE) as nat)
                    by (nonlinear_arith)
                    requires
                        then == offset + PAGE_SIZE,
                ;
            }
        }
        if ends(offset, declared, pages) {
            let n = taken(then, size, rest);
            assert(pages[n as int] == rest[n - 1]);
            assert((offset + n * PAGE_SIZE) as nat == (then + (n - 1) * PAGE_SIZE) as nat)
                by (nonlinear_arith)
                requires
                    then == offset + PAGE_SIZE,
                    n >= 1,
            ;
        }
    }
}

/// A listing returns the rows of every page it asked for, page after page in
/// the order in which the pages came, behind the rows it began with: no row
/// twice and none left out. It asks for `taken` pages. It has ended when one
/// of them was a last page, and else waits for the page behind them.
pub proof fn lemma_listing_concatenates_pages<T>(state: PagerModel<T>, pages: Seq<Page<T>>)
    ensures
        run(state, delivered(pages)) == ({
            let n = taken(state.offset, state.declared, pages);
            let rows = state.rows + concat(pages.take(n as int));
            if ends(state.offset, state.declared, pages) {
                StepModel::Done(rows)
            } else {
                StepModel::Fetch(
                    PagerModel {
                        offset: state.offset + n * PAGE_SIZE as nat,
                        declared: if n == 0 {
                            state.declared
                        } else {
                            declared_by(state.offset, state.declared, pages[0])
                        },
                        rows,
                        ..state
                    },
                )
            }
        }),
    decreases pages.len(),
{
    let n = taken(state.offset, state.declared, pages);
    if pages.len() == 0 {
        assert(pages.take(0) =~= pages);
        assert(state.rows + concat(pages) =~= state.rows);
        assert(state.offset + 0 * PAGE_SIZE as nat == state.offset);
    } else {
        let first = pages[0];
        let rest = pages.drop_first();
        assert(delivered(pages)[0] == Ok::<Page<T>, ApiErrorModel>(first));
        assert(delivered(pages).drop_first() =~= delivered(rest));
        if is_last(state.offset, state.declared, first) {
            let one = pages.take(1);
            assert(one[0] == first);
            assert(one.drop_first().len() == 0);
            assert(concat(one.drop_first()) =~= Seq::<T>::empty());
            assert(concat(one) =~= first.rows);
        } else {
            let then = PagerModel {
                offset: state.offset + PAGE_SIZE as nat,
                declared: declared_by(state.offset, state.declared, first),
                rows: state.rows + first.rows,
                ..state
            };
            lemma_listing_concatenates_pages(then, rest);
            lemma_taken_stops_at_the_last_page(then.offset, then.declared, rest);
            let m = taken(then.offset, then.declared, rest);
            assert(n == m + 1);
            if rest.len() > 0 {
                assert(declared_by(then.offset, then.declared, rest[0]) == then.declared);
            }
            assert(pages.take(n as int).drop_first() =~= rest.take(m as int));
            assert(pages.take(n as int)[0] == first);
            assert(then.rows + concat(rest.take(m as int)) =~= state.rows + concat(
                pages.take(n as int),
            ));
            assert(then.offset + m * PAGE_SIZE as nat == state.offset + n * PAGE_SIZE as nat)
                by (nonlinear_arith)
                requires
                    then.offset == state.offset + PAGE_SIZE,
                    n == m + 1,
            ;
        }
    }
}

} // verus!
