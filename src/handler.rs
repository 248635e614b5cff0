use vstd::prelude::*;

use crate::render::{listing_of, lines_of, render_listing, LISTING_HEADER};
use crate::response::{
    failure_body, AppError, HttpResponse, FAILURE_PREFIX, STATUS_INTERNAL_SERVER_ERROR, STATUS_OK,
};
use crate::todo::{items_of, TodoItem, TodoRecord};

verus! {

/// The HTTP methods routed to the listing.
pub enum Method {
    Get,
    Post,
}

/// An inbound request to the listing route.
pub struct Request {
    pub method: Method,
    pub body: Vec<u8>,
}

/// What the handler decided for one request: the lines written to the
/// output stream, and the HTTP response.
pub struct HandlerOutcome {
    pub printed: Vec<String>,
    pub response: HttpResponse,
}

/// The mathematical value of a handler outcome.
pub struct Outcome {
    pub printed: Seq<Seq<char>>,
    pub status: u16,
    pub body: Seq<char>,
}

impl View for HandlerOutcome {
    type V = Outcome;

    open spec fn view(&self) -> Outcome {
        Outcome {
            printed: lines_of(self.printed@),
            status: self.response.status,
            body: self.response.body@,
        }
    }
}

/// The value of what the listing query gave back: the rows, or the text of
/// its failure.
pub open spec fn fetched_view(fetched: Result<Vec<TodoRecord>, AppError>) -> Result<
    Seq<TodoItem>,
    Seq<char>,
> {
    match fetched {
        Ok(rows) => Ok(items_of(rows@)),
        Err(e) => Err(e.message@),
    }
}

/// The outcome of a request, given what the query gave back: on rows, the
/// listing is printed and the response is 200 with an empty body; on a failure,
/// nothing is printed and the response is 500 with the failure's text.
pub open spec fn outcome_of(
    method: Method,
    body: Seq<u8>,
    fetched: Result<Seq<TodoItem>, Seq<char>>,
) -> Outcome {
    match fetched {
        Ok(items) => Outcome { printed: listing_of(items), status: STATUS_OK, body: Seq::empty() },
        Err(message) => Outcome {
            printed: Seq::empty(),
            status: STATUS_INTERNAL_SERVER_ERROR,
            body: failure_body(message),
        },
    }
}

/// Handles one request to the listing route, given what the listing query
/// returned for it.
pub fn list_todos(request: &Request, fetched: Result<Vec<TodoRecord>, AppError>) -> (r:
    HandlerOutcome)
    ensures
        r@ == outcome_of(request.method, request.body@, fetched_view(fetched)),
{
    match fetched {
        Ok(rows) => {
            let printed = render_listing(&rows);
            let r = HandlerOutcome {
                printed,
                response: HttpResponse { status: STATUS_OK, body: String::new() },
            };
            assert(r@.body =~= Seq::<char>::empty());
            r
        },
        Err(e) => {
            let response = e.into_response();
            let r = HandlerOutcome { printed: Vec::new(), response };
            assert(r@.printed =~= Seq::<Seq<char>>::empty());
            r
        },
    }
}

/// Neither the method nor the body of a request changes what is printed or
/// answered: two requests, given the same query result, meet the same outcome.
pub proof fn lemma_request_irrelevant(
    m1: Method,
    b1: Seq<u8>,
    m2: Method,
    b2: Seq<u8>,
    fetched: Result<Seq<TodoItem>, Seq<char>>,
)
    ensures
        outcome_of(m1, b1, fetched) == outcome_of(m2, b2, fetched),
{
}

/// On an empty table the request succeeds: only the header is printed, and the
/// response is 200 with an empty body.
pub proof fn lemma_empty_table(method: Method, body: Seq<u8>)
    ensures
        outcome_of(method, body, Ok(Seq::empty())) == (Outcome {
            printed: seq![LISTING_HEADER@],
            status: STATUS_OK,
            body: Seq::empty(),
        }),
{
    assert(listing_of(Seq::empty()) =~= seq![LISTING_HEADER@]);
}

/// Every failure of the query, whatever its text, ends the same way: nothing is
/// printed, the status is 500, and the body starts with the failure prefix
/// followed by the failure's text.
pub proof fn lemma_failure_is_uniform(method: Method, body: Seq<u8>, message: Seq<char>)
    ensures
        outcome_of(method, body, Err(message)).printed.len() == 0,
        outcome_of(method, body, Err(message)).status == STATUS_INTERNAL_SERVER_ERROR,
        outcome_of(method, body, Err(message)).body.subrange(0, FAILURE_PREFIX@.len() as int)
            == FAILURE_PREFIX@,
        outcome_of(method, body, Err(message)).body.subrange(
            FAILURE_PREFIX@.len() as int,
            outcome_of(method, body, Err(message)).body.len() as int,
        ) == message,
{
    let b = outcome_of(method, body, Err(message)).body;
    assert(b.subrange(0, FAILURE_PREFIX@.len() as int) =~= FAILURE_PREFIX@);
    assert(b.subrange(FAILURE_PREFIX@.len() as int, b.len() as int) =~= message);
}

} // verus!
