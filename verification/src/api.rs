//! The operations on the collection: what each asks of the record store, who
//! may change a record, and which response each outcome gets.
//!
//! An operation does not reach the record store itself. Its driver asks the
//! store what the operation tells it to ask, and hands the store's answer
//! back: a record, several, or the message of a failure.

use vstd::prelude::*;
use crate::auth::JwtAuthorization;
use crate::auth::User;
use crate::models::Comic;
use crate::models::NewComic;
use crate::models::NewComicRequest;
use crate::models::UpdateComic;
use crate::paging::build_query;
use crate::paging::query_offset;
use crate::paging::requested_page;
use crate::paging::FetchSpec;
use crate::paging::OrderDirection;
use crate::paging::PageRequest;
use crate::paging::PAGE_SIZE;

verus! {

/// The body of every response that reports a failure.
#[derive(Debug, PartialEq, Eq)]
pub struct ErrorResponse {
    pub message: String,
}

/// What a requester who does not own a record is told, whichever record it is.
pub open spec fn forbidden_message() -> Seq<char> {
    "You do not own this item"@
}

/// What a requester is told when the store removed nothing: the record was
/// there when it was fetched and gone when it was to be deleted.
pub open spec fn nothing_deleted_message() -> Seq<char> {
    "No record was deleted"@
}

/// What a request to change a record does next.
#[derive(Debug, PartialEq)]
pub enum Step<R> {
    /// The store is asked to write under this identifier.
    Write(i32),
    /// The request ends with this response; the store is asked nothing more.
    Respond(R),
}

/// Whether an identity may change a record.
#[derive(Clone, Copy, Debug, PartialEq, Eq)]
pub enum Authorization {
    Allowed,
    Denied,
}

/// Whether `identity` is the owner named `record_owner`.
pub open spec fn owns(identity: User, record_owner: Seq<char>) -> bool {
    identity.username@ == record_owner
}

/// Decides whether `identity` may replace, update or delete a record owned by
/// `record_owner`: the owner may, and nobody else.
pub fn authorize_mutation(identity: &User, record_owner: &String) -> (decision: Authorization)
    ensures
        decision == Authorization::Allowed <==> identity.username@ == record_owner@,
        decision == Authorization::Denied <==> identity.username@ != record_owner@,
{
    if identity.username == *record_owner {
        Authorization::Allowed
    } else {
        Authorization::Denied
    }
}

/// Why a record is not changed.
#[derive(Debug, PartialEq, Eq)]
pub enum Denial {
    /// The requester does not own the record.
    Forbidden,
    /// The record could not be fetched; the store's message says why.
    StoreFailure(String),
}

/// What becomes of a request to change a record once the store has answered
/// the fetch of that record: a failed fetch is reported with the store's
/// message, a record of another owner is refused, and the requester's own
/// record may be changed, under the identifier that the store returned.
pub open spec fn mutation_outcome(found: Result<Comic, String>, identity: User) -> Result<
    i32,
    Denial,
> {
    match found {
        Err(message) => Err(Denial::StoreFailure(message)),
        Ok(comic) => if owns(identity, comic.username@) {
            Ok(comic.id)
        } else {
            Err(Denial::Forbidden)
        },
    }
}

/// Computes [`mutation_outcome`].
pub fn authorize_fetched(found: Result<Comic, String>, identity: &User) -> (outcome: Result<
    i32,
    Denial,
>)
    ensures
        outcome == mutation_outcome(found, *identity),
{
    match found {
        Err(message) => Err(Denial::StoreFailure(message)),
        Ok(comic) => match authorize_mutation(identity, &comic.username) {
            Authorization::Allowed => Ok(comic.id),
            Authorization::Denied => Err(Denial::Forbidden),
        },
    }
}

/// The body that tells a requester that the record is not theirs.
pub fn forbidden() -> (body: ErrorResponse)
    ensures
        body.message@ == forbidden_message(),
{
    ErrorResponse { message: "You do not own this item".to_owned() }
}

/// The response to a list request.
#[derive(Debug, PartialEq)]
pub enum PaginateResponse {
    Success(Vec<Comic>),
    ServerError(ErrorResponse),
}

/// The response to a create request.
#[derive(Debug, PartialEq)]
pub enum CreateResponse {
    Created(Comic),
    ServerError(ErrorResponse),
}

/// The response to a request for one record.
#[derive(Debug, PartialEq)]
pub enum FindResponse {
    Success(Comic),
    ServerError(ErrorResponse),
}

/// The response to a full replacement.
#[derive(Debug, PartialEq)]
pub enum ReplaceResponse {
    Success(Comic),
    Forbidden(ErrorResponse),
    ServerError(ErrorResponse),
}

/// The response to a partial update.
#[derive(Debug, PartialEq)]
pub enum UpdateResponse {
    Success(Comic),
    Forbidden(ErrorResponse),
    ServerError(ErrorResponse),
}

/// The response to a delete request. Success has no body.
#[derive(Debug, PartialEq)]
pub enum DeleteResponse {
    Success,
    Forbidden(ErrorResponse),
    ServerError(ErrorResponse),
}

impl PaginateResponse {
    /// The HTTP status of the response.
    pub open spec fn status_code(self) -> u16 {
        match self {
            PaginateResponse::Success(_) => 200,
            PaginateResponse::ServerError(_) => 500,
        }
    }

    /// Computes [`PaginateResponse::status_code`].
    pub fn status(&self) -> (code: u16)
        ensures
            code == self.status_code(),
    {
        match self {
            PaginateResponse::Success(_) => 200,
            PaginateResponse::ServerError(_) => 500,
        }
    }

    /// The response for the store's answer to the fetch: the records as the
    /// store returned them, or its message.
    pub fn from_store(listed: Result<Vec<Comic>, String>) -> (response: PaginateResponse)
        ensures
            response == (match listed {
                Ok(comics) => PaginateResponse::Success(comics),
                Err(message) => PaginateResponse::ServerError((ErrorResponse { message })),
            }),
    {
        match listed {
            Ok(comics) => PaginateResponse::Success(comics),
            Err(message) => PaginateResponse::ServerError(ErrorResponse { message }),
        }
    }
}

impl CreateResponse {
    /// The HTTP status of the response.
    pub open spec fn status_code(self) -> u16 {
        match self {
            CreateResponse::Created(_) => 201,
            CreateResponse::ServerError(_) => 500,
        }
    }

    /// Computes [`CreateResponse::status_code`].
    pub fn status(&self) -> (code: u16)
        ensures
            code == self.status_code(),
    {
        match self {
            CreateResponse::Created(_) => 201,
            CreateResponse::ServerError(_) => 500,
        }
    }

    /// The response for the store's answer to the insert: the record as the
    /// store holds it, or its message.
    pub fn from_store(inserted: Result<Comic, String>) -> (response: CreateResponse)
        ensures
            response == (match inserted {
                Ok(comic) => CreateResponse::Created(comic),
                Err(message) => CreateResponse::ServerError((ErrorResponse { message })),
            }),
    {
        match inserted {
            Ok(comic) => CreateResponse::Created(comic),
            Err(message) => CreateResponse::ServerError(ErrorResponse { message }),
        }
    }
}

impl FindResponse {
    /// The HTTP status of the response.
    pub open spec fn status_code(self) -> u16 {
        match self {
            FindResponse::Success(_) => 200,
            FindResponse::ServerError(_) => 500,
        }
    }

    /// Computes [`FindResponse::status_code`].
    pub fn status(&self) -> (code: u16)
        ensures
            code == self.status_code(),
    {
        match self {
            FindResponse::Success(_) => 200,
            FindResponse::ServerError(_) => 500,
        }
    }

    /// The response for the store's answer to the fetch: the record, or the
    /// store's message. A record that does not exist is a failure of the
    /// store like any other.
    pub fn from_store(found: Result<Comic, String>) -> (response: FindResponse)
        ensures
            response == (match found {
                Ok(comic) => FindResponse::Success(comic),
                Err(message) => FindResponse::ServerError((ErrorResponse { message })),
            }),
    {
        match found {
            Ok(comic) => FindResponse::Success(comic),
            Err(message) => FindResponse::ServerError(ErrorResponse { message }),
        }
    }
}

impl ReplaceResponse {
    /// The HTTP status of the response.
    pub open spec fn status_code(self) -> u16 {
        match self {
            ReplaceResponse::Success(_) => 200,
            ReplaceResponse::Forbidden(_) => 403,
            ReplaceResponse::ServerError(_) => 500,
        }
    }

    /// Whether the response reports `denial`.
    pub open spec fn reports(self, denial: Denial) -> bool {
        match denial {
            Denial::Forbidden => self matches ReplaceResponse::Forbidden(body) && body.message@
                == forbidden_message(),
            Denial::StoreFailure(message) => self == ReplaceResponse::ServerError(
                (ErrorResponse { message }),
            ),
        }
    }

    /// Computes [`ReplaceResponse::status_code`].
    pub fn status(&self) -> (code: u16)
        ensures
            code == self.status_code(),
    {
        match self {
            ReplaceResponse::Success(_) => 200,
            ReplaceResponse::Forbidden(_) => 403,
            ReplaceResponse::ServerError(_) => 500,
        }
    }

    /// The response that reports why the record is not replaced.
    pub fn from_denial(denial: Denial) -> (response: ReplaceResponse)
        ensures
            response.reports(denial),
    {
        match denial {
            Denial::Forbidden => ReplaceResponse::Forbidden(forbidden()),
            Denial::StoreFailure(message) => ReplaceResponse::ServerError(
                ErrorResponse { message },
            ),
        }
    }

    /// The response for the store's answer to the write: the record as the
    /// store holds it now, or its message.
    pub fn from_store(updated: Result<Comic, String>) -> (response: ReplaceResponse)
        ensures
            response == (match updated {
                Ok(comic) => ReplaceResponse::Success(comic),
                Err(message) => ReplaceResponse::ServerError((ErrorResponse { message })),
            }),
    {
        match updated {
            Ok(comic) => ReplaceResponse::Success(comic),
            Err(message) => ReplaceResponse::ServerError(ErrorResponse { message }),
        }
    }
}

impl UpdateResponse {
    /// The HTTP status of the response.
    pub open spec fn status_code(self) -> u16 {
        match self {
            UpdateResponse::Success(_) => 200,
            UpdateResponse::Forbidden(_) => 403,
            UpdateResponse::ServerError(_) => 500,
        }
    }

    /// Whether the response reports `denial`.
    pub open spec fn reports(self, denial: Denial) -> bool {
        match denial {
            Denial::Forbidden => self matches UpdateResponse::Forbidden(body) && body.message@
                == forbidden_message(),
            Denial::StoreFailure(message) => self == UpdateResponse::ServerError(
                (ErrorResponse { message }),
            ),
        }
    }

    /// Computes [`UpdateResponse::status_code`].
    pub fn status(&self) -> (code: u16)
        ensures
            code == self.status_code(),
    {
        match self {
            UpdateResponse::Success(_) => 200,
            UpdateResponse::Forbidden(_) => 403,
            UpdateResponse::ServerError(_) => 500,
        }
    }

    /// The response that reports why the record is not updated.
    pub fn from_denial(denial: Denial) -> (response: UpdateResponse)
        ensures
            response.reports(denial),
    {
        match denial {
            Denial::Forbidden => UpdateResponse::Forbidden(forbidden()),
            Denial::StoreFailure(message) => UpdateResponse::ServerError(ErrorResponse { message }),
        }
    }

    /// The response for the store's answer to the write: the record as the
    /// store holds it now, or its message.
    pub fn from_store(updated: Result<Comic, String>) -> (response: UpdateResponse)
        ensures
            response == (match updated {
                Ok(comic) => UpdateResponse::Success(comic),
                Err(message) => UpdateResponse::ServerError((ErrorResponse { message })),
            }),
    {
        match updated {
            Ok(comic) => UpdateResponse::Success(comic),
            Err(message) => UpdateResponse::ServerError(ErrorResponse { message }),
        }
    }
}

impl DeleteResponse {
    /// The HTTP status of the response.
    pub open spec fn status_code(self) -> u16 {
        match self {
            DeleteResponse::Success => 204,
            DeleteResponse::Forbidden(_) => 403,
            DeleteResponse::ServerError(_) => 500,
        }
    }

    /// Whether the response reports `denial`.
    pub open spec fn reports(self, denial: Denial) -> bool {
        match denial {
            Denial::Forbidden => self matches DeleteResponse::Forbidden(body) && body.message@
                == forbidden_message(),
            Denial::StoreFailure(message) => self == DeleteResponse::ServerError(
                (ErrorResponse { message }),
            ),
        }
    }

    /// Computes [`DeleteResponse::status_code`].
    pub fn status(&self) -> (code: u16)
        ensures
            code == self.status_code(),
    {
        match self {
            DeleteResponse::Success => 204,
            DeleteResponse::Forbidden(_) => 403,
            DeleteResponse::ServerError(_) => 500,
        }
    }

    /// The response that reports why the record is not deleted.
    pub fn from_denial(denial: Denial) -> (response: DeleteResponse)
        ensures
            response.reports(denial),
    {
        match denial {
            Denial::Forbidden => DeleteResponse::Forbidden(forbidden()),
            Denial::StoreFailure(message) => DeleteResponse::ServerError(ErrorResponse { message }),
        }
    }

    /// The response for the store's answer to the delete: success where the
    /// store removed a record, a failure of the store where it removed none,
    /// and the store's message where it failed.
    pub fn from_store(deleted: Result<usize, String>) -> (response: DeleteResponse)
        ensures
            match deleted {
                Ok(count) => if count >= 1 {
                    response == DeleteResponse::Success
                } else {
                    response matches DeleteResponse::ServerError(body) && body.message@
                        == nothing_deleted_message()
                },
                Err(message) => response == DeleteResponse::ServerError(
                    (ErrorResponse { message }),
                ),
            },
    {
        match deleted {
            Ok(count) => if count >= 1 {
                DeleteResponse::Success
            } else {
                DeleteResponse::ServerError(
                    ErrorResponse { message: "No record was deleted".to_owned() },
                )
            },
            Err(message) => DeleteResponse::ServerError(ErrorResponse { message }),
        }
    }
}

/// The endpoint that tells a requester who they are.
#[derive(Clone, Copy, Debug, PartialEq, Eq)]
pub struct AuthApi;

impl AuthApi {
    /// The identity that the request's token carries.
    pub fn get_me(&self, auth: JwtAuthorization) -> (user: User)
        ensures
            user == auth.0,
    {
        auth.0
    }
}

/// The endpoints of the collection.
#[derive(Clone, Copy, Debug, PartialEq, Eq)]
pub struct ComicsApi;

impl ComicsApi {
    /// List: what to fetch for the page and order asked for, whatever the
    /// page. Any requester with an identity may list; nothing depends on who
    /// it is. Without a page the first is meant, a page below 1 is read as
    /// page 1, and a page beyond the last that an offset can count is fetched
    /// from behind the end of every store.
    pub fn get_comics(
        &self,
        page: Option<i64>,
        order_price: Option<OrderDirection>,
        _jwt: &JwtAuthorization,
    ) -> (query: FetchSpec)
        ensures
            query.limit == PAGE_SIZE,
            query.offset == query_offset(requested_page(page)),
            query.order_by_price == order_price,
    {
        let request = PageRequest::new(page, order_price);
        build_query(&request)
    }

    /// Create: what to insert. The new record belongs to the requester,
    /// whatever owner the body names.
    pub fn create_comic(&self, comic_data: NewComicRequest, jwt: JwtAuthorization) -> (new:
        NewComic)
        ensures
            new == comic_data.owned_by(jwt.0.username),
    {
        comic_data.for_user(jwt.0.username)
    }

    /// Read: the response for the store's answer to the fetch of the record.
    /// Any requester with an identity may read any record.
    pub fn get_comic_by_id(
        &self,
        found: Result<Comic, String>,
        _jwt: &JwtAuthorization,
    ) -> (response: FindResponse)
        ensures
            response == (match found {
                Ok(comic) => FindResponse::Success(comic),
                Err(message) => FindResponse::ServerError((ErrorResponse { message })),
            }),
    {
        FindResponse::from_store(found)
    }

    /// Replace, once the store has answered the fetch of the record: either
    /// the identifier under which to write the new fields, or the response
    /// that ends the request. See [`mutation_outcome`].
    pub fn replace_comic(&self, found: Result<Comic, String>, jwt: &JwtAuthorization) -> (next:
        Step<ReplaceResponse>)
        ensures
            match mutation_outcome(found, jwt.0) {
                Ok(id) => next == Step::<ReplaceResponse>::Write(id),
                Err(denial) => next matches Step::Respond(response) && response.reports(denial),
            },
    {
        match authorize_fetched(found, &jwt.0) {
            Ok(id) => Step::Write(id),
            Err(denial) => Step::Respond(ReplaceResponse::from_denial(denial)),
        }
    }

    /// Update, once the store has answered the fetch of the record: either
    /// the identifier under which to write the changed fields, or the response
    /// that ends the request. See [`mutation_outcome`]. The owner's update
    /// that names no field has nothing to write: it ends with the record as
    /// it was fetched, and the store is not asked again.
    pub fn update_comic(
        &self,
        found: Result<Comic, String>,
        comic_data: &UpdateComic,
        jwt: &JwtAuthorization,
    ) -> (next: Step<UpdateResponse>)
        ensures
            match mutation_outcome(found, jwt.0) {
                Ok(id) => if comic_data.changes_nothing() {
                    found matches Ok(comic) && next == Step::Respond(UpdateResponse::Success(comic))
                } else {
                    next == Step::<UpdateResponse>::Write(id)
                },
                Err(denial) => next matches Step::Respond(response) && response.reports(denial),
            },
    {
        match found {
            Err(message) => Step::Respond(
                UpdateResponse::from_denial(Denial::StoreFailure(message)),
            ),
            Ok(comic) => match authorize_mutation(&jwt.0, &comic.username) {
                Authorization::Denied => Step::Respond(
                    UpdateResponse::from_denial(Denial::Forbidden),
                ),
                Authorization::Allowed => if comic_data.is_empty() {
                    Step::Respond(UpdateResponse::Success(comic))
                } else {
                    Step::Write(comic.id)
                },
            },
        }
    }

    /// Delete, once the store has answered the fetch of the record: either
    /// the identifier of the record to remove, or the response that ends the
    /// request. See [`mutation_outcome`].
    pub fn delete_comic(&self, found: Result<Comic, String>, jwt: &JwtAuthorization) -> (next:
        Step<DeleteResponse>)
        ensures
            match mutation_outcome(found, jwt.0) {
                Ok(id) => next == Step::<DeleteResponse>::Write(id),
                Err(denial) => next matches Step::Respond(response) && response.reports(denial),
            },
    {
        match authorize_fetched(found, &jwt.0) {
            Ok(id) => Step::Write(id),
            Err(denial) => Step::Respond(DeleteResponse::from_denial(denial)),
        }
    }
}

} // verus!
