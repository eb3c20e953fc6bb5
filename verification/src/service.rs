//! The operations served from a table in memory: each request carried through
//! from the fetch to the response, and what holds of the table afterwards.

use vstd::prelude::*;
use chrono::NaiveDateTime;
use crate::api::forbidden_message;
use crate::api::owns;
use crate::api::ComicsApi;
use crate::api::Step;
use crate::api::CreateResponse;
use crate::api::DeleteResponse;
use crate::api::ErrorResponse;
use crate::api::FindResponse;
use crate::api::PaginateResponse;
use crate::api::ReplaceResponse;
use crate::api::UpdateResponse;
use crate::auth::JwtAuthorization;
use crate::auth::User;
use crate::models::Comic;
use crate::models::NewComicRequest;
use crate::models::ReplaceComic;
use crate::models::UpdateComic;
use crate::paging::arranged;
use crate::paging::effective_page;
use crate::paging::lemma_order_keeps_rows;
use crate::paging::lemma_page_item;
use crate::paging::lemma_page_length;
use crate::paging::lemma_query_offset_selects_the_page;
use crate::paging::lemma_sorted_by_price_is_ordered;
use crate::paging::ordered_by_price;
use crate::paging::page_of;
use crate::paging::page_offset;
use crate::paging::position_on_page;
use crate::paging::price_in_order;
use crate::paging::requested_page;
use crate::paging::OrderDirection;
use crate::paging::PAGE_SIZE;
use crate::store::distinct_ids;
use crate::store::lemma_lookup_finds;
use crate::store::lemma_position_found;
use crate::store::lemma_position_from;
use crate::store::lookup;
use crate::store::position_of;
use crate::store::rows_after_delete;
use crate::store::rows_after_patch;
use crate::store::rows_after_replace;
use crate::store::ComicTable;
use crate::store::StoreError;

verus! {

/// The records that a list request for `page` in the order `order` shows of
/// `rows`: the page, counted in exact numbers whatever page is named, of the
/// records in the order asked for.
pub open spec fn listing(rows: Seq<Comic>, page: Option<i64>, order: Option<OrderDirection>) -> Seq<
    Comic,
> {
    page_of(arranged(rows, order), effective_page(requested_page(page)))
}

/// Whether `body` reports the failure `error` of the store.
pub open spec fn tells(body: ErrorResponse, error: StoreError) -> bool {
    body.message@ == error.text()
}

/// The table's answer as the operations take it: a failure by its message.
pub fn told<T>(answer: Result<T, StoreError>) -> (said: Result<T, String>)
    ensures
        match answer {
            Ok(value) => said == Ok::<T, String>(value),
            Err(error) => said matches Err(message) && message@ == error.text(),
        },
{
    match answer {
        Ok(value) => Ok(value),
        Err(error) => Err(error.message()),
    }
}

/// Serves a list request: the page asked for, in the order asked for,
/// whoever asks and whatever page is named. A page behind the end of the
/// table is empty.
pub fn serve_list(
    table: &ComicTable,
    page: Option<i64>,
    order_price: Option<OrderDirection>,
    jwt: &JwtAuthorization,
) -> (response: PaginateResponse)
    requires
        table.wf(),
    ensures
        response matches PaginateResponse::Success(comics) && comics@ == listing(
            table@,
            page,
            order_price,
        ),
        response.status_code() == 200,
        page_offset(effective_page(requested_page(page))) >= table@.len() ==> (response
            matches PaginateResponse::Success(comics) && comics@.len() == 0),
{
    let query = ComicsApi.get_comics(page, order_price, jwt);
    proof {
        lemma_order_keeps_rows(table@, order_price);
        lemma_page_length(arranged(table@, order_price), effective_page(requested_page(page)));
        lemma_query_offset_selects_the_page(
            arranged(table@, order_price),
            requested_page(page),
        );
    }
    PaginateResponse::from_store(Ok(table.list(&query)))
}

/// Serves a create request at the time `at`: the new record belongs to the
/// requester and is returned as the table holds it. When the table has no
/// identifier left, the failure is reported and nothing changes.
pub fn serve_create(
    table: &mut ComicTable,
    comic_data: NewComicRequest,
    jwt: JwtAuthorization,
    at: NaiveDateTime,
) -> (response: CreateResponse)
    requires
        old(table).wf(),
    ensures
        final(table).wf(),
        old(table).next_id() < i32::MAX ==> {
            let record = comic_data.owned_by(jwt.0.username).stored(
                old(table).next_id() as i32,
                at,
            );
            &&& response == CreateResponse::Created(record)
            &&& final(table)@ == old(table)@.push(record)
            &&& final(table).next_id() == old(table).next_id() + 1
        },
        old(table).next_id() == i32::MAX ==> {
            &&& response matches CreateResponse::ServerError(body) && tells(
                body,
                StoreError::OutOfIdentifiers,
            )
            &&& final(table)@ == old(table)@
            &&& final(table).next_id() == old(table).next_id()
        },
{
    let new = ComicsApi.create_comic(comic_data, jwt);
    CreateResponse::from_store(told(table.insert(new, at)))
}

/// Serves a request for one record: the record, whoever owns it and whoever
/// asks, or the failure to find it.
pub fn serve_read(table: &ComicTable, id: i32, jwt: &JwtAuthorization) -> (response: FindResponse)
    ensures
        match lookup(table@, id) {
            Some(comic) => response == FindResponse::Success(comic),
            None => response matches FindResponse::ServerError(body) && tells(
                body,
                StoreError::NotFound,
            ),
        },
{
    ComicsApi.get_comic_by_id(told(table.find(id)), jwt)
}

/// Serves a full replacement at the time `at`. Only the owner's request
/// changes the table: a record that is not there is reported as a failure of
/// the store, and anyone else is refused.
pub fn serve_replace(
    table: &mut ComicTable,
    id: i32,
    comic_data: ReplaceComic,
    jwt: &JwtAuthorization,
    at: NaiveDateTime,
) -> (response: ReplaceResponse)
    requires
        old(table).wf(),
    ensures
        final(table).wf(),
        final(table).next_id() == old(table).next_id(),
        match lookup(old(table)@, id) {
            None => {
                &&& response matches ReplaceResponse::ServerError(body) && tells(
                    body,
                    StoreError::NotFound,
                )
                &&& final(table)@ == old(table)@
            },
            Some(comic) => if owns(jwt.0, comic.username@) {
                &&& response == ReplaceResponse::Success(comic.replaced(comic_data, at))
                &&& final(table)@ == rows_after_replace(old(table)@, id, comic_data, at)
            } else {
                &&& response matches ReplaceResponse::Forbidden(body) && body.message@
                    == forbidden_message()
                &&& final(table)@ == old(table)@
            },
        },
{
    proof {
        lemma_position_found(table@, id, 0);
    }
    match ComicsApi.replace_comic(told(table.find(id)), jwt) {
        Step::Respond(response) => response,
        Step::Write(record) => ReplaceResponse::from_store(
            told(table.replace(record, comic_data, at)),
        ),
    }
}

/// Serves a partial update at the time `at`. Only the owner's request changes
/// the table: a record that is not there is reported as a failure of the
/// store, and anyone else is refused. The owner's update that names no field
/// succeeds with the record as it is, and changes nothing.
pub fn serve_update(
    table: &mut ComicTable,
    id: i32,
    comic_data: UpdateComic,
    jwt: &JwtAuthorization,
    at: NaiveDateTime,
) -> (response: UpdateResponse)
    requires
        old(table).wf(),
    ensures
        final(table).wf(),
        final(table).next_id() == old(table).next_id(),
        match lookup(old(table)@, id) {
            None => {
                &&& response matches UpdateResponse::ServerError(body) && tells(
                    body,
                    StoreError::NotFound,
                )
                &&& final(table)@ == old(table)@
            },
            Some(comic) => if !owns(jwt.0, comic.username@) {
                &&& response matches UpdateResponse::Forbidden(body) && body.message@
                    == forbidden_message()
                &&& final(table)@ == old(table)@
            } else if comic_data.changes_nothing() {
                &&& response == UpdateResponse::Success(comic)
                &&& final(table)@ == old(table)@
            } else {
                &&& response == UpdateResponse::Success(comic.patched(comic_data, at))
                &&& final(table)@ == rows_after_patch(old(table)@, id, comic_data, at)
            },
        },
{
    proof {
        lemma_position_found(table@, id, 0);
    }
    match ComicsApi.update_comic(told(table.find(id)), &comic_data, jwt) {
        Step::Respond(response) => response,
        Step::Write(record) => UpdateResponse::from_store(
            told(table.patch(record, comic_data, at)),
        ),
    }
}

/// Serves a delete request. Only the owner's request changes the table: a
/// record that is not there is reported as a failure of the store, and anyone
/// else is refused. After the owner's request the record is gone.
pub fn serve_delete(table: &mut ComicTable, id: i32, jwt: &JwtAuthorization) -> (response:
    DeleteResponse)
    requires
        old(table).wf(),
    ensures
        final(table).wf(),
        final(table).next_id() == old(table).next_id(),
        match lookup(old(table)@, id) {
            None => {
                &&& response matches DeleteResponse::ServerError(body) && tells(
                    body,
                    StoreError::NotFound,
                )
                &&& final(table)@ == old(table)@
            },
            Some(comic) => if owns(jwt.0, comic.username@) {
                &&& response == DeleteResponse::Success
                &&& final(table)@ == rows_after_delete(old(table)@, id)
                &&& lookup(final(table)@, id) is None
            } else {
                &&& response matches DeleteResponse::Forbidden(body) && body.message@
                    == forbidden_message()
                &&& final(table)@ == old(table)@
            },
        },
{
    proof {
        lemma_position_found(table@, id, 0);
        lemma_deleted_record_is_gone(table@, id);
    }
    match ComicsApi.delete_comic(told(table.find(id)), jwt) {
        Step::Respond(response) => response,
        Step::Write(record) => DeleteResponse::from_store(Ok(table.delete(record))),
    }
}

/// What a list request shows, whatever page it names: never more than a page;
/// records of the store only; in the order asked for, so that ascending no
/// price is followed by a lower one and descending none by a higher one; and
/// as many records as the store has left behind the pages before.
pub proof fn lemma_listing_is_bounded_and_ordered(
    rows: Seq<Comic>,
    page: Option<i64>,
    order: Option<OrderDirection>,
)
    ensures
        ({
            let shown = listing(rows, page, order);
            let before = page_offset(effective_page(requested_page(page)));
            &&& shown.len() == if before + PAGE_SIZE <= rows.len() {
                PAGE_SIZE as int
            } else if before <= rows.len() {
                rows.len() - before
            } else {
                0
            }
            &&& forall|i: int| 0 <= i < shown.len() ==> rows.contains(#[trigger] shown[i])
            &&& order matches Some(direction) ==> ordered_by_price(shown, direction)
            &&& order == Some(OrderDirection::Asc) ==> forall|i: int|
                0 <= i && i + 1 < shown.len() ==> (#[trigger] shown[i]).price.rank() <= shown[i
                    + 1].price.rank()
            &&& order == Some(OrderDirection::Desc) ==> forall|i: int|
                0 <= i && i + 1 < shown.len() ==> (#[trigger] shown[i]).price.rank() >= shown[i
                    + 1].price.rank()
        }),
{
    let number = effective_page(requested_page(page));
    let all = arranged(rows, order);
    let shown = listing(rows, page, order);
    lemma_order_keeps_rows(rows, order);
    lemma_page_length(all, number);
    assert forall|i: int| 0 <= i < shown.len() implies rows.contains(#[trigger] shown[i]) by {
        lemma_page_item(all, number, i);
        assert(all.contains(all[position_on_page(number, i)]));
        vstd::seq_lib::to_multiset_contains(all, shown[i]);
        vstd::seq_lib::to_multiset_contains(rows, shown[i]);
    }
    match order {
        Some(direction) => {
            lemma_sorted_by_price_is_ordered(rows, direction);
            assert forall|i: int, j: int| 0 <= i < j < shown.len() implies price_in_order(
                #[trigger] shown[i],
                #[trigger] shown[j],
                direction,
            ) by {
                lemma_page_item(all, number, i);
                lemma_page_item(all, number, j);
            }
            assert forall|i: int| 0 <= i && i + 1 < shown.len() implies price_in_order(
                #[trigger] shown[i],
                shown[i + 1],
                direction,
            ) by {
                assert(price_in_order(shown[i], shown[i + 1], direction));
            }
        },
        None => {},
    }
}

/// Without an order, a list request shows the store's own order: the records
/// at the page's offset, as the store holds them, and none of them twice in a
/// store whose records have identifiers of their own.
pub proof fn lemma_listing_without_order(rows: Seq<Comic>, page: Option<i64>)
    ensures
        ({
            let shown = listing(rows, page, None);
            let number = effective_page(requested_page(page));
            &&& shown == page_of(rows, number)
            &&& shown.to_multiset() == page_of(rows, number).to_multiset()
            &&& forall|i: int|
                0 <= i < shown.len() ==> #[trigger] shown[i] == rows[position_on_page(number, i)]
            &&& distinct_ids(rows) ==> distinct_ids(shown)
        }),
{
    let shown = listing(rows, page, None);
    let number = effective_page(requested_page(page));
    assert forall|i: int| 0 <= i < shown.len() implies #[trigger] shown[i] == rows[position_on_page(
        number,
        i,
    )] by {
        lemma_page_item(rows, number, i);
    }
    if distinct_ids(rows) {
        assert forall|i: int, j: int| 0 <= i < j < shown.len() implies (#[trigger] shown[i]).id != (
        #[trigger] shown[j]).id by {
            lemma_page_item(rows, number, i);
            lemma_page_item(rows, number, j);
        }
    }
}

/// A record that was created is read back as it was stored: under the
/// identifier that the table gave it, owned by the requester, and with the
/// grade and the price of the body, bit for bit.
pub proof fn lemma_created_record_is_read_back(
    table: ComicTable,
    body: NewComicRequest,
    requester: User,
    at: NaiveDateTime,
)
    requires
        table.wf(),
        table.next_id() < i32::MAX,
    ensures
        ({
            let record = body.owned_by(requester.username).stored(table.next_id() as i32, at);
            &&& lookup(table@.push(record), record.id) == Some(record)
            &&& record.username == requester.username
            &&& record.grade == body.grade
            &&& record.price == body.price
        }),
{
    let record = body.owned_by(requester.username).stored(table.next_id() as i32, at);
    let rows = table@.push(record);
    assert(distinct_ids(rows));
    lemma_lookup_finds(rows, rows.len() - 1);
}

/// Once the record with an identifier is deleted, no record has the
/// identifier: the next fetch fails.
pub proof fn lemma_deleted_record_is_gone(rows: Seq<Comic>, id: i32)
    requires
        distinct_ids(rows),
    ensures
        lookup(rows_after_delete(rows, id), id) is None,
{
    lemma_position_found(rows, id, 0);
    let found = position_of(rows, id, 0);
    let after = rows_after_delete(rows, id);
    if found < rows.len() {
        assert forall|k: int| 0 <= k < after.len() implies (#[trigger] after[k]).id != id by {
            if k < found {
                assert(after[k] == rows[k]);
            } else {
                assert(after[k] == rows[k + 1]);
            }
        }
    }
    lemma_position_from(after, id, 0, after.len() as int);
}

/// Replacing a record twice with the same body leaves the fields that the
/// first replacement left: the second changes at most the time of the last
/// write, and not even that when both are written at the same time.
pub proof fn lemma_replace_is_idempotent(
    rows: Seq<Comic>,
    id: i32,
    data: ReplaceComic,
    first: NaiveDateTime,
    second: NaiveDateTime,
)
    ensures
        ({
            let once = rows_after_replace(rows, id, data, first);
            let twice = rows_after_replace(once, id, data, second);
            &&& twice.len() == once.len()
            &&& forall|k: int|
                0 <= k < once.len() ==> (#[trigger] once[k]).same_but_for_update_time(twice[k])
            &&& first == second ==> twice == once
            &&& lookup(rows, id) matches Some(comic) ==> {
                &&& lookup(once, id) == Some(comic.replaced(data, first))
                &&& lookup(twice, id) == Some(comic.replaced(data, second))
            }
        }),
{
    lemma_position_found(rows, id, 0);
    let found = position_of(rows, id, 0);
    let once = rows_after_replace(rows, id, data, first);
    if found < rows.len() {
        lemma_position_from(once, id, 0, found);
        let twice = rows_after_replace(once, id, data, second);
        lemma_position_from(twice, id, 0, found);
        assert(twice == once.update(found, once[found].replaced(data, second)));
        if first == second {
            assert(twice == once);
        }
    } else {
        lemma_position_from(once, id, 0, once.len() as int);
    }
}

} // verus!
