//! Pages and ordering: from the parameters of a list request to a bounded
//! fetch specification, and what such a specification selects.

use vstd::prelude::*;
use crate::models::Comic;

verus! {

/// The number of records on a page. Callers cannot change it.
pub const PAGE_SIZE: i64 = 10;

/// The last page whose offset a fetch specification can hold.
pub const LAST_PAGE: i64 = 922_337_203_685_477_581;

/// The offset of every page beyond [`LAST_PAGE`]: the largest there is. No
/// store holds that many records, so such a page is empty.
pub const FARTHEST_OFFSET: i64 = 0x7FFF_FFFF_FFFF_FFFF;

/// The direction of an ordering by price.
#[derive(Clone, Copy, Debug, PartialEq, Eq)]
pub enum OrderDirection {
    Asc,
    Desc,
}

/// The parameters of a list request.
#[derive(Clone, Copy, Debug, PartialEq, Eq)]
pub struct PageRequest {
    /// The page asked for; pages are counted from 1.
    pub page: i64,
    /// The ordering by price asked for, if any.
    pub order_by_price: Option<OrderDirection>,
}

/// What the record store is asked to fetch: at most `limit` records after
/// skipping `offset`, ordered by price if `order_by_price` says so and in the
/// order in which the store holds them otherwise.
#[derive(Clone, Copy, Debug, PartialEq, Eq)]
pub struct FetchSpec {
    pub limit: i64,
    pub offset: i64,
    pub order_by_price: Option<OrderDirection>,
}

/// The page that a request stands for: a page below 1 is read as page 1.
pub open spec fn effective_page(page: int) -> int {
    if page < 1 {
        1
    } else {
        page
    }
}

/// The number of records that come before page `page`.
pub open spec fn page_offset(page: int) -> int {
    (page - 1) * PAGE_SIZE
}

/// The offset that a fetch specification holds for the page `page`: the
/// number of records before the page, and [`FARTHEST_OFFSET`] for a page
/// beyond [`LAST_PAGE`]. A page below 1 is read as page 1.
pub open spec fn query_offset(page: int) -> int {
    if page <= LAST_PAGE {
        page_offset(effective_page(page))
    } else {
        FARTHEST_OFFSET as int
    }
}

/// The page that the parameter of a list request names: without one, the
/// first.
pub open spec fn requested_page(page: Option<i64>) -> int {
    match page {
        Some(number) => number as int,
        None => 1,
    }
}

impl PageRequest {
    /// The request for the parameters as they came: without a page, the first.
    pub fn new(page: Option<i64>, order_by_price: Option<OrderDirection>) -> (request: PageRequest)
        ensures
            request.page == requested_page(page),
            request.order_by_price == order_by_price,
    {
        let number: i64 = match page {
            Some(number) => number,
            None => 1,
        };
        PageRequest { page: number, order_by_price }
    }

    /// Whether the offset of the page fits a fetch specification.
    pub open spec fn in_reach(self) -> bool {
        self.page <= LAST_PAGE
    }
}

/// The fetch specification of a list request, whatever page it names: a page
/// of [`PAGE_SIZE`] records, the pages before it skipped, in the order asked
/// for. A page below 1 is read as page 1. For a page beyond [`LAST_PAGE`] the
/// offset is held at [`FARTHEST_OFFSET`], behind the end of every store.
pub fn build_query(request: &PageRequest) -> (query: FetchSpec)
    ensures
        query.limit == PAGE_SIZE,
        query.offset == query_offset(request.page as int),
        request.in_reach() ==> query.offset == page_offset(effective_page(request.page as int)),
        !request.in_reach() ==> query.offset == FARTHEST_OFFSET,
        query.order_by_price == request.order_by_price,
{
    let offset: i64 = if request.page < 1 {
        0
    } else if request.page > LAST_PAGE {
        FARTHEST_OFFSET
    } else {
        (request.page - 1) * PAGE_SIZE
    };
    FetchSpec { limit: PAGE_SIZE, offset, order_by_price: request.order_by_price }
}

/// [`build_query`] where the offset is the number of records before the
/// page: `None` exactly when the page lies beyond [`LAST_PAGE`], so that this
/// number fits no fetch specification.
pub fn checked_build_query(request: &PageRequest) -> (query: Option<FetchSpec>)
    ensures
        query is Some <==> request.in_reach(),
        query matches Some(q) ==> {
            &&& q.limit == PAGE_SIZE
            &&& q.offset == page_offset(effective_page(request.page as int))
            &&& q.order_by_price == request.order_by_price
        },
{
    if request.page <= LAST_PAGE {
        Some(build_query(request))
    } else {
        None
    }
}

/// Whether `first` may stand before `second` when ordering by price in the
/// direction `direction`.
pub open spec fn price_in_order(first: Comic, second: Comic, direction: OrderDirection) -> bool {
    match direction {
        OrderDirection::Asc => first.price.rank() <= second.price.rank(),
        OrderDirection::Desc => first.price.rank() >= second.price.rank(),
    }
}

/// Whether every record of `rows` may stand before all that follow it.
pub open spec fn ordered_by_price(rows: Seq<Comic>, direction: OrderDirection) -> bool {
    forall|i: int, j: int|
        0 <= i < j < rows.len() ==> price_in_order(
            #[trigger] rows[i],
            #[trigger] rows[j],
            direction,
        )
}

/// `sorted` with `row` put behind the last record that may stand before it.
pub open spec fn insert_in_order(sorted: Seq<Comic>, row: Comic, direction: OrderDirection) -> Seq<
    Comic,
>
    decreases sorted.len(),
{
    if sorted.len() == 0 {
        seq![row]
    } else if price_in_order(sorted.last(), row, direction) {
        sorted.push(row)
    } else {
        insert_in_order(sorted.drop_last(), row, direction).push(sorted.last())
    }
}

/// The records of `rows` ordered by price. Records of equal price keep the
/// order in which `rows` holds them.
pub open spec fn sorted_by_price(rows: Seq<Comic>, direction: OrderDirection) -> Seq<Comic>
    decreases rows.len(),
{
    if rows.len() == 0 {
        Seq::empty()
    } else {
        insert_in_order(sorted_by_price(rows.drop_last(), direction), rows.last(), direction)
    }
}

/// The records of `rows` in the order that a fetch specification asks for.
pub open spec fn arranged(rows: Seq<Comic>, order: Option<OrderDirection>) -> Seq<Comic> {
    match order {
        Some(direction) => sorted_by_price(rows, direction),
        None => rows,
    }
}

/// The position in `rows` at which a window with the given offset starts.
pub open spec fn window_start(len: nat, offset: int) -> int {
    if offset < 0 {
        0
    } else if offset > len {
        len as int
    } else {
        offset
    }
}

/// The position in `rows` at which a window with the given offset and limit
/// ends.
pub open spec fn window_end(len: nat, offset: int, limit: int) -> int {
    let start = window_start(len, offset);
    if limit < 0 {
        start
    } else if start + limit > len {
        len as int
    } else {
        start + limit
    }
}

/// At most `limit` items of `rows` after skipping `offset` of them.
pub open spec fn window<T>(rows: Seq<T>, offset: int, limit: int) -> Seq<T> {
    rows.subrange(window_start(rows.len(), offset), window_end(rows.len(), offset, limit))
}

/// Page `page` of `rows`, pages counted from 1.
pub open spec fn page_of<T>(rows: Seq<T>, page: int) -> Seq<T> {
    window(rows, page_offset(page), PAGE_SIZE as int)
}

impl FetchSpec {
    /// What a store that holds `rows`, in this order, returns for the
    /// specification.
    pub open spec fn select(self, rows: Seq<Comic>) -> Seq<Comic> {
        window(arranged(rows, self.order_by_price), self.offset as int, self.limit as int)
    }

    /// Computes [`FetchSpec::select`]: copies of the selected records.
    pub fn apply(&self, rows: &Vec<Comic>) -> (page: Vec<Comic>)
        ensures
            page@ == self.select(rows@),
    {
        match self.order_by_price {
            Some(direction) => {
                let sorted = sort_by_price(rows, direction);
                take_window(&sorted, self.offset, self.limit)
            },
            None => take_window(rows, self.offset, self.limit),
        }
    }
}

/// Computes [`price_in_order`].
pub fn may_precede(first: &Comic, second: &Comic, direction: OrderDirection) -> (b: bool)
    ensures
        b == price_in_order(*first, *second, direction),
{
    match direction {
        OrderDirection::Asc => first.price.sort_key() <= second.price.sort_key(),
        OrderDirection::Desc => first.price.sort_key() >= second.price.sort_key(),
    }
}

/// Computes [`sorted_by_price`]: copies of the records of `rows`, ordered.
pub fn sort_by_price(rows: &Vec<Comic>, direction: OrderDirection) -> (sorted: Vec<Comic>)
    ensures
        sorted@ == sorted_by_price(rows@, direction),
{
    let mut sorted: Vec<Comic> = Vec::new();
    let mut i: usize = 0;
    while i < rows.len()
        invariant
            i <= rows.len(),
            sorted@ == sorted_by_price(rows@.take(i as int), direction),
        decreases rows.len() - i,
    {
        let row = rows[i].duplicate();
        let mut j: usize = sorted.len();
        while j > 0 && !may_precede(&sorted[j - 1], &row, direction)
            invariant
                j <= sorted.len(),
                forall|k: int|
                    j <= k < sorted.len() ==> !price_in_order(
                        #[trigger] sorted@[k],
                        row,
                        direction,
                    ),
            decreases j,
        {
            j -= 1;
        }
        proof {
            lemma_insert_in_order_at(sorted@, row, direction, j as int);
            let next = rows@.take(i + 1);
            assert(next.drop_last() == rows@.take(i as int));
            assert(next.last() == row);
        }
        sorted.insert(j, row);
        i += 1;
    }
    assert(rows@.take(rows.len() as int) == rows@);
    sorted
}

/// Computes [`window`] on records: copies of the records in the window.
pub fn take_window(rows: &Vec<Comic>, offset: i64, limit: i64) -> (page: Vec<Comic>)
    ensures
        page@ == window(rows@, offset as int, limit as int),
{
    let len: usize = rows.len();
    let start: usize = if offset < 0 {
        0
    } else if offset as u64 > len as u64 {
        len
    } else {
        offset as usize
    };
    let end: usize = if limit < 0 {
        start
    } else if limit as u64 > (len - start) as u64 {
        len
    } else {
        start + limit as usize
    };
    let mut page: Vec<Comic> = Vec::new();
    let mut i: usize = start;
    while i < end
        invariant
            start <= i <= end <= rows.len(),
            page@ == rows@.subrange(start as int, i as int),
        decreases end - i,
    {
        page.push(rows[i].duplicate());
        assert(rows@.subrange(start as int, i as int).push(rows@[i as int]) == rows@.subrange(
            start as int,
            i + 1,
        ));
        i += 1;
    }
    page
}

/// Where [`insert_in_order`] puts a record: at the position `at`, if the
/// record before it may stand before the new one and none from there on may.
pub proof fn lemma_insert_in_order_at(
    sorted: Seq<Comic>,
    row: Comic,
    direction: OrderDirection,
    at: int,
)
    requires
        0 <= at <= sorted.len(),
        at > 0 ==> price_in_order(sorted[at - 1], row, direction),
        forall|k: int|
            at <= k < sorted.len() ==> !price_in_order(#[trigger] sorted[k], row, direction),
    ensures
        insert_in_order(sorted, row, direction) == sorted.insert(at, row),
    decreases sorted.len() - at,
{
    if at == sorted.len() {
        assert(sorted.insert(at, row) == sorted.push(row));
        if sorted.len() == 0 {
            assert(sorted.push(row) == seq![row]);
        }
    } else {
        assert(!price_in_order(sorted[sorted.len() - 1], row, direction));
        lemma_insert_in_order_at(sorted.drop_last(), row, direction, at);
        assert(sorted.drop_last().insert(at, row).push(sorted.last()) == sorted.insert(at, row));
    }
}

/// The position at which [`insert_in_order`] puts a record.
pub proof fn lemma_insert_in_order_position(
    sorted: Seq<Comic>,
    row: Comic,
    direction: OrderDirection,
) -> (at: int)
    ensures
        0 <= at <= sorted.len(),
        at > 0 ==> price_in_order(sorted[at - 1], row, direction),
        forall|k: int|
            at <= k < sorted.len() ==> !price_in_order(#[trigger] sorted[k], row, direction),
        insert_in_order(sorted, row, direction) == sorted.insert(at, row),
    decreases sorted.len(),
{
    if sorted.len() == 0 || price_in_order(sorted.last(), row, direction) {
        lemma_insert_in_order_at(sorted, row, direction, sorted.len() as int);
        sorted.len() as int
    } else {
        let at = lemma_insert_in_order_position(sorted.drop_last(), row, direction);
        assert forall|k: int| at <= k < sorted.len() implies !price_in_order(
            #[trigger] sorted[k],
            row,
            direction,
        ) by {
            if k < sorted.len() - 1 {
                assert(sorted[k] == sorted.drop_last()[k]);
            }
        }
        lemma_insert_in_order_at(sorted, row, direction, at);
        at
    }
}

/// Ordering by price yields what it promises: ascending, a sequence in which
/// no price is followed by a lower one; descending, one in which none is
/// followed by a higher one.
pub proof fn lemma_sorted_by_price_is_ordered(rows: Seq<Comic>, direction: OrderDirection)
    ensures
        ordered_by_price(sorted_by_price(rows, direction), direction),
        direction == OrderDirection::Asc ==> forall|i: int, j: int|
            #![trigger sorted_by_price(rows, direction)[i], sorted_by_price(rows, direction)[j]]
            0 <= i < j < rows.len() ==> sorted_by_price(rows, direction)[i].price.rank()
                <= sorted_by_price(rows, direction)[j].price.rank(),
        direction == OrderDirection::Desc ==> forall|i: int, j: int|
            #![trigger sorted_by_price(rows, direction)[i], sorted_by_price(rows, direction)[j]]
            0 <= i < j < rows.len() ==> sorted_by_price(rows, direction)[i].price.rank()
                >= sorted_by_price(rows, direction)[j].price.rank(),
    decreases rows.len(),
{
    lemma_sorted_by_price_keeps_rows(rows, direction);
    if rows.len() > 0 {
        let before = sorted_by_price(rows.drop_last(), direction);
        lemma_sorted_by_price_is_ordered(rows.drop_last(), direction);
        let at = lemma_insert_in_order_position(before, rows.last(), direction);
        before.insert_ensures(at, rows.last());
        let after = before.insert(at, rows.last());
        assert forall|i: int, j: int| 0 <= i < j < after.len() implies price_in_order(
            #[trigger] after[i],
            #[trigger] after[j],
            direction,
        ) by {
            if j < at {
                assert(after[i] == before[i] && after[j] == before[j]);
            } else if j == at {
                assert(after[i] == before[i]);
                if i < at - 1 {
                    assert(price_in_order(before[i], before[at - 1], direction));
                }
            } else if i < at {
                assert(after[i] == before[i] && after[j] == before[j - 1]);
            } else if i == at {
                assert(after[j] == before[j - 1]);
                assert(!price_in_order(before[j - 1], rows.last(), direction));
            } else {
                assert(after[i] == before[i - 1] && after[j] == before[j - 1]);
            }
        }
    }
}

/// Ordering by price neither adds nor drops a record: the ordered sequence
/// holds the records of `rows`, each as often as `rows` does.
pub proof fn lemma_sorted_by_price_keeps_rows(rows: Seq<Comic>, direction: OrderDirection)
    ensures
        sorted_by_price(rows, direction).len() == rows.len(),
        sorted_by_price(rows, direction).to_multiset() == rows.to_multiset(),
    decreases rows.len(),
{
    if rows.len() == 0 {
        assert(rows == Seq::<Comic>::empty());
    } else {
        let before = sorted_by_price(rows.drop_last(), direction);
        lemma_sorted_by_price_keeps_rows(rows.drop_last(), direction);
        let at = lemma_insert_in_order_position(before, rows.last(), direction);
        before.insert_ensures(at, rows.last());
        vstd::seq_lib::to_multiset_insert(before, at, rows.last());
        vstd::seq_lib::to_multiset_build(rows.drop_last(), rows.last());
        assert(rows.drop_last().push(rows.last()) == rows);
    }
}

/// Putting records in the order asked for neither adds nor drops a record,
/// whatever the order; without an order, the records stay as the store holds
/// them.
pub proof fn lemma_order_keeps_rows(rows: Seq<Comic>, order: Option<OrderDirection>)
    ensures
        arranged(rows, order).len() == rows.len(),
        arranged(rows, order).to_multiset() == rows.to_multiset(),
        arranged(rows, None) == rows,
{
    match order {
        Some(direction) => lemma_sorted_by_price_keeps_rows(rows, direction),
        None => {},
    }
}

/// What a fetch specification selects is bounded by its limit, holds records
/// of the store only, and stands in the order asked for: ascending, no price
/// is followed by a lower one; descending, none is followed by a higher one.
pub proof fn lemma_selection_is_bounded_and_ordered(query: FetchSpec, rows: Seq<Comic>)
    ensures
        query.select(rows).len() <= rows.len(),
        query.limit >= 0 ==> query.select(rows).len() <= query.limit,
        forall|i: int|
            0 <= i < query.select(rows).len() ==> rows.contains(#[trigger] query.select(rows)[i]),
        query.order_by_price matches Some(direction) ==> ordered_by_price(
            query.select(rows),
            direction,
        ),
{
    let all = arranged(rows, query.order_by_price);
    let selected = query.select(rows);
    let start = window_start(all.len(), query.offset as int);
    lemma_order_keeps_rows(rows, query.order_by_price);
    assert forall|i: int| 0 <= i < selected.len() implies rows.contains(#[trigger] selected[i]) by {
        assert(selected[i] == all[start + i]);
        assert(all.contains(all[start + i]));
        vstd::seq_lib::to_multiset_contains(all, all[start + i]);
        vstd::seq_lib::to_multiset_contains(rows, all[start + i]);
    }
    match query.order_by_price {
        Some(direction) => {
            lemma_sorted_by_price_is_ordered(rows, direction);
            assert forall|i: int, j: int| 0 <= i < j < selected.len() implies price_in_order(
                #[trigger] selected[i],
                #[trigger] selected[j],
                direction,
            ) by {
                assert(selected[i] == all[start + i] && selected[j] == all[start + j]);
            }
        },
        None => {},
    }
}

/// For every page, the offset that a fetch specification holds selects the
/// page: of a store that holds no more records than an offset can count, the
/// window at [`query_offset`] is the page, and a page beyond [`LAST_PAGE`] is
/// empty.
pub proof fn lemma_query_offset_selects_the_page<T>(rows: Seq<T>, page: int)
    requires
        rows.len() <= FARTHEST_OFFSET,
    ensures
        window(rows, query_offset(page), PAGE_SIZE as int) == page_of(rows, effective_page(page)),
        page > LAST_PAGE ==> page_of(rows, effective_page(page)).len() == 0,
{
}

/// The length of a page: [`PAGE_SIZE`] while that many records are left
/// behind the pages before it, then what is left, then nothing.
pub proof fn lemma_page_length<T>(rows: Seq<T>, page: int)
    requires
        page >= 1,
    ensures
        page_of(rows, page).len() == if page * PAGE_SIZE <= rows.len() {
            PAGE_SIZE as int
        } else if page_offset(page) <= rows.len() {
            rows.len() - page_offset(page)
        } else {
            0
        },
{
}

/// A page holds the records of `rows` from its offset on, in their order.
pub proof fn lemma_page_item<T>(rows: Seq<T>, page: int, i: int)
    requires
        page >= 1,
        0 <= i < page_of(rows, page).len(),
    ensures
        position_on_page(page, i) < rows.len(),
        page_of(rows, page)[i] == rows[position_on_page(page, i)],
{
}

/// The position in the rows of item `i` of page `page`.
pub open spec fn position_on_page(page: int, i: int) -> int {
    page_offset(page) + i
}

/// Every record of `rows` stands on exactly one page, once: the record at
/// position `k` is item `k % PAGE_SIZE` of page `k / PAGE_SIZE + 1`, and no
/// other place on any page shows position `k`. So two different pages hold no
/// position in common, and the pages together hold every record once.
pub proof fn lemma_pages_partition<T>(rows: Seq<T>, k: int)
    requires
        0 <= k < rows.len(),
    ensures
        k % (PAGE_SIZE as int) < page_of(rows, k / (PAGE_SIZE as int) + 1).len(),
        page_of(rows, k / (PAGE_SIZE as int) + 1)[k % (PAGE_SIZE as int)] == rows[k],
        position_on_page(k / (PAGE_SIZE as int) + 1, k % (PAGE_SIZE as int)) == k,
        forall|page: int, i: int|
            page >= 1 && 0 <= i < page_of(rows, page).len() && #[trigger] position_on_page(page, i)
                == k ==> page == k / (PAGE_SIZE as int) + 1 && i == k % (PAGE_SIZE as int),
{
    let page = k / (PAGE_SIZE as int) + 1;
    assert(page_offset(page) + k % (PAGE_SIZE as int) == k);
    assert forall|other: int, i: int|
        other >= 1 && 0 <= i < page_of(rows, other).len() && #[trigger] position_on_page(other, i)
            == k implies other == page && i == k % (PAGE_SIZE as int) by {
        assert(i < PAGE_SIZE);
        assert((other - 1) * PAGE_SIZE + i == k);
    }
}

/// The first `count` pages of `rows`, one after the other.
pub open spec fn pages_up_to<T>(rows: Seq<T>, count: nat) -> Seq<T>
    decreases count,
{
    if count == 0 {
        Seq::empty()
    } else {
        pages_up_to(rows, (count - 1) as nat) + page_of(rows, count as int)
    }
}

/// Read one after the other, the first `count` pages are the beginning of
/// `rows`, and all of `rows` once the pages reach its end.
pub proof fn lemma_pages_cover<T>(rows: Seq<T>, count: nat)
    ensures
        pages_up_to(rows, count) == rows.take(window_start(rows.len(), count * PAGE_SIZE)),
        count * PAGE_SIZE >= rows.len() ==> pages_up_to(rows, count) == rows,
    decreases count,
{
    if count == 0 {
        assert(rows.take(0) == Seq::<T>::empty());
    } else {
        lemma_pages_cover(rows, (count - 1) as nat);
        let before = window_start(rows.len(), (count - 1) * PAGE_SIZE);
        let upto = window_start(rows.len(), count * PAGE_SIZE);
        assert(page_of(rows, count as int) == rows.subrange(before, upto));
        assert(rows.take(before) + rows.subrange(before, upto) == rows.take(upto));
    }
    if count * PAGE_SIZE >= rows.len() {
        assert(rows.take(rows.len() as int) == rows);
    }
}

} // verus!
