use crate::ids::Uuid;
use crate::routes::commands::{Command, CommandView, Reply, Response, ResponseView};
use crate::routes::rows::{PaginatedGetQueryParams, PaginatedResponse, Rows};
use crate::routes::workflow::Workflow;
use vstd::prelude::*;

verus! {

/// How many datapoints a page holds if the request does not say.
pub const DEFAULT_PAGE_SIZE: usize = 50;

/// A size as the database takes it: a size beyond the signed range counts from its lower end.
pub open spec fn as_signed(size: usize) -> int {
    if size <= i64::MAX {
        size as int
    } else {
        size - 0x1_0000_0000_0000_0000
    }
}

/// How many datapoints the page holds.
pub open spec fn page_limit(params: PaginatedGetQueryParams) -> int {
    as_signed(
        match params.page_size {
            Some(size) => size,
            None => DEFAULT_PAGE_SIZE,
        },
    )
}

/// How many datapoints come before the page.
pub open spec fn page_offset(params: PaginatedGetQueryParams) -> int {
    page_limit(params) * as_signed(params.page_number)
}

/// Whether the offset of the page is in the range of the database. Where size and number are
/// small it always is.
pub open spec fn offset_fits(params: PaginatedGetQueryParams) -> bool {
    ||| 0 <= page_limit(params) <= i32::MAX && 0 <= as_signed(params.page_number) <= i32::MAX
    ||| i64::MIN <= page_offset(params) <= i64::MAX
}

/// The offset fits exactly when it is in the range of the database.
pub proof fn law_offset_fits_its_range(params: PaginatedGetQueryParams)
    ensures
        offset_fits(params) <==> i64::MIN <= page_offset(params) <= i64::MAX,
{
    let limit = page_limit(params);
    let number = as_signed(params.page_number);
    if 0 <= limit <= i32::MAX && 0 <= number <= i32::MAX {
        assert(0 <= limit * number <= 0x7fff_ffff_ffff_ffff) by (nonlinear_arith)
            requires
                0 <= limit <= 0x7fff_ffff,
                0 <= number <= 0x7fff_ffff,
        ;
    }
}

/// A size as the database takes it.
fn signed(size: usize) -> (value: i64)
    ensures
        value == as_signed(size),
{
    assert(size <= 0x7fff_ffff_ffff_ffff ==> size as i64 == size) by (bit_vector);
    assert(size > 0x7fff_ffff_ffff_ffff ==> size as i64 == size - 0x1_0000_0000_0000_0000)
        by (bit_vector);
    #[verifier::truncate]
    (size as i64)
}

impl PaginatedGetQueryParams {
    /// How many datapoints the page holds.
    pub fn limit(&self) -> (limit: i64)
        ensures
            limit == page_limit(*self),
    {
        signed(self.page_size.unwrap_or(DEFAULT_PAGE_SIZE))
    }

    /// Whether the offset of the page is in the range of the database.
    pub fn has_offset(&self) -> (answer: bool)
        ensures
            answer == offset_fits(*self),
    {
        proof {
            law_offset_fits_its_range(*self);
        }
        let limit = self.limit() as i128;
        let number = signed(self.page_number) as i128;
        assert(-0x8000_0000_0000_0000_0000_0000_0000_0000 <= limit * number
            <= 0x7fff_ffff_ffff_ffff_ffff_ffff_ffff_ffff) by (nonlinear_arith)
            requires
                -0x8000_0000_0000_0000 <= limit <= 0x7fff_ffff_ffff_ffff,
                -0x8000_0000_0000_0000 <= number <= 0x7fff_ffff_ffff_ffff,
        ;
        let offset: i128 = limit * number;
        i64::MIN as i128 <= offset && offset <= i64::MAX as i128
    }
}

/// Looks up one page of the datapoints of a dataset, and how many there are.
pub enum GetDatapoints<T: Rows> {
    FetchingPage { dataset_id: Uuid, limit: i64, offset: i64 },
    Counting { dataset_id: Uuid, items: Vec<T::DatapointView> },
    Done { page: PaginatedResponse<T::DatapointView> },
}

/// Starts the look-up of a page.
pub fn get_datapoints<T: Rows>(dataset_id: Uuid, params: PaginatedGetQueryParams) -> (handler:
    GetDatapoints<T>)
    requires
        offset_fits(params),
    ensures
        handler == (GetDatapoints::<T>::FetchingPage {
            dataset_id,
            limit: page_limit(params) as i64,
            offset: page_offset(params) as i64,
        }),
{
    proof {
        law_offset_fits_its_range(params);
    }
    let limit = params.limit();
    let offset: i64 = limit * signed(params.page_number);
    GetDatapoints::FetchingPage { dataset_id, limit, offset }
}

impl<T: Rows> Workflow<T> for GetDatapoints<T> {
    open spec fn current(self) -> CommandView<T> {
        match self {
            GetDatapoints::FetchingPage { dataset_id, limit, offset } => {
                CommandView::GetDatapoints { dataset_id, limit, offset }
            },
            GetDatapoints::Counting { dataset_id, .. } => CommandView::CountDatapoints {
                dataset_id,
            },
            GetDatapoints::Done { page } => CommandView::Respond(
                ResponseView::Page {
                    items: page.items@,
                    total_count: page.total_count,
                    any_in_project: page.any_in_project,
                },
            ),
        }
    }

    open spec fn next(self, reply: Reply<T>) -> Result<GetDatapoints<T>, T::Error> {
        match (self, reply) {
            (_, Reply::Failed(error)) => Err(error),
            (GetDatapoints::FetchingPage { dataset_id, .. }, Reply::Page(items)) => Ok(
                GetDatapoints::Counting { dataset_id, items },
            ),
            (GetDatapoints::Counting { items, .. }, Reply::Count(total_count)) => Ok(
                GetDatapoints::Done {
                    page: PaginatedResponse { items, total_count, any_in_project: true },
                },
            ),
            _ => Ok(self),
        }
    }

    open spec fn remaining(self) -> nat {
        match self {
            GetDatapoints::FetchingPage { .. } => 2,
            GetDatapoints::Counting { .. } => 1,
            GetDatapoints::Done { .. } => 0,
        }
    }

    fn command(&self) -> (command: Command<'_, T>) {
        match self {
            GetDatapoints::FetchingPage { dataset_id, limit, offset } => Command::GetDatapoints {
                dataset_id: *dataset_id,
                limit: *limit,
                offset: *offset,
            },
            GetDatapoints::Counting { dataset_id, .. } => Command::CountDatapoints {
                dataset_id: *dataset_id,
            },
            GetDatapoints::Done { page } => Command::Respond(Response::Page(page)),
        }
    }

    fn step(self, reply: Reply<T>) -> (outcome: Result<GetDatapoints<T>, T::Error>) {
        match (self, reply) {
            (_, Reply::Failed(error)) => Err(error),
            (GetDatapoints::FetchingPage { dataset_id, .. }, Reply::Page(items)) => {
                Ok(GetDatapoints::Counting { dataset_id, items })
            },
            (GetDatapoints::Counting { items, .. }, Reply::Count(total_count)) => {
                let page = PaginatedResponse { items, total_count, any_in_project: true };
                Ok(GetDatapoints::Done { page })
            },
            (handler, _) => Ok(handler),
        }
    }

    proof fn law_failures_are_handed_on(self, error: T::Error) {
    }

    proof fn law_errors_come_from_outside(self, reply: Reply<T>) {
    }

    proof fn law_end(self) {
    }

    proof fn law_progress(self, reply: Reply<T>) {
    }
}

/// The page is as large as was asked for, and of fifty datapoints if nothing was said. A size
/// beyond the signed range counts from its lower end.
pub proof fn law_page_has_the_size_asked_for(params: PaginatedGetQueryParams, limit: i64)
    requires
        call_ensures(PaginatedGetQueryParams::limit, (&params,), limit),
    ensures
        params.page_size is None ==> limit == 50,
        params.page_size matches Some(size) ==> {
            &&& size <= i64::MAX ==> limit == size
            &&& size > i64::MAX ==> limit == size - 0x1_0000_0000_0000_0000
        },
{
}

/// The look-up asks for the page of the dataset that was asked for: as many datapoints as the
/// page has, from the one on that the pages before it leave off at.
pub proof fn law_page_starts_where_the_pages_before_end<T: Rows>(
    dataset_id: Uuid,
    params: PaginatedGetQueryParams,
    handler: GetDatapoints<T>,
    command: Command<'_, T>,
)
    requires
        offset_fits(params),
        call_ensures(get_datapoints::<T>, (dataset_id, params), handler),
        call_ensures(<GetDatapoints<T> as Workflow<T>>::command, (&handler,), command),
    ensures
        ({
            let number = if params.page_number <= i64::MAX {
                params.page_number as int
            } else {
                params.page_number - 0x1_0000_0000_0000_0000
            };
            &&& command matches Command::GetDatapoints { dataset_id: looked_up, limit, offset }
            &&& looked_up == dataset_id
            &&& match params.page_size {
                None => limit == 50 && offset == 50 * number,
                Some(size) => if size <= i64::MAX {
                    limit == size && offset == size * number
                } else {
                    let wrapped = size - 0x1_0000_0000_0000_0000;
                    limit == wrapped && offset == wrapped * number
                },
            }
        }),
{
    law_offset_fits_its_range(params);
}

/// A page can be looked up exactly if the number of datapoints before it, its size times its
/// number, is in the range of the database.
pub proof fn law_pages_within_range_can_be_looked_up<T: Rows>(
    dataset_id: Uuid,
    params: PaginatedGetQueryParams,
    limit: i64,
    answer: bool,
)
    requires
        call_ensures(PaginatedGetQueryParams::limit, (&params,), limit),
        call_ensures(PaginatedGetQueryParams::has_offset, (&params,), answer),
    ensures
        answer ==> call_requires(get_datapoints::<T>, (dataset_id, params)),
        params.page_number <= i64::MAX ==> (answer <==> i64::MIN <= limit * params.page_number
            <= i64::MAX),
        params.page_number > i64::MAX ==> (answer <==> i64::MIN <= limit * (params.page_number
            - 0x1_0000_0000_0000_0000) <= i64::MAX),
{
    law_offset_fits_its_range(params);
}

/// The pages that two look-ups with the same size and successive numbers ask for follow each
/// other without a gap and without an overlap.
pub proof fn law_successive_pages_adjoin<T: Rows>(
    dataset_id: Uuid,
    params: PaginatedGetQueryParams,
    following: PaginatedGetQueryParams,
    command: Command<'_, T>,
    next_command: Command<'_, T>,
    handler: GetDatapoints<T>,
    next_handler: GetDatapoints<T>,
)
    requires
        following.page_size == params.page_size,
        following.page_number == params.page_number + 1,
        following.page_number <= i64::MAX,
        offset_fits(params),
        offset_fits(following),
        call_ensures(get_datapoints::<T>, (dataset_id, params), handler),
        call_ensures(get_datapoints::<T>, (dataset_id, following), next_handler),
        call_ensures(<GetDatapoints<T> as Workflow<T>>::command, (&handler,), command),
        call_ensures(<GetDatapoints<T> as Workflow<T>>::command, (&next_handler,), next_command),
    ensures
        next_command->GetDatapoints_limit == command->GetDatapoints_limit,
        next_command->GetDatapoints_offset == command->GetDatapoints_offset
            + command->GetDatapoints_limit,
{
    law_offset_fits_its_range(params);
    law_offset_fits_its_range(following);
    let limit = page_limit(params);
    let number = params.page_number as int;
    assert(limit * (number + 1) == limit * number + limit) by (nonlinear_arith);
}

} // verus!
