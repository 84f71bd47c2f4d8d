use crate::ids::{hyphenated, Uuid};
use serde_json::Value;
use vstd::prelude::*;

verus! {

/// The rows that the database hands out and that the handlers carry along unread, and the
/// form that an outside error has.
pub trait Rows {
    /// A datapoint.
    type Datapoint;

    /// A datapoint as a page of datapoints shows it.
    type DatapointView;

    /// The row of a dataset, whole, as a request for the dataset is answered with it.
    type Record;

    /// An outside error.
    type Error;
}

/// A dataset. `record` is its row. `indexed_on` is what the handlers read of that row: the
/// column by which the dataset's datapoints are indexed, if they are.
pub struct Dataset<T: Rows> {
    pub record: T::Record,
    pub indexed_on: Option<String>,
}

/// A file that was uploaded.
#[derive(Debug)]
pub struct UploadedFile {
    pub filename: String,
    pub is_unstructured: bool,
    pub bytes: Vec<u8>,
}

/// The datapoints that are to be added to a dataset.
#[derive(Debug)]
pub struct CreateDatapointsRequest {
    pub datapoints: Vec<Value>,
}

/// What a datapoint is to hold from now on.
#[derive(Debug)]
pub struct UpdateDatapointRequest {
    pub data: Value,
    pub target: Value,
    pub metadata: Option<Value>,
}

/// The datapoints that are to be deleted.
#[derive(Debug)]
pub struct DeleteDatapointRequest {
    pub ids: Vec<Uuid>,
}

/// The column by which a dataset is to be indexed from now on, if it is to be.
#[derive(Debug)]
pub struct IndexDatasetRequest {
    pub index_column: Option<String>,
}

/// The page that is asked for.
#[derive(Clone, Copy, Debug)]
pub struct PaginatedGetQueryParams {
    pub page_number: usize,
    pub page_size: Option<usize>,
}

/// A page of items, and how many there are in all.
#[derive(Debug)]
pub struct PaginatedResponse<I> {
    pub items: Vec<I>,
    pub total_count: u64,
    pub any_in_project: bool,
}

/// Selects embeddings: those whose field `field` holds `value`.
#[derive(Debug)]
pub struct Filter {
    pub field: String,
    pub value: String,
}

/// A [`Filter`], as mathematics.
#[verifier::ext_equal]
pub struct FilterView {
    pub field: Seq<char>,
    pub value: Seq<char>,
}

impl View for Filter {
    type V = FilterView;

    open spec fn view(&self) -> FilterView {
        FilterView { field: self.field@, value: self.value@ }
    }
}

/// Filters, as mathematics.
pub open spec fn filters_view(filters: Seq<Filter>) -> Seq<FilterView> {
    filters.map_values(|filter: Filter| filter@)
}

/// The filter that selects every embedding of a dataset.
pub open spec fn dataset_filter(dataset_id: Uuid) -> FilterView {
    FilterView { field: "datasource_id"@, value: hyphenated(dataset_id.bits) }
}

/// The filter that selects the embedding of a datapoint.
pub open spec fn datapoint_filter(id: Uuid) -> FilterView {
    FilterView { field: "id"@, value: hyphenated(id.bits) }
}

/// The one filter that selects every embedding of a dataset.
pub fn filters_of_dataset(dataset_id: Uuid) -> (filters: Vec<Filter>)
    ensures
        filters_view(filters@) == seq![dataset_filter(dataset_id)],
{
    let mut filters: Vec<Filter> = Vec::new();
    filters.push(Filter { field: "datasource_id".to_string(), value: dataset_id.to_string() });
    assert(filters_view(filters@) =~= seq![dataset_filter(dataset_id)]);
    filters
}

/// For each datapoint, in order, the filter that selects its embedding.
pub fn filters_of_datapoints(ids: &Vec<Uuid>) -> (filters: Vec<Filter>)
    ensures
        filters_view(filters@) == ids@.map_values(|id: Uuid| datapoint_filter(id)),
{
    let mut filters: Vec<Filter> = Vec::new();
    for i in 0..ids.len()
        invariant
            filters@.len() == i,
            forall|j: int| 0 <= j < i ==> (#[trigger] filters@[j])@ == datapoint_filter(ids@[j]),
    {
        filters.push(Filter { field: "id".to_string(), value: ids[i].to_string() });
    }
    assert(filters_view(filters@) =~= ids@.map_values(|id: Uuid| datapoint_filter(id)));
    filters
}

/// A column, as mathematics.
pub open spec fn column_view(column: Option<String>) -> Option<Seq<char>> {
    match column {
        Some(name) => Some(name@),
        None => None,
    }
}

/// A borrowed column, as mathematics.
pub open spec fn borrowed_column_view(column: Option<&str>) -> Option<Seq<char>> {
    match column {
        Some(name) => Some(name@),
        None => None,
    }
}

/// A column, borrowed.
pub fn borrow_column(column: &Option<String>) -> (borrowed: Option<&str>)
    ensures
        borrowed_column_view(borrowed) == column_view(*column),
{
    match column {
        Some(name) => Some(name.as_str()),
        None => None,
    }
}

/// Whether two columns are the same.
pub fn same_column(a: &Option<String>, b: &Option<String>) -> (answer: bool)
    ensures
        answer == (column_view(*a) == column_view(*b)),
{
    match (a, b) {
        (Some(a), Some(b)) => *a == *b,
        (None, None) => true,
        _ => false,
    }
}

} // verus!
