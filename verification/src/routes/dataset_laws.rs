use crate::ids::{hyphenated, law_text_identifies, Uuid};
use crate::routes::commands::{
    answers, Command, CommandView, Points, Reply, Response, ResponseView,
};
use crate::routes::deleting::{
    delete_all_datapoints, delete_datapoints, delete_dataset, DeleteAllDatapoints,
    DeleteDatapoints, DeleteDataset,
};
use crate::routes::indexing::{index_dataset, IndexDataset};
use crate::routes::inserting::{
    create_datapoints, effective_column, update_datapoint_data, upload_datapoint_file,
    CreateDatapoints, UpdateDatapointData, UploadDatapointFile,
};
use crate::routes::paging::{page_limit, page_offset, GetDatapoints};
use crate::routes::rows::{
    borrow_column, column_view, datapoint_filter, dataset_filter, filters_of_datapoints,
    filters_of_dataset, filters_view, same_column, CreateDatapointsRequest, Dataset,
    DeleteDatapointRequest, Filter, FilterView, IndexDatasetRequest, PaginatedGetQueryParams,
    Rows, UpdateDatapointRequest, UploadedFile,
};
use crate::routes::workflow::{transcript, Workflow};
use vstd::prelude::*;

verus! {

/// What the filter of a dataset selects belongs to no other dataset.
pub proof fn law_dataset_filters_are_distinct(a: Uuid, b: Uuid)
    requires
        dataset_filter(a) == dataset_filter(b),
    ensures
        a == b,
{
    law_text_identifies(a, b);
}

/// Deleting the embeddings of some datapoints spares every other datapoint: the filter of a
/// datapoint is among those of `ids` exactly when the datapoint is among them.
pub proof fn law_datapoint_filters_select_the_datapoints(ids: Seq<Uuid>, id: Uuid)
    ensures
        ids.map_values(|id: Uuid| datapoint_filter(id)).contains(datapoint_filter(id))
            <==> ids.contains(id),
{
    let filters = ids.map_values(|id: Uuid| datapoint_filter(id));
    if filters.contains(datapoint_filter(id)) {
        let at = choose|at: int| 0 <= at < filters.len() && filters[at] == datapoint_filter(id);
        law_text_identifies(ids[at], id);
        assert(ids[at] == id);
    }
    if ids.contains(id) {
        let at = choose|at: int| 0 <= at < ids.len() && ids[at] == id;
        assert(filters[at] == datapoint_filter(id));
    }
}

/// The filter of a datapoint is never that of a dataset.
pub proof fn law_filters_of_datapoints_and_datasets_differ(id: Uuid, dataset_id: Uuid)
    ensures
        datapoint_filter(id) != dataset_filter(dataset_id),
{
    reveal_strlit("id");
    reveal_strlit("datasource_id");
    assert("id"@.len() != "datasource_id"@.len());
}

/// The pages of a dataset follow each other without a gap and without an overlap, from its
/// first datapoint on.
pub proof fn law_pages_follow_each_other(page_size: Option<usize>, page_number: usize)
    requires
        page_number < i64::MAX,
        page_number < usize::MAX,
    ensures
        page_offset(PaginatedGetQueryParams { page_number: 0, page_size }) == 0,
        page_offset(
            PaginatedGetQueryParams { page_number: (page_number + 1) as usize, page_size },
        ) == page_offset(PaginatedGetQueryParams { page_number, page_size }) + page_limit(
            PaginatedGetQueryParams { page_number, page_size },
        ),
{
    let limit = page_limit(PaginatedGetQueryParams { page_number, page_size });
    let number = page_number as int;
    assert(limit * (number + 1) == limit * number + limit) by (nonlinear_arith);
    assert(limit * 0 == 0);
}

/// A dataset is deleted from the database first, its embeddings after that, by the filter that
/// selects them all; then the request is answered.
pub proof fn law_delete_dataset<T: Rows>(
    project_id: Uuid,
    dataset_id: Uuid,
    handler: DeleteDataset,
)
    requires
        call_ensures(delete_dataset, (project_id, dataset_id), handler),
    ensures
        transcript::<T, DeleteDataset>(
            handler,
            seq![Reply::Done, Reply::Done],
        ) == seq![
            CommandView::<T>::DeleteDataset { dataset_id },
            CommandView::DeleteEmbeddings {
                project: hyphenated(project_id.bits),
                filters: seq![
                    FilterView { field: "datasource_id"@, value: hyphenated(dataset_id.bits) },
                ],
            },
            CommandView::Respond(ResponseView::Empty),
        ],
{
    reveal_with_fuel(transcript, 3);
    let replies = seq![Reply::<T>::Done, Reply::Done];
    assert(replies.drop_first() =~= seq![Reply::<T>::Done]);
}

/// Datapoints are deleted from the database first, their embeddings after that; then the
/// request is answered.
pub proof fn law_delete_datapoints<T: Rows>(
    project_id: Uuid,
    request: DeleteDatapointRequest,
    handler: DeleteDatapoints,
)
    requires
        call_ensures(delete_datapoints, (project_id, request), handler),
    ensures
        transcript::<T, DeleteDatapoints>(
            handler,
            seq![Reply::Done, Reply::Done],
        ) == seq![
            CommandView::<T>::DeleteDatapoints { ids: request.ids@ },
            CommandView::DeleteEmbeddings {
                project: hyphenated(project_id.bits),
                filters: request.ids@.map_values(
                    |id: Uuid| FilterView { field: "id"@, value: hyphenated(id.bits) },
                ),
            },
            CommandView::Respond(ResponseView::Empty),
        ],
{
    reveal_with_fuel(transcript, 3);
    let replies = seq![Reply::<T>::Done, Reply::Done];
    assert(replies.drop_first() =~= seq![Reply::<T>::Done]);
    assert(request.ids@.map_values(|id: Uuid| datapoint_filter(id)) =~= request.ids@.map_values(
        |id: Uuid| FilterView { field: "id"@, value: hyphenated(id.bits) },
    ));
}

/// Every datapoint of a dataset is deleted from the database first. After that go the
/// embeddings of exactly those datapoints that the database reports as deleted.
pub proof fn law_delete_all_datapoints<T: Rows>(
    project_id: Uuid,
    dataset_id: Uuid,
    handler: DeleteAllDatapoints,
    deleted: Vec<Uuid>,
)
    requires
        call_ensures(delete_all_datapoints, (project_id, dataset_id), handler),
    ensures
        transcript::<T, DeleteAllDatapoints>(
            handler,
            seq![Reply::Ids(deleted), Reply::Done],
        ) == seq![
            CommandView::<T>::DeleteAllDatapoints { dataset_id },
            CommandView::DeleteEmbeddings {
                project: hyphenated(project_id.bits),
                filters: deleted@.map_values(
                    |id: Uuid| FilterView { field: "id"@, value: hyphenated(id.bits) },
                ),
            },
            CommandView::Respond(ResponseView::Empty),
        ],
{
    reveal_with_fuel(transcript, 3);
    let replies = seq![Reply::<T>::Ids(deleted), Reply::Done];
    assert(replies.drop_first() =~= seq![Reply::<T>::Done]);
    assert(deleted@.map_values(|id: Uuid| datapoint_filter(id)) =~= deleted@.map_values(
        |id: Uuid| FilterView { field: "id"@, value: hyphenated(id.bits) },
    ));
}

/// A page is looked up, then the datapoints are counted; the request is answered with both.
pub proof fn law_get_datapoints<T: Rows>(
    dataset_id: Uuid,
    limit: i64,
    offset: i64,
    items: Vec<T::DatapointView>,
    total_count: u64,
)
    ensures
        transcript::<T, GetDatapoints<T>>(
            GetDatapoints::FetchingPage { dataset_id, limit, offset },
            seq![Reply::Page(items), Reply::Count(total_count)],
        ) == seq![
            CommandView::<T>::GetDatapoints { dataset_id, limit, offset },
            CommandView::CountDatapoints { dataset_id },
            CommandView::Respond(
                ResponseView::Page { items: items@, total_count, any_in_project: true },
            ),
        ],
{
    reveal_with_fuel(transcript, 3);
    let replies = seq![Reply::<T>::Page(items), Reply::Count(total_count)];
    assert(replies.drop_first() =~= seq![Reply::<T>::Count(total_count)]);
}

/// The command that indexes `datapoints` of `dataset` on `column`.
pub open spec fn indexing<T: Rows>(
    project_id: Uuid,
    dataset: Dataset<T>,
    datapoints: Seq<T::Datapoint>,
    column: Option<Seq<char>>,
) -> CommandView<T> {
    CommandView::IndexNewPoints {
        dataset,
        datapoints,
        project: hyphenated(project_id.bits),
        index_column: column,
    }
}

/// Datapoints are added to a dataset that was looked up, and indexed on its column if it has
/// one. The request is answered with the datapoints that were added.
pub proof fn law_create_datapoints<T: Rows>(
    project_id: Uuid,
    dataset_id: Uuid,
    request: CreateDatapointsRequest,
    handler: CreateDatapoints<T>,
    dataset: Dataset<T>,
    datapoints: Vec<T::Datapoint>,
)
    requires
        call_ensures(create_datapoints::<T>, (project_id, dataset_id, request), handler),
    ensures
        dataset.indexed_on is Some ==> transcript::<T, CreateDatapoints<T>>(
            handler,
            seq![Reply::Dataset(dataset), Reply::Datapoints(datapoints), Reply::Done],
        ) == seq![
            CommandView::<T>::GetDataset { project_id, dataset_id },
            CommandView::InsertRawData { dataset_id, raw: request.datapoints@ },
            indexing(project_id, dataset, datapoints@, Some(dataset.indexed_on->0@)),
            CommandView::Respond(ResponseView::Datapoints(datapoints@)),
        ],
        dataset.indexed_on is None ==> transcript::<T, CreateDatapoints<T>>(
            handler,
            seq![Reply::Dataset(dataset), Reply::Datapoints(datapoints)],
        ) == seq![
            CommandView::<T>::GetDataset { project_id, dataset_id },
            CommandView::InsertRawData { dataset_id, raw: request.datapoints@ },
            CommandView::Respond(ResponseView::Datapoints(datapoints@)),
        ],
{
    reveal_with_fuel(transcript, 4);
    let three = seq![Reply::<T>::Dataset(dataset), Reply::Datapoints(datapoints), Reply::Done];
    let two = seq![Reply::<T>::Dataset(dataset), Reply::Datapoints(datapoints)];
    assert(three.drop_first() =~= seq![Reply::<T>::Datapoints(datapoints), Reply::Done]);
    assert(three.drop_first().drop_first() =~= seq![Reply::<T>::Done]);
    assert(two.drop_first() =~= seq![Reply::<T>::Datapoints(datapoints)]);
}

/// A datapoint is updated before its dataset is looked up, and indexed, alone, on the column of
/// the dataset if it has one. The request is answered with the datapoint as it was updated.
pub proof fn law_update_datapoint_data<T: Rows>(
    project_id: Uuid,
    dataset_id: Uuid,
    datapoint_id: Uuid,
    request: UpdateDatapointRequest,
    handler: UpdateDatapointData<T>,
    datapoint: T::Datapoint,
    dataset: Dataset<T>,
)
    requires
        call_ensures(
            update_datapoint_data::<T>,
            (project_id, dataset_id, datapoint_id, request),
            handler,
        ),
    ensures
        dataset.indexed_on is Some ==> transcript::<T, UpdateDatapointData<T>>(
            handler,
            seq![Reply::Datapoint(datapoint), Reply::Dataset(dataset), Reply::Done],
        ) == seq![
            CommandView::<T>::UpdateDatapoint {
                datapoint_id,
                data: request.data,
                target: request.target,
                metadata: request.metadata,
            },
            CommandView::GetDataset { project_id, dataset_id },
            indexing(project_id, dataset, seq![datapoint], Some(dataset.indexed_on->0@)),
            CommandView::Respond(ResponseView::Datapoint(datapoint)),
        ],
        dataset.indexed_on is None ==> transcript::<T, UpdateDatapointData<T>>(
            handler,
            seq![Reply::Datapoint(datapoint), Reply::Dataset(dataset)],
        ) == seq![
            CommandView::<T>::UpdateDatapoint {
                datapoint_id,
                data: request.data,
                target: request.target,
                metadata: request.metadata,
            },
            CommandView::GetDataset { project_id, dataset_id },
            CommandView::Respond(ResponseView::Datapoint(datapoint)),
        ],
{
    reveal_with_fuel(transcript, 4);
    let three = seq![Reply::<T>::Datapoint(datapoint), Reply::Dataset(dataset), Reply::Done];
    let two = seq![Reply::<T>::Datapoint(datapoint), Reply::Dataset(dataset)];
    assert(three.drop_first() =~= seq![Reply::<T>::Dataset(dataset), Reply::Done]);
    assert(three.drop_first().drop_first() =~= seq![Reply::<T>::Done]);
    assert(two.drop_first() =~= seq![Reply::<T>::Dataset(dataset)]);
}

/// The first reply leads to the state from which the rest of the replies are taken.
proof fn lemma_first_reply<T: Rows, W: Workflow<T>>(
    start: W,
    reply: Reply<T>,
    rest: Seq<Reply<T>>,
)
    requires
        answers(reply, start.current()),
        start.next(reply) is Ok,
    ensures
        transcript(start, seq![reply] + rest) == seq![start.current()] + transcript(
            start.next(reply)->Ok_0,
            rest,
        ),
{
    assert((seq![reply] + rest).drop_first() =~= rest);
}

/// `item` alone if `wanted`, and nothing otherwise.
pub open spec fn if_wanted<A>(wanted: bool, item: A) -> Seq<A> {
    if wanted {
        seq![item]
    } else {
        Seq::empty()
    }
}

/// What follows the insertion of a file's datapoints: they are indexed if there is a column,
/// and the request is answered with them.
proof fn lemma_upload_ends<T: Rows>(
    project_id: Uuid,
    dataset_id: Uuid,
    file: UploadedFile,
    dataset: Dataset<T>,
    by_content: bool,
    datapoints: Vec<T::Datapoint>,
)
    ensures
        transcript::<T, UploadDatapointFile<T>>(
            UploadDatapointFile::Inserting { project_id, dataset_id, file, dataset, by_content },
            seq![Reply::Datapoints(datapoints)] + if_wanted(
                effective_column(dataset, by_content) is Some,
                Reply::Done,
            ),
        ) == seq![
            CommandView::<T>::InsertFromFile {
                bytes: file.bytes@,
                filename: file.filename@,
                dataset_id,
            },
        ] + if_wanted(
            effective_column(dataset, by_content) is Some,
            indexing(project_id, dataset, datapoints@, effective_column(dataset, by_content)),
        ) + seq![CommandView::Respond(ResponseView::Datapoints(datapoints@))],
{
    let inserting = UploadDatapointFile::<T>::Inserting {
        project_id,
        dataset_id,
        file,
        dataset,
        by_content,
    };
    let indexed = if_wanted(effective_column(dataset, by_content) is Some, Reply::<T>::Done);
    lemma_first_reply(inserting, Reply::Datapoints(datapoints), indexed);
    reveal_with_fuel(transcript, 2);
}

/// A file that is structured, or whose dataset is indexed already, has its datapoints added,
/// and indexed on the column of the dataset if it has one. Nothing is counted and no column is
/// chosen.
pub proof fn law_upload_as_is<T: Rows>(
    project_id: Uuid,
    dataset_id: Uuid,
    handler: UploadDatapointFile<T>,
    file: UploadedFile,
    dataset: Dataset<T>,
    datapoints: Vec<T::Datapoint>,
)
    requires
        call_ensures(upload_datapoint_file::<T>, (project_id, dataset_id), handler),
        dataset.indexed_on is Some || !file.is_unstructured,
    ensures
        transcript::<T, UploadDatapointFile<T>>(
            handler,
            seq![Reply::File(file), Reply::Dataset(dataset), Reply::Datapoints(datapoints)]
                + if_wanted(dataset.indexed_on is Some, Reply::Done),
        ) == seq![
            CommandView::<T>::ReadFile,
            CommandView::GetDataset { project_id, dataset_id },
            CommandView::InsertFromFile {
                bytes: file.bytes@,
                filename: file.filename@,
                dataset_id,
            },
        ] + if_wanted(
            dataset.indexed_on is Some,
            indexing(project_id, dataset, datapoints@, Some(dataset.indexed_on->0@)),
        ) + seq![CommandView::Respond(ResponseView::Datapoints(datapoints@))],
{
    let start = UploadDatapointFile::<T>::ReadingFile { project_id, dataset_id };
    let fetching = UploadDatapointFile::<T>::FetchingDataset { project_id, dataset_id, file };
    let ending = seq![Reply::<T>::Datapoints(datapoints)] + if_wanted(
        dataset.indexed_on is Some,
        Reply::Done,
    );
    lemma_upload_ends(project_id, dataset_id, file, dataset, false, datapoints);
    lemma_first_reply(fetching, Reply::Dataset(dataset), ending);
    lemma_first_reply(start, Reply::File(file), seq![Reply::Dataset(dataset)] + ending);
    assert(seq![
        Reply::<T>::File(file),
        Reply::Dataset(dataset),
        Reply::Datapoints(datapoints),
    ] + if_wanted(dataset.indexed_on is Some, Reply::Done) =~= seq![Reply::<T>::File(file)] + (
    seq![Reply::Dataset(dataset)] + ending));
}

/// An unstructured file whose dataset is not indexed has the datapoints of the dataset counted
/// first. If there are none, the dataset is indexed by content from then on: the column is
/// stored before the datapoints of the file are added, and they are indexed on it. If there are
/// some, the datapoints of the file are added and not indexed.
pub proof fn law_upload_of_unstructured_file<T: Rows>(
    project_id: Uuid,
    dataset_id: Uuid,
    handler: UploadDatapointFile<T>,
    file: UploadedFile,
    dataset: Dataset<T>,
    total_entries: u64,
    updated: Dataset<T>,
    datapoints: Vec<T::Datapoint>,
)
    requires
        call_ensures(upload_datapoint_file::<T>, (project_id, dataset_id), handler),
        dataset.indexed_on is None,
        file.is_unstructured,
    ensures
        total_entries == 0 ==> transcript::<T, UploadDatapointFile<T>>(
            handler,
            seq![
                Reply::File(file),
                Reply::Dataset(dataset),
                Reply::Count(total_entries),
                Reply::Dataset(updated),
                Reply::Datapoints(datapoints),
                Reply::Done,
            ],
        ) == seq![
            CommandView::<T>::ReadFile,
            CommandView::GetDataset { project_id, dataset_id },
            CommandView::CountDatapoints { dataset_id },
            CommandView::UpdateIndexColumn { dataset_id, index_column: Some("content"@) },
            CommandView::InsertFromFile {
                bytes: file.bytes@,
                filename: file.filename@,
                dataset_id,
            },
            indexing(project_id, dataset, datapoints@, Some("content"@)),
            CommandView::Respond(ResponseView::Datapoints(datapoints@)),
        ],
        total_entries > 0 ==> transcript::<T, UploadDatapointFile<T>>(
            handler,
            seq![
                Reply::File(file),
                Reply::Dataset(dataset),
                Reply::Count(total_entries),
                Reply::Datapoints(datapoints),
            ],
        ) == seq![
            CommandView::<T>::ReadFile,
            CommandView::GetDataset { project_id, dataset_id },
            CommandView::CountDatapoints { dataset_id },
            CommandView::InsertFromFile {
                bytes: file.bytes@,
                filename: file.filename@,
                dataset_id,
            },
            CommandView::Respond(ResponseView::Datapoints(datapoints@)),
        ],
{
    let start = UploadDatapointFile::<T>::ReadingFile { project_id, dataset_id };
    let fetching = UploadDatapointFile::<T>::FetchingDataset { project_id, dataset_id, file };
    let counting = UploadDatapointFile::<T>::Counting { project_id, dataset_id, file, dataset };
    let choosing = UploadDatapointFile::<T>::ChoosingColumn {
        project_id,
        dataset_id,
        file,
        dataset,
    };
    let count = Reply::<T>::Count(total_entries);
    let chosen = total_entries == 0;
    let ending = seq![Reply::<T>::Datapoints(datapoints)] + if_wanted(chosen, Reply::Done);
    lemma_upload_ends(project_id, dataset_id, file, dataset, chosen, datapoints);
    lemma_first_reply(choosing, Reply::Dataset(updated), ending);
    let counted = if_wanted(chosen, Reply::Dataset(updated)) + ending;
    assert(!chosen ==> counted =~= ending);
    lemma_first_reply(counting, count, counted);
    lemma_first_reply(fetching, Reply::Dataset(dataset), seq![count] + counted);
    let fetched = seq![Reply::Dataset(dataset)] + (seq![count] + counted);
    lemma_first_reply(start, Reply::File(file), fetched);
    assert(chosen ==> seq![
        Reply::<T>::File(file),
        Reply::Dataset(dataset),
        count,
        Reply::Dataset(updated),
        Reply::Datapoints(datapoints),
        Reply::Done,
    ] =~= seq![Reply::<T>::File(file)] + fetched);
    assert(!chosen ==> seq![
        Reply::<T>::File(file),
        Reply::Dataset(dataset),
        count,
        Reply::Datapoints(datapoints),
    ] =~= seq![Reply::<T>::File(file)] + fetched);
}

/// A dataset that is indexed on the column asked for, or not indexed when that is asked for, is
/// left alone: it is looked up, and the request is answered with it. So to ask again for what
/// was asked for changes nothing.
pub proof fn law_index_dataset_as_it_is<T: Rows>(
    project_id: Uuid,
    dataset_id: Uuid,
    request: IndexDatasetRequest,
    handler: IndexDataset<T>,
    dataset: Dataset<T>,
)
    requires
        call_ensures(index_dataset::<T>, (project_id, dataset_id, request), handler),
        match (dataset.indexed_on, request.index_column) {
            (Some(name), Some(asked)) => name@ == asked@,
            (None, None) => true,
            _ => false,
        },
    ensures
        transcript::<T, IndexDataset<T>>(
            handler,
            seq![Reply::Dataset(dataset)],
        ) == seq![
            CommandView::<T>::GetDataset { project_id, dataset_id },
            CommandView::Respond(ResponseView::Dataset(dataset)),
        ],
{
    reveal_with_fuel(transcript, 2);
}

/// A dataset that is indexed otherwise than asked for has its datapoints looked up. If it was
/// indexed, the embeddings of the whole dataset are deleted, and before new ones are made. If a
/// column is asked for, every datapoint is indexed on it. The column is stored last, and the
/// request is answered with the dataset as it was stored.
pub proof fn law_index_dataset_anew<T: Rows>(
    project_id: Uuid,
    dataset_id: Uuid,
    request: IndexDatasetRequest,
    handler: IndexDataset<T>,
    dataset: Dataset<T>,
    datapoints: Vec<T::Datapoint>,
    updated: Dataset<T>,
)
    requires
        call_ensures(index_dataset::<T>, (project_id, dataset_id, request), handler),
        match (dataset.indexed_on, request.index_column) {
            (Some(name), Some(asked)) => name@ != asked@,
            (None, None) => false,
            _ => true,
        },
    ensures
        transcript::<T, IndexDataset<T>>(
            handler,
            seq![Reply::Dataset(dataset), Reply::Datapoints(datapoints)] + if_wanted(
                dataset.indexed_on is Some,
                Reply::Done,
            ) + if_wanted(request.index_column is Some, Reply::Done) + seq![
                Reply::Dataset(updated),
            ],
        ) == seq![
            CommandView::<T>::GetDataset { project_id, dataset_id },
            CommandView::GetAllDatapoints { dataset_id },
        ] + if_wanted(
            dataset.indexed_on is Some,
            CommandView::DeleteEmbeddings {
                project: hyphenated(project_id.bits),
                filters: seq![
                    FilterView { field: "datasource_id"@, value: hyphenated(dataset_id.bits) },
                ],
            },
        ) + if_wanted(
            request.index_column is Some,
            indexing(project_id, dataset, datapoints@, Some(request.index_column->0@)),
        ) + seq![
            CommandView::<T>::UpdateIndexColumn {
                dataset_id,
                index_column: match request.index_column {
                    Some(name) => Some(name@),
                    None => None,
                },
            },
            CommandView::Respond(ResponseView::Dataset(updated)),
        ],
{
    let column = request.index_column;
    let start = IndexDataset::<T>::FetchingDataset { project_id, dataset_id, column };
    let fetching = IndexDataset::<T>::FetchingDatapoints {
        project_id,
        dataset_id,
        column,
        dataset,
    };
    let deleting = IndexDataset::<T>::DeletingEmbeddings {
        project_id,
        dataset_id,
        column,
        dataset,
        datapoints,
    };
    let making = IndexDataset::<T>::Indexing {
        project_id,
        dataset_id,
        column,
        dataset,
        datapoints,
    };
    let storing = IndexDataset::<T>::StoringColumn { dataset_id, column };
    let last = seq![Reply::<T>::Dataset(updated)];
    assert(transcript::<T, IndexDataset<T>>(storing, last) =~= seq![
        CommandView::<T>::UpdateIndexColumn { dataset_id, index_column: column_view(column) },
        CommandView::Respond(ResponseView::Dataset(updated)),
    ]) by {
        reveal_with_fuel(transcript, 2);
    }
    let made = if_wanted(column is Some, Reply::<T>::Done) + last;
    if column is Some {
        lemma_first_reply(making, Reply::Done, last);
    } else {
        assert(made =~= last);
    }
    let cleared = if_wanted(dataset.indexed_on is Some, Reply::<T>::Done) + made;
    if dataset.indexed_on is Some {
        lemma_first_reply(deleting, Reply::Done, made);
    } else {
        assert(cleared =~= made);
    }
    lemma_first_reply(fetching, Reply::Datapoints(datapoints), cleared);
    lemma_first_reply(
        start,
        Reply::Dataset(dataset),
        seq![Reply::Datapoints(datapoints)] + cleared,
    );
    assert(seq![Reply::<T>::Dataset(dataset), Reply::Datapoints(datapoints)] + if_wanted(
        dataset.indexed_on is Some,
        Reply::Done,
    ) + if_wanted(column is Some, Reply::Done) + seq![Reply::Dataset(updated)] =~= seq![
        Reply::<T>::Dataset(dataset),
    ] + (seq![Reply::Datapoints(datapoints)] + cleared));
}

/// The filter that selects the embeddings of a dataset names it by its whole text, and there is
/// no other.
pub proof fn law_dataset_filter_names_the_dataset(
    dataset_id: Uuid,
    filters: Vec<Filter>,
    text: String,
)
    requires
        call_ensures(filters_of_dataset, (dataset_id,), filters),
        call_ensures(Uuid::to_string, (&dataset_id,), text),
    ensures
        filters@.len() == 1,
        filters@[0].field@ == "datasource_id"@,
        filters@[0].value@ == text@,
{
    assert(filters_view(filters@).len() == 1);
    assert(filters_view(filters@)[0] == filters@[0]@);
}

/// There is one filter for each datapoint, in order, and it names the datapoint by its whole
/// text.
pub proof fn law_datapoint_filters_name_the_datapoints(
    ids: Vec<Uuid>,
    filters: Vec<Filter>,
    at: int,
    text: String,
)
    requires
        call_ensures(filters_of_datapoints, (&ids,), filters),
        0 <= at < ids@.len(),
        call_ensures(Uuid::to_string, (&ids@[at],), text),
    ensures
        filters@.len() == ids@.len(),
        filters@[at].field@ == "id"@,
        filters@[at].value@ == text@,
{
    assert(filters_view(filters@).len() == ids@.len());
    assert(filters_view(filters@)[at] == filters@[at]@);
}

/// Two columns are the same if they have the same name, or if neither is there. A borrowed
/// column has the name of the column.
pub proof fn law_columns_are_their_names(
    a: Option<String>,
    b: Option<String>,
    same: bool,
    borrowed: Option<&str>,
)
    requires
        call_ensures(same_column, (&a, &b), same),
        call_ensures(borrow_column, (&a,), borrowed),
    ensures
        same <==> match (a, b) {
            (Some(name), Some(other)) => name@ == other@,
            (None, None) => true,
            _ => false,
        },
        match (a, borrowed) {
            (Some(name), Some(lent)) => lent@ == name@,
            (None, None) => true,
            _ => false,
        },
{
}

/// A command holds what its view tells, whole: every identifier, name, value and row.
pub proof fn law_commands_are_what_they_tell<T: Rows>(command: Command<'_, T>)
    ensures
        match command {
            Command::ReadFile => command@ is ReadFile,
            Command::GetDataset { project_id, dataset_id } => command@ == (
            CommandView::<T>::GetDataset { project_id, dataset_id }),
            Command::DeleteDataset { dataset_id } => command@ == (
            CommandView::<T>::DeleteDataset { dataset_id }),
            Command::UpdateIndexColumn { dataset_id, index_column } => {
                &&& command@ matches CommandView::UpdateIndexColumn {
                    dataset_id: told_id,
                    index_column: told,
                }
                &&& told_id == dataset_id
                &&& told is Some <==> index_column is Some
                &&& index_column matches Some(name) ==> told == Some(name@)
            },
            Command::CountDatapoints { dataset_id } => command@ == (
            CommandView::<T>::CountDatapoints { dataset_id }),
            Command::GetDatapoints { dataset_id, limit, offset } => command@ == (
            CommandView::<T>::GetDatapoints { dataset_id, limit, offset }),
            Command::GetAllDatapoints { dataset_id } => command@ == (
            CommandView::<T>::GetAllDatapoints { dataset_id }),
            Command::InsertFromFile { bytes, filename, dataset_id } => command@ == (
            CommandView::<T>::InsertFromFile { bytes: bytes@, filename: filename@, dataset_id }),
            Command::InsertRawData { dataset_id, raw } => command@ == (
            CommandView::<T>::InsertRawData { dataset_id, raw: raw@ }),
            Command::UpdateDatapoint { datapoint_id, data, target, metadata } => command@ == (
            CommandView::<T>::UpdateDatapoint {
                datapoint_id,
                data: *data,
                target: *target,
                metadata: *metadata,
            }),
            Command::DeleteDatapoints { ids } => command@ == (
            CommandView::<T>::DeleteDatapoints { ids: ids@ }),
            Command::DeleteAllDatapoints { dataset_id } => command@ == (
            CommandView::<T>::DeleteAllDatapoints { dataset_id }),
            Command::DeleteEmbeddings { project, filters } => {
                &&& command@ matches CommandView::DeleteEmbeddings {
                    project: told_project,
                    filters: told,
                }
                &&& told_project == project@
                &&& told.len() == filters@.len()
                &&& forall|i: int|
                    0 <= i < told.len() ==> (#[trigger] told[i]).field == filters@[i].field@
                        && told[i].value == filters@[i].value@
            },
            Command::IndexNewPoints { dataset, datapoints, project, index_column } => {
                &&& command@ matches CommandView::IndexNewPoints {
                    dataset: told_dataset,
                    datapoints: told_points,
                    project: told_project,
                    index_column: told,
                }
                &&& told_dataset == *dataset
                &&& told_project == project@
                &&& told is Some <==> index_column is Some
                &&& index_column matches Some(name) ==> told == Some(name@)
                &&& match datapoints {
                    Points::One(point) => told_points.len() == 1 && told_points[0] == *point,
                    Points::Many(points) => told_points == points@,
                }
            },
            Command::Respond(response) => {
                &&& command@ matches CommandView::Respond(told)
                &&& match response {
                    Response::Empty => told is Empty,
                    Response::Datapoint(point) => told == ResponseView::<T>::Datapoint(*point),
                    Response::Datapoints(points) => told == ResponseView::<T>::Datapoints(
                        points@,
                    ),
                    Response::Page(page) => told == (ResponseView::<T>::Page {
                        items: page.items@,
                        total_count: page.total_count,
                        any_in_project: page.any_in_project,
                    }),
                    Response::Dataset(dataset) => told == ResponseView::<T>::Dataset(*dataset),
                }
            },
        },
{
}

/// A handler takes every reply that its command can have, and no other: what was asked for, or
/// a failure. An answered request takes none.
pub proof fn law_replies_fit_their_command<T: Rows, W: Workflow<T>>(
    handler: W,
    command: Command<'_, T>,
    reply: Reply<T>,
    answer: bool,
)
    requires
        call_ensures(<W as Workflow<T>>::command, (&handler,), command),
        call_ensures(Reply::<T>::answers, (&reply, &command), answer),
    ensures
        answer ==> call_requires(<W as Workflow<T>>::step, (handler, reply)),
        answer == match command {
            Command::Respond(_) => false,
            Command::ReadFile => reply is File || reply is Failed,
            Command::GetDataset { .. } => reply is Dataset || reply is Failed,
            Command::UpdateIndexColumn { .. } => reply is Dataset || reply is Failed,
            Command::CountDatapoints { .. } => reply is Count || reply is Failed,
            Command::GetDatapoints { .. } => reply is Page || reply is Failed,
            Command::GetAllDatapoints { .. } => reply is Datapoints || reply is Failed,
            Command::InsertFromFile { .. } => reply is Datapoints || reply is Failed,
            Command::InsertRawData { .. } => reply is Datapoints || reply is Failed,
            Command::UpdateDatapoint { .. } => reply is Datapoint || reply is Failed,
            Command::DeleteAllDatapoints { .. } => reply is Ids || reply is Failed,
            _ => reply is Done || reply is Failed,
        },
{
}

} // verus!
