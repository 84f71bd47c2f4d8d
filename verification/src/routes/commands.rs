use crate::ids::Uuid;
use crate::routes::rows::{
    borrowed_column_view, filters_view, Dataset, Filter, FilterView, PaginatedResponse, Rows,
    UploadedFile,
};
use serde_json::Value;
use vstd::prelude::*;

verus! {

/// Datapoints that are to be indexed.
pub enum Points<'a, T: Rows> {
    One(&'a T::Datapoint),
    Many(&'a Vec<T::Datapoint>),
}

impl<'a, T: Rows> View for Points<'a, T> {
    type V = Seq<T::Datapoint>;

    open spec fn view(&self) -> Seq<T::Datapoint> {
        match *self {
            Points::One(point) => seq![*point],
            Points::Many(points) => points@,
        }
    }
}

/// What a request is answered, with success.
pub enum Response<'a, T: Rows> {
    Empty,
    Datapoint(&'a T::Datapoint),
    Datapoints(&'a Vec<T::Datapoint>),
    Page(&'a PaginatedResponse<T::DatapointView>),
    Dataset(&'a Dataset<T>),
}

/// What the one who runs a handler is to do next.
pub enum Command<'a, T: Rows> {
    /// Read the one file of the request.
    ReadFile,
    /// Look up a dataset of a project.
    GetDataset { project_id: Uuid, dataset_id: Uuid },
    /// Delete a dataset from the database.
    DeleteDataset { dataset_id: Uuid },
    /// Store the column that a dataset is indexed on.
    UpdateIndexColumn { dataset_id: Uuid, index_column: Option<&'a str> },
    /// Count the datapoints of a dataset.
    CountDatapoints { dataset_id: Uuid },
    /// Look up one page of the datapoints of a dataset.
    GetDatapoints { dataset_id: Uuid, limit: i64, offset: i64 },
    /// Look up every datapoint of a dataset.
    GetAllDatapoints { dataset_id: Uuid },
    /// Add the datapoints that a file holds to a dataset.
    InsertFromFile { bytes: &'a Vec<u8>, filename: &'a String, dataset_id: Uuid },
    /// Add datapoints to a dataset.
    InsertRawData { dataset_id: Uuid, raw: &'a Vec<Value> },
    /// Replace what a datapoint holds.
    UpdateDatapoint {
        datapoint_id: Uuid,
        data: &'a Value,
        target: &'a Value,
        metadata: &'a Option<Value>,
    },
    /// Delete datapoints from the database.
    DeleteDatapoints { ids: &'a Vec<Uuid> },
    /// Delete every datapoint of a dataset from the database.
    DeleteAllDatapoints { dataset_id: Uuid },
    /// Delete the embeddings of a project, given by its text, that a filter selects.
    DeleteEmbeddings { project: String, filters: Vec<Filter> },
    /// Make embeddings for datapoints of a dataset, of what they hold in a column.
    IndexNewPoints {
        dataset: &'a Dataset<T>,
        datapoints: Points<'a, T>,
        project: String,
        index_column: Option<&'a str>,
    },
    /// Answer the request.
    Respond(Response<'a, T>),
}

/// A [`Response`], as mathematics.
#[verifier::ext_equal]
pub enum ResponseView<T: Rows> {
    Empty,
    Datapoint(T::Datapoint),
    Datapoints(Seq<T::Datapoint>),
    Page { items: Seq<T::DatapointView>, total_count: u64, any_in_project: bool },
    Dataset(Dataset<T>),
}

/// A [`Command`], as mathematics.
#[verifier::ext_equal]
pub enum CommandView<T: Rows> {
    ReadFile,
    GetDataset { project_id: Uuid, dataset_id: Uuid },
    DeleteDataset { dataset_id: Uuid },
    UpdateIndexColumn { dataset_id: Uuid, index_column: Option<Seq<char>> },
    CountDatapoints { dataset_id: Uuid },
    GetDatapoints { dataset_id: Uuid, limit: i64, offset: i64 },
    GetAllDatapoints { dataset_id: Uuid },
    InsertFromFile { bytes: Seq<u8>, filename: Seq<char>, dataset_id: Uuid },
    InsertRawData { dataset_id: Uuid, raw: Seq<Value> },
    UpdateDatapoint { datapoint_id: Uuid, data: Value, target: Value, metadata: Option<Value> },
    DeleteDatapoints { ids: Seq<Uuid> },
    DeleteAllDatapoints { dataset_id: Uuid },
    DeleteEmbeddings { project: Seq<char>, filters: Seq<FilterView> },
    IndexNewPoints {
        dataset: Dataset<T>,
        datapoints: Seq<T::Datapoint>,
        project: Seq<char>,
        index_column: Option<Seq<char>>,
    },
    Respond(ResponseView<T>),
}

impl<'a, T: Rows> View for Response<'a, T> {
    type V = ResponseView<T>;

    open spec fn view(&self) -> ResponseView<T> {
        match *self {
            Response::Empty => ResponseView::Empty,
            Response::Datapoint(point) => ResponseView::Datapoint(*point),
            Response::Datapoints(points) => ResponseView::Datapoints(points@),
            Response::Page(page) => ResponseView::Page {
                items: page.items@,
                total_count: page.total_count,
                any_in_project: page.any_in_project,
            },
            Response::Dataset(dataset) => ResponseView::Dataset(*dataset),
        }
    }
}

impl<'a, T: Rows> View for Command<'a, T> {
    type V = CommandView<T>;

    open spec fn view(&self) -> CommandView<T> {
        match *self {
            Command::ReadFile => CommandView::ReadFile,
            Command::GetDataset { project_id, dataset_id } => CommandView::GetDataset {
                project_id,
                dataset_id,
            },
            Command::DeleteDataset { dataset_id } => CommandView::DeleteDataset { dataset_id },
            Command::UpdateIndexColumn { dataset_id, index_column } => {
                CommandView::UpdateIndexColumn {
                    dataset_id,
                    index_column: borrowed_column_view(index_column),
                }
            },
            Command::CountDatapoints { dataset_id } => CommandView::CountDatapoints { dataset_id },
            Command::GetDatapoints { dataset_id, limit, offset } => CommandView::GetDatapoints {
                dataset_id,
                limit,
                offset,
            },
            Command::GetAllDatapoints { dataset_id } => CommandView::GetAllDatapoints {
                dataset_id,
            },
            Command::InsertFromFile { bytes, filename, dataset_id } => {
                CommandView::InsertFromFile { bytes: bytes@, filename: filename@, dataset_id }
            },
            Command::InsertRawData { dataset_id, raw } => CommandView::InsertRawData {
                dataset_id,
                raw: raw@,
            },
            Command::UpdateDatapoint { datapoint_id, data, target, metadata } => {
                CommandView::UpdateDatapoint {
                    datapoint_id,
                    data: *data,
                    target: *target,
                    metadata: *metadata,
                }
            },
            Command::DeleteDatapoints { ids } => CommandView::DeleteDatapoints { ids: ids@ },
            Command::DeleteAllDatapoints { dataset_id } => CommandView::DeleteAllDatapoints {
                dataset_id,
            },
            Command::DeleteEmbeddings { project, filters } => CommandView::DeleteEmbeddings {
                project: project@,
                filters: filters_view(filters@),
            },
            Command::IndexNewPoints { dataset, datapoints, project, index_column } => {
                CommandView::IndexNewPoints {
                    dataset: *dataset,
                    datapoints: datapoints@,
                    project: project@,
                    index_column: borrowed_column_view(index_column),
                }
            },
            Command::Respond(response) => CommandView::Respond(response@),
        }
    }
}

/// What came of a command.
pub enum Reply<T: Rows> {
    Done,
    File(UploadedFile),
    Dataset(Dataset<T>),
    Count(u64),
    Page(Vec<T::DatapointView>),
    Datapoint(T::Datapoint),
    Datapoints(Vec<T::Datapoint>),
    Ids(Vec<Uuid>),
    Failed(T::Error),
}

/// Whether a reply is one that a command can have: any command but the answer itself may
/// fail, and else brings what it asked for.
pub open spec fn answers<T: Rows>(reply: Reply<T>, command: CommandView<T>) -> bool {
    match command {
        CommandView::Respond(_) => false,
        CommandView::ReadFile => reply is File || reply is Failed,
        CommandView::GetDataset { .. } => reply is Dataset || reply is Failed,
        CommandView::DeleteDataset { .. } => reply is Done || reply is Failed,
        CommandView::UpdateIndexColumn { .. } => reply is Dataset || reply is Failed,
        CommandView::CountDatapoints { .. } => reply is Count || reply is Failed,
        CommandView::GetDatapoints { .. } => reply is Page || reply is Failed,
        CommandView::GetAllDatapoints { .. } => reply is Datapoints || reply is Failed,
        CommandView::InsertFromFile { .. } => reply is Datapoints || reply is Failed,
        CommandView::InsertRawData { .. } => reply is Datapoints || reply is Failed,
        CommandView::UpdateDatapoint { .. } => reply is Datapoint || reply is Failed,
        CommandView::DeleteDatapoints { .. } => reply is Done || reply is Failed,
        CommandView::DeleteAllDatapoints { .. } => reply is Ids || reply is Failed,
        CommandView::DeleteEmbeddings { .. } => reply is Done || reply is Failed,
        CommandView::IndexNewPoints { .. } => reply is Done || reply is Failed,
    }
}

impl<T: Rows> Reply<T> {
    /// Whether this reply is one that `command` can have.
    pub fn answers(&self, command: &Command<'_, T>) -> (answer: bool)
        ensures
            answer == answers(*self, command@),
    {
        match (command, self) {
            (Command::Respond(_), _) => false,
            (_, Reply::Failed(_)) => true,
            (Command::ReadFile, Reply::File(_)) => true,
            (Command::GetDataset { .. }, Reply::Dataset(_)) => true,
            (Command::DeleteDataset { .. }, Reply::Done) => true,
            (Command::UpdateIndexColumn { .. }, Reply::Dataset(_)) => true,
            (Command::CountDatapoints { .. }, Reply::Count(_)) => true,
            (Command::GetDatapoints { .. }, Reply::Page(_)) => true,
            (Command::GetAllDatapoints { .. }, Reply::Datapoints(_)) => true,
            (Command::InsertFromFile { .. }, Reply::Datapoints(_)) => true,
            (Command::InsertRawData { .. }, Reply::Datapoints(_)) => true,
            (Command::UpdateDatapoint { .. }, Reply::Datapoint(_)) => true,
            (Command::DeleteDatapoints { .. }, Reply::Done) => true,
            (Command::DeleteAllDatapoints { .. }, Reply::Ids(_)) => true,
            (Command::DeleteEmbeddings { .. }, Reply::Done) => true,
            (Command::IndexNewPoints { .. }, Reply::Done) => true,
            _ => false,
        }
    }
}

} // verus!
