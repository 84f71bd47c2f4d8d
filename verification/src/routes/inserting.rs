use crate::ids::{hyphenated, Uuid};
use crate::routes::commands::{Command, CommandView, Points, Reply, Response, ResponseView};
use crate::routes::rows::{
    borrow_column, borrowed_column_view, column_view, CreateDatapointsRequest, Dataset, Rows,
    UpdateDatapointRequest, UploadedFile,
};
use crate::routes::workflow::Workflow;
use serde_json::Value;
use vstd::prelude::*;

verus! {

/// Adds the datapoints of an uploaded file to a dataset. A dataset that is indexed has the new
/// datapoints indexed too; one that is not indexed and empty is indexed by content from the
/// moment that an unstructured file is uploaded to it.
pub enum UploadDatapointFile<T: Rows> {
    ReadingFile { project_id: Uuid, dataset_id: Uuid },
    FetchingDataset { project_id: Uuid, dataset_id: Uuid, file: UploadedFile },
    Counting { project_id: Uuid, dataset_id: Uuid, file: UploadedFile, dataset: Dataset<T> },
    ChoosingColumn { project_id: Uuid, dataset_id: Uuid, file: UploadedFile, dataset: Dataset<T> },
    /// `by_content` tells that the column was chosen for the dataset.
    Inserting {
        project_id: Uuid,
        dataset_id: Uuid,
        file: UploadedFile,
        dataset: Dataset<T>,
        by_content: bool,
    },
    Indexing {
        project_id: Uuid,
        dataset: Dataset<T>,
        by_content: bool,
        datapoints: Vec<T::Datapoint>,
    },
    Done { datapoints: Vec<T::Datapoint> },
}

/// Starts the upload of a file.
pub fn upload_datapoint_file<T: Rows>(project_id: Uuid, dataset_id: Uuid) -> (handler:
    UploadDatapointFile<T>)
    ensures
        handler == (UploadDatapointFile::<T>::ReadingFile { project_id, dataset_id }),
{
    UploadDatapointFile::ReadingFile { project_id, dataset_id }
}

/// The column that new datapoints are indexed on: the one chosen for the dataset, or the one
/// that it has.
pub open spec fn effective_column<T: Rows>(dataset: Dataset<T>, by_content: bool) -> Option<
    Seq<char>,
> {
    if by_content {
        Some("content"@)
    } else {
        column_view(dataset.indexed_on)
    }
}

/// The column that new datapoints are indexed on.
fn index_column_of<T: Rows>(dataset: &Dataset<T>, by_content: bool) -> (column: Option<&str>)
    ensures
        borrowed_column_view(column) == effective_column(*dataset, by_content),
{
    if by_content {
        Some("content")
    } else {
        borrow_column(&dataset.indexed_on)
    }
}

impl<T: Rows> Workflow<T> for UploadDatapointFile<T> {
    open spec fn current(self) -> CommandView<T> {
        match self {
            UploadDatapointFile::ReadingFile { .. } => CommandView::ReadFile,
            UploadDatapointFile::FetchingDataset { project_id, dataset_id, .. } => {
                CommandView::GetDataset { project_id, dataset_id }
            },
            UploadDatapointFile::Counting { dataset_id, .. } => CommandView::CountDatapoints {
                dataset_id,
            },
            UploadDatapointFile::ChoosingColumn { dataset_id, .. } => {
                CommandView::UpdateIndexColumn { dataset_id, index_column: Some("content"@) }
            },
            UploadDatapointFile::Inserting { dataset_id, file, .. } => {
                CommandView::InsertFromFile {
                    bytes: file.bytes@,
                    filename: file.filename@,
                    dataset_id,
                }
            },
            UploadDatapointFile::Indexing { project_id, dataset, by_content, datapoints } => {
                CommandView::IndexNewPoints {
                    dataset,
                    datapoints: datapoints@,
                    project: hyphenated(project_id.bits),
                    index_column: effective_column(dataset, by_content),
                }
            },
            UploadDatapointFile::Done { datapoints } => CommandView::Respond(
                ResponseView::Datapoints(datapoints@),
            ),
        }
    }

    open spec fn next(self, reply: Reply<T>) -> Result<UploadDatapointFile<T>, T::Error> {
        match (self, reply) {
            (_, Reply::Failed(error)) => Err(error),
            (
                UploadDatapointFile::ReadingFile { project_id, dataset_id },
                Reply::File(file),
            ) => Ok(UploadDatapointFile::FetchingDataset { project_id, dataset_id, file }),
            (
                UploadDatapointFile::FetchingDataset { project_id, dataset_id, file },
                Reply::Dataset(dataset),
            ) => if dataset.indexed_on is None && file.is_unstructured {
                Ok(UploadDatapointFile::Counting { project_id, dataset_id, file, dataset })
            } else {
                Ok(
                    UploadDatapointFile::Inserting {
                        project_id,
                        dataset_id,
                        file,
                        dataset,
                        by_content: false,
                    },
                )
            },
            (
                UploadDatapointFile::Counting { project_id, dataset_id, file, dataset },
                Reply::Count(total_entries),
            ) => if total_entries == 0 {
                Ok(UploadDatapointFile::ChoosingColumn { project_id, dataset_id, file, dataset })
            } else {
                Ok(
                    UploadDatapointFile::Inserting {
                        project_id,
                        dataset_id,
                        file,
                        dataset,
                        by_content: false,
                    },
                )
            },
            (
                UploadDatapointFile::ChoosingColumn { project_id, dataset_id, file, dataset },
                _,
            ) => Ok(
                UploadDatapointFile::Inserting {
                    project_id,
                    dataset_id,
                    file,
                    dataset,
                    by_content: true,
                },
            ),
            (
                UploadDatapointFile::Inserting { project_id, dataset, by_content, .. },
                Reply::Datapoints(datapoints),
            ) => if effective_column(dataset, by_content) is Some {
                Ok(
                    UploadDatapointFile::Indexing { project_id, dataset, by_content, datapoints },
                )
            } else {
                Ok(UploadDatapointFile::Done { datapoints })
            },
            (UploadDatapointFile::Indexing { datapoints, .. }, _) => Ok(
                UploadDatapointFile::Done { datapoints },
            ),
            _ => Ok(self),
        }
    }

    open spec fn remaining(self) -> nat {
        match self {
            UploadDatapointFile::ReadingFile { .. } => 6,
            UploadDatapointFile::FetchingDataset { .. } => 5,
            UploadDatapointFile::Counting { .. } => 4,
            UploadDatapointFile::ChoosingColumn { .. } => 3,
            UploadDatapointFile::Inserting { .. } => 2,
            UploadDatapointFile::Indexing { .. } => 1,
            UploadDatapointFile::Done { .. } => 0,
        }
    }

    fn command(&self) -> (command: Command<'_, T>) {
        match self {
            UploadDatapointFile::ReadingFile { .. } => Command::ReadFile,
            UploadDatapointFile::FetchingDataset { project_id, dataset_id, .. } => {
                Command::GetDataset { project_id: *project_id, dataset_id: *dataset_id }
            },
            UploadDatapointFile::Counting { dataset_id, .. } => Command::CountDatapoints {
                dataset_id: *dataset_id,
            },
            UploadDatapointFile::ChoosingColumn { dataset_id, .. } => {
                Command::UpdateIndexColumn {
                    dataset_id: *dataset_id,
                    index_column: Some("content"),
                }
            },
            UploadDatapointFile::Inserting { dataset_id, file, .. } => Command::InsertFromFile {
                bytes: &file.bytes,
                filename: &file.filename,
                dataset_id: *dataset_id,
            },
            UploadDatapointFile::Indexing { project_id, dataset, by_content, datapoints } => {
                Command::IndexNewPoints {
                    dataset,
                    datapoints: Points::Many(datapoints),
                    project: project_id.to_string(),
                    index_column: index_column_of(dataset, *by_content),
                }
            },
            UploadDatapointFile::Done { datapoints } => Command::Respond(
                Response::Datapoints(datapoints),
            ),
        }
    }

    fn step(self, reply: Reply<T>) -> (outcome: Result<UploadDatapointFile<T>, T::Error>) {
        match (self, reply) {
            (_, Reply::Failed(error)) => Err(error),
            (UploadDatapointFile::ReadingFile { project_id, dataset_id }, Reply::File(file)) => {
                Ok(UploadDatapointFile::FetchingDataset { project_id, dataset_id, file })
            },
            (
                UploadDatapointFile::FetchingDataset { project_id, dataset_id, file },
                Reply::Dataset(dataset),
            ) => {
                if dataset.indexed_on.is_none() && file.is_unstructured {
                    Ok(UploadDatapointFile::Counting { project_id, dataset_id, file, dataset })
                } else {
                    let by_content = false;
                    Ok(
                        UploadDatapointFile::Inserting {
                            project_id,
                            dataset_id,
                            file,
                            dataset,
                            by_content,
                        },
                    )
                }
            },
            (
                UploadDatapointFile::Counting { project_id, dataset_id, file, dataset },
                Reply::Count(total_entries),
            ) => {
                if total_entries == 0 {
                    Ok(
                        UploadDatapointFile::ChoosingColumn {
                            project_id,
                            dataset_id,
                            file,
                            dataset,
                        },
                    )
                } else {
                    let by_content = false;
                    Ok(
                        UploadDatapointFile::Inserting {
                            project_id,
                            dataset_id,
                            file,
                            dataset,
                            by_content,
                        },
                    )
                }
            },
            (
                UploadDatapointFile::ChoosingColumn { project_id, dataset_id, file, dataset },
                _,
            ) => {
                let by_content = true;
                Ok(
                    UploadDatapointFile::Inserting {
                        project_id,
                        dataset_id,
                        file,
                        dataset,
                        by_content,
                    },
                )
            },
            (
                UploadDatapointFile::Inserting { project_id, dataset, by_content, .. },
                Reply::Datapoints(datapoints),
            ) => {
                if index_column_of(&dataset, by_content).is_some() {
                    Ok(
                        UploadDatapointFile::Indexing {
                            project_id,
                            dataset,
                            by_content,
                            datapoints,
                        },
                    )
                } else {
                    Ok(UploadDatapointFile::Done { datapoints })
                }
            },
            (UploadDatapointFile::Indexing { datapoints, .. }, _) => {
                Ok(UploadDatapointFile::Done { datapoints })
            },
            (handler, _) => Ok(handler),
        }
    }

    proof fn law_failures_are_handed_on(self, error: T::Error) {
    }

    proof fn law_errors_come_from_outside(self, reply: Reply<T>) {
    }

    proof fn law_end(self) {
    }

    proof fn law_progress(self, reply: Reply<T>) {
    }
}

/// Adds datapoints to a dataset, and indexes them if the dataset is indexed.
pub enum CreateDatapoints<T: Rows> {
    FetchingDataset { project_id: Uuid, dataset_id: Uuid, raw: Vec<Value> },
    Inserting { project_id: Uuid, dataset_id: Uuid, raw: Vec<Value>, dataset: Dataset<T> },
    Indexing { project_id: Uuid, dataset: Dataset<T>, datapoints: Vec<T::Datapoint> },
    Done { datapoints: Vec<T::Datapoint> },
}

/// Starts the addition of datapoints.
pub fn create_datapoints<T: Rows>(
    project_id: Uuid,
    dataset_id: Uuid,
    request: CreateDatapointsRequest,
) -> (handler: CreateDatapoints<T>)
    ensures
        handler == (CreateDatapoints::<T>::FetchingDataset {
            project_id,
            dataset_id,
            raw: request.datapoints,
        }),
{
    CreateDatapoints::FetchingDataset { project_id, dataset_id, raw: request.datapoints }
}

impl<T: Rows> Workflow<T> for CreateDatapoints<T> {
    open spec fn current(self) -> CommandView<T> {
        match self {
            CreateDatapoints::FetchingDataset { project_id, dataset_id, .. } => {
                CommandView::GetDataset { project_id, dataset_id }
            },
            CreateDatapoints::Inserting { dataset_id, raw, .. } => CommandView::InsertRawData {
                dataset_id,
                raw: raw@,
            },
            CreateDatapoints::Indexing { project_id, dataset, datapoints } => {
                CommandView::IndexNewPoints {
                    dataset,
                    datapoints: datapoints@,
                    project: hyphenated(project_id.bits),
                    index_column: column_view(dataset.indexed_on),
                }
            },
            CreateDatapoints::Done { datapoints } => CommandView::Respond(
                ResponseView::Datapoints(datapoints@),
            ),
        }
    }

    open spec fn next(self, reply: Reply<T>) -> Result<CreateDatapoints<T>, T::Error> {
        match (self, reply) {
            (_, Reply::Failed(error)) => Err(error),
            (
                CreateDatapoints::FetchingDataset { project_id, dataset_id, raw },
                Reply::Dataset(dataset),
            ) => Ok(CreateDatapoints::Inserting { project_id, dataset_id, raw, dataset }),
            (
                CreateDatapoints::Inserting { project_id, dataset, .. },
                Reply::Datapoints(datapoints),
            ) => if dataset.indexed_on is Some {
                Ok(CreateDatapoints::Indexing { project_id, dataset, datapoints })
            } else {
                Ok(CreateDatapoints::Done { datapoints })
            },
            (CreateDatapoints::Indexing { datapoints, .. }, _) => Ok(
                CreateDatapoints::Done { datapoints },
            ),
            _ => Ok(self),
        }
    }

    open spec fn remaining(self) -> nat {
        match self {
            CreateDatapoints::FetchingDataset { .. } => 3,
            CreateDatapoints::Inserting { .. } => 2,
            CreateDatapoints::Indexing { .. } => 1,
            CreateDatapoints::Done { .. } => 0,
        }
    }

    fn command(&self) -> (command: Command<'_, T>) {
        match self {
            CreateDatapoints::FetchingDataset { project_id, dataset_id, .. } => {
                Command::GetDataset { project_id: *project_id, dataset_id: *dataset_id }
            },
            CreateDatapoints::Inserting { dataset_id, raw, .. } => Command::InsertRawData {
                dataset_id: *dataset_id,
                raw,
            },
            CreateDatapoints::Indexing { project_id, dataset, datapoints } => {
                Command::IndexNewPoints {
                    dataset,
                    datapoints: Points::Many(datapoints),
                    project: project_id.to_string(),
                    index_column: borrow_column(&dataset.indexed_on),
                }
            },
            CreateDatapoints::Done { datapoints } => Command::Respond(
                Response::Datapoints(datapoints),
            ),
        }
    }

    fn step(self, reply: Reply<T>) -> (outcome: Result<CreateDatapoints<T>, T::Error>) {
        match (self, reply) {
            (_, Reply::Failed(error)) => Err(error),
            (
                CreateDatapoints::FetchingDataset { project_id, dataset_id, raw },
                Reply::Dataset(dataset),
            ) => Ok(CreateDatapoints::Inserting { project_id, dataset_id, raw, dataset }),
            (
                CreateDatapoints::Inserting { project_id, dataset, .. },
                Reply::Datapoints(datapoints),
            ) => {
                if dataset.indexed_on.is_some() {
                    Ok(CreateDatapoints::Indexing { project_id, dataset, datapoints })
                } else {
                    Ok(CreateDatapoints::Done { datapoints })
                }
            },
            (CreateDatapoints::Indexing { datapoints, .. }, _) => {
                Ok(CreateDatapoints::Done { datapoints })
            },
            (handler, _) => Ok(handler),
        }
    }

    proof fn law_failures_are_handed_on(self, error: T::Error) {
    }

    proof fn law_errors_come_from_outside(self, reply: Reply<T>) {
    }

    proof fn law_end(self) {
    }

    proof fn law_progress(self, reply: Reply<T>) {
    }
}

/// Replaces what a datapoint holds, and indexes it anew if its dataset is indexed.
pub enum UpdateDatapointData<T: Rows> {
    Updating {
        project_id: Uuid,
        dataset_id: Uuid,
        datapoint_id: Uuid,
        request: UpdateDatapointRequest,
    },
    FetchingDataset { project_id: Uuid, dataset_id: Uuid, datapoint: T::Datapoint },
    Indexing { project_id: Uuid, dataset: Dataset<T>, datapoint: T::Datapoint },
    Done { datapoint: T::Datapoint },
}

/// Starts the update of a datapoint.
pub fn update_datapoint_data<T: Rows>(
    project_id: Uuid,
    dataset_id: Uuid,
    datapoint_id: Uuid,
    request: UpdateDatapointRequest,
) -> (handler: UpdateDatapointData<T>)
    ensures
        handler == (UpdateDatapointData::<T>::Updating {
            project_id,
            dataset_id,
            datapoint_id,
            request,
        }),
{
    UpdateDatapointData::Updating { project_id, dataset_id, datapoint_id, request }
}

impl<T: Rows> Workflow<T> for UpdateDatapointData<T> {
    open spec fn current(self) -> CommandView<T> {
        match self {
            UpdateDatapointData::Updating { datapoint_id, request, .. } => {
                CommandView::UpdateDatapoint {
                    datapoint_id,
                    data: request.data,
                    target: request.target,
                    metadata: request.metadata,
                }
            },
            UpdateDatapointData::FetchingDataset { project_id, dataset_id, .. } => {
                CommandView::GetDataset { project_id, dataset_id }
            },
            UpdateDatapointData::Indexing { project_id, dataset, datapoint } => {
                CommandView::IndexNewPoints {
                    dataset,
                    datapoints: seq![datapoint],
                    project: hyphenated(project_id.bits),
                    index_column: column_view(dataset.indexed_on),
                }
            },
            UpdateDatapointData::Done { datapoint } => CommandView::Respond(
                ResponseView::Datapoint(datapoint),
            ),
        }
    }

    open spec fn next(self, reply: Reply<T>) -> Result<UpdateDatapointData<T>, T::Error> {
        match (self, reply) {
            (_, Reply::Failed(error)) => Err(error),
            (
                UpdateDatapointData::Updating { project_id, dataset_id, .. },
                Reply::Datapoint(datapoint),
            ) => Ok(UpdateDatapointData::FetchingDataset { project_id, dataset_id, datapoint }),
            (
                UpdateDatapointData::FetchingDataset { project_id, datapoint, .. },
                Reply::Dataset(dataset),
            ) => if dataset.indexed_on is Some {
                Ok(UpdateDatapointData::Indexing { project_id, dataset, datapoint })
            } else {
                Ok(UpdateDatapointData::Done { datapoint })
            },
            (UpdateDatapointData::Indexing { datapoint, .. }, _) => Ok(
                UpdateDatapointData::Done { datapoint },
            ),
            _ => Ok(self),
        }
    }

    open spec fn remaining(self) -> nat {
        match self {
            UpdateDatapointData::Updating { .. } => 3,
            UpdateDatapointData::FetchingDataset { .. } => 2,
            UpdateDatapointData::Indexing { .. } => 1,
            UpdateDatapointData::Done { .. } => 0,
        }
    }

    fn command(&self) -> (command: Command<'_, T>) {
        match self {
            UpdateDatapointData::Updating { datapoint_id, request, .. } => {
                Command::UpdateDatapoint {
                    datapoint_id: *datapoint_id,
                    data: &request.data,
                    target: &request.target,
                    metadata: &request.metadata,
                }
            },
            UpdateDatapointData::FetchingDataset { project_id, dataset_id, .. } => {
                Command::GetDataset { project_id: *project_id, dataset_id: *dataset_id }
            },
            UpdateDatapointData::Indexing { project_id, dataset, datapoint } => {
                Command::IndexNewPoints {
                    dataset,
                    datapoints: Points::One(datapoint),
                    project: project_id.to_string(),
                    index_column: borrow_column(&dataset.indexed_on),
                }
            },
            UpdateDatapointData::Done { datapoint } => Command::Respond(
                Response::Datapoint(datapoint),
            ),
        }
    }

    fn step(self, reply: Reply<T>) -> (outcome: Result<UpdateDatapointData<T>, T::Error>) {
        match (self, reply) {
            (_, Reply::Failed(error)) => Err(error),
            (
                UpdateDatapointData::Updating { project_id, dataset_id, .. },
                Reply::Datapoint(datapoint),
            ) => Ok(UpdateDatapointData::FetchingDataset { project_id, dataset_id, datapoint }),
            (
                UpdateDatapointData::FetchingDataset { project_id, datapoint, .. },
                Reply::Dataset(dataset),
            ) => {
                if dataset.indexed_on.is_some() {
                    Ok(UpdateDatapointData::Indexing { project_id, dataset, datapoint })
                } else {
                    Ok(UpdateDatapointData::Done { datapoint })
                }
            },
            (UpdateDatapointData::Indexing { datapoint, .. }, _) => {
                Ok(UpdateDatapointData::Done { datapoint })
            },
            (handler, _) => Ok(handler),
        }
    }

    proof fn law_failures_are_handed_on(self, error: T::Error) {
    }

    proof fn law_errors_come_from_outside(self, reply: Reply<T>) {
    }

    proof fn law_end(self) {
    }

    proof fn law_progress(self, reply: Reply<T>) {
    }
}

} // verus!
