use crate::ids::{hyphenated, Uuid};
use crate::routes::commands::{Command, CommandView, Points, Reply, Response, ResponseView};
use crate::routes::rows::{
    borrow_column, column_view, dataset_filter, filters_of_dataset, same_column, Dataset,
    IndexDatasetRequest, Rows,
};
use crate::routes::workflow::Workflow;
use vstd::prelude::*;

verus! {

/// Indexes a dataset by another column, or no longer. Old embeddings go before new ones are
/// made, and the column is stored last.
pub enum IndexDataset<T: Rows> {
    FetchingDataset { project_id: Uuid, dataset_id: Uuid, column: Option<String> },
    FetchingDatapoints {
        project_id: Uuid,
        dataset_id: Uuid,
        column: Option<String>,
        dataset: Dataset<T>,
    },
    DeletingEmbeddings {
        project_id: Uuid,
        dataset_id: Uuid,
        column: Option<String>,
        dataset: Dataset<T>,
        datapoints: Vec<T::Datapoint>,
    },
    Indexing {
        project_id: Uuid,
        dataset_id: Uuid,
        column: Option<String>,
        dataset: Dataset<T>,
        datapoints: Vec<T::Datapoint>,
    },
    StoringColumn { dataset_id: Uuid, column: Option<String> },
    Done { dataset: Dataset<T> },
}

/// Starts the indexing of a dataset.
pub fn index_dataset<T: Rows>(
    project_id: Uuid,
    dataset_id: Uuid,
    request: IndexDatasetRequest,
) -> (handler: IndexDataset<T>)
    ensures
        handler == (IndexDataset::<T>::FetchingDataset {
            project_id,
            dataset_id,
            column: request.index_column,
        }),
{
    IndexDataset::FetchingDataset { project_id, dataset_id, column: request.index_column }
}

/// The state in which the datapoints are there and there are no old embeddings.
pub open spec fn cleared<T: Rows>(
    project_id: Uuid,
    dataset_id: Uuid,
    column: Option<String>,
    dataset: Dataset<T>,
    datapoints: Vec<T::Datapoint>,
) -> IndexDataset<T> {
    if column is Some {
        IndexDataset::Indexing { project_id, dataset_id, column, dataset, datapoints }
    } else {
        IndexDataset::StoringColumn { dataset_id, column }
    }
}

/// Goes on once the datapoints are there and there are no old embeddings.
fn after_clearing<T: Rows>(
    project_id: Uuid,
    dataset_id: Uuid,
    column: Option<String>,
    dataset: Dataset<T>,
    datapoints: Vec<T::Datapoint>,
) -> (handler: IndexDataset<T>)
    ensures
        handler == cleared(project_id, dataset_id, column, dataset, datapoints),
{
    if column.is_some() {
        IndexDataset::Indexing { project_id, dataset_id, column, dataset, datapoints }
    } else {
        IndexDataset::StoringColumn { dataset_id, column }
    }
}

impl<T: Rows> Workflow<T> for IndexDataset<T> {
    open spec fn current(self) -> CommandView<T> {
        match self {
            IndexDataset::FetchingDataset { project_id, dataset_id, .. } => {
                CommandView::GetDataset { project_id, dataset_id }
            },
            IndexDataset::FetchingDatapoints { dataset_id, .. } => {
                CommandView::GetAllDatapoints { dataset_id }
            },
            IndexDataset::DeletingEmbeddings { project_id, dataset_id, .. } => {
                CommandView::DeleteEmbeddings {
                    project: hyphenated(project_id.bits),
                    filters: seq![dataset_filter(dataset_id)],
                }
            },
            IndexDataset::Indexing { project_id, column, dataset, datapoints, .. } => {
                CommandView::IndexNewPoints {
                    dataset,
                    datapoints: datapoints@,
                    project: hyphenated(project_id.bits),
                    index_column: column_view(column),
                }
            },
            IndexDataset::StoringColumn { dataset_id, column } => {
                CommandView::UpdateIndexColumn { dataset_id, index_column: column_view(column) }
            },
            IndexDataset::Done { dataset } => CommandView::Respond(ResponseView::Dataset(dataset)),
        }
    }

    open spec fn next(self, reply: Reply<T>) -> Result<IndexDataset<T>, T::Error> {
        match (self, reply) {
            (_, Reply::Failed(error)) => Err(error),
            (
                IndexDataset::FetchingDataset { project_id, dataset_id, column },
                Reply::Dataset(dataset),
            ) => if column_view(dataset.indexed_on) == column_view(column) {
                Ok(IndexDataset::Done { dataset })
            } else {
                Ok(IndexDataset::FetchingDatapoints { project_id, dataset_id, column, dataset })
            },
            (
                IndexDataset::FetchingDatapoints { project_id, dataset_id, column, dataset },
                Reply::Datapoints(datapoints),
            ) => if dataset.indexed_on is Some {
                Ok(
                    IndexDataset::DeletingEmbeddings {
                        project_id,
                        dataset_id,
                        column,
                        dataset,
                        datapoints,
                    },
                )
            } else {
                Ok(cleared(project_id, dataset_id, column, dataset, datapoints))
            },
            (
                IndexDataset::DeletingEmbeddings {
                    project_id,
                    dataset_id,
                    column,
                    dataset,
                    datapoints,
                },
                _,
            ) => Ok(cleared(project_id, dataset_id, column, dataset, datapoints)),
            (IndexDataset::Indexing { dataset_id, column, .. }, _) => Ok(
                IndexDataset::StoringColumn { dataset_id, column },
            ),
            (IndexDataset::StoringColumn { .. }, Reply::Dataset(dataset)) => Ok(
                IndexDataset::Done { dataset },
            ),
            _ => Ok(self),
        }
    }

    open spec fn remaining(self) -> nat {
        match self {
            IndexDataset::FetchingDataset { .. } => 5,
            IndexDataset::FetchingDatapoints { .. } => 4,
            IndexDataset::DeletingEmbeddings { .. } => 3,
            IndexDataset::Indexing { .. } => 2,
            IndexDataset::StoringColumn { .. } => 1,
            IndexDataset::Done { .. } => 0,
        }
    }

    fn command(&self) -> (command: Command<'_, T>) {
        match self {
            IndexDataset::FetchingDataset { project_id, dataset_id, .. } => {
                Command::GetDataset { project_id: *project_id, dataset_id: *dataset_id }
            },
            IndexDataset::FetchingDatapoints { dataset_id, .. } => Command::GetAllDatapoints {
                dataset_id: *dataset_id,
            },
            IndexDataset::DeletingEmbeddings { project_id, dataset_id, .. } => {
                Command::DeleteEmbeddings {
                    project: project_id.to_string(),
                    filters: filters_of_dataset(*dataset_id),
                }
            },
            IndexDataset::Indexing { project_id, column, dataset, datapoints, .. } => {
                Command::IndexNewPoints {
                    dataset,
                    datapoints: Points::Many(datapoints),
                    project: project_id.to_string(),
                    index_column: borrow_column(column),
                }
            },
            IndexDataset::StoringColumn { dataset_id, column } => Command::UpdateIndexColumn {
                dataset_id: *dataset_id,
                index_column: borrow_column(column),
            },
            IndexDataset::Done { dataset } => Command::Respond(Response::Dataset(dataset)),
        }
    }

    fn step(self, reply: Reply<T>) -> (outcome: Result<IndexDataset<T>, T::Error>) {
        match (self, reply) {
            (_, Reply::Failed(error)) => Err(error),
            (
                IndexDataset::FetchingDataset { project_id, dataset_id, column },
                Reply::Dataset(dataset),
            ) => {
                if same_column(&dataset.indexed_on, &column) {
                    Ok(IndexDataset::Done { dataset })
                } else {
                    Ok(
                        IndexDataset::FetchingDatapoints {
                            project_id,
                            dataset_id,
                            column,
                            dataset,
                        },
                    )
                }
            },
            (
                IndexDataset::FetchingDatapoints { project_id, dataset_id, column, dataset },
                Reply::Datapoints(datapoints),
            ) => {
                if dataset.indexed_on.is_some() {
                    Ok(
                        IndexDataset::DeletingEmbeddings {
                            project_id,
                            dataset_id,
                            column,
                            dataset,
                            datapoints,
                        },
                    )
                } else {
                    Ok(after_clearing(project_id, dataset_id, column, dataset, datapoints))
                }
            },
            (
                IndexDataset::DeletingEmbeddings {
                    project_id,
                    dataset_id,
                    column,
                    dataset,
                    datapoints,
                },
                _,
            ) => Ok(after_clearing(project_id, dataset_id, column, dataset, datapoints)),
            (IndexDataset::Indexing { dataset_id, column, .. }, _) => {
                Ok(IndexDataset::StoringColumn { dataset_id, column })
            },
            (IndexDataset::StoringColumn { .. }, Reply::Dataset(dataset)) => {
                Ok(IndexDataset::Done { dataset })
            },
            (handler, _) => Ok(handler),
        }
    }

    proof fn law_failures_are_handed_on(self, error: T::Error) {
    }

    proof fn law_errors_come_from_outside(self, reply: Reply<T>) {
    }

    proof fn law_end(self) {
    }

    proof fn law_progress(self, reply: Reply<T>) {
    }
}

} // verus!
