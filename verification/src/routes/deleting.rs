use crate::ids::{hyphenated, Uuid};
use crate::routes::commands::{Command, CommandView, Reply, Response, ResponseView};
use crate::routes::rows::{
    datapoint_filter, dataset_filter, filters_of_datapoints, filters_of_dataset,
    DeleteDatapointRequest, Rows,
};
use crate::routes::workflow::Workflow;
use vstd::prelude::*;

verus! {

/// Deletes a dataset, then the embeddings of its datapoints.
#[derive(Debug)]
pub enum DeleteDataset {
    DeletingRow { project_id: Uuid, dataset_id: Uuid },
    DeletingEmbeddings { project_id: Uuid, dataset_id: Uuid },
    Done,
}

/// Starts the deletion of a dataset.
pub fn delete_dataset(project_id: Uuid, dataset_id: Uuid) -> (handler: DeleteDataset)
    ensures
        handler == (DeleteDataset::DeletingRow { project_id, dataset_id }),
{
    DeleteDataset::DeletingRow { project_id, dataset_id }
}

impl<T: Rows> Workflow<T> for DeleteDataset {
    open spec fn current(self) -> CommandView<T> {
        match self {
            DeleteDataset::DeletingRow { dataset_id, .. } => CommandView::DeleteDataset {
                dataset_id,
            },
            DeleteDataset::DeletingEmbeddings { project_id, dataset_id } => {
                CommandView::DeleteEmbeddings {
                    project: hyphenated(project_id.bits),
                    filters: seq![dataset_filter(dataset_id)],
                }
            },
            DeleteDataset::Done => CommandView::Respond(ResponseView::Empty),
        }
    }

    open spec fn next(self, reply: Reply<T>) -> Result<DeleteDataset, T::Error> {
        match (self, reply) {
            (_, Reply::Failed(error)) => Err(error),
            (DeleteDataset::DeletingRow { project_id, dataset_id }, _) => Ok(
                DeleteDataset::DeletingEmbeddings { project_id, dataset_id },
            ),
            _ => Ok(DeleteDataset::Done),
        }
    }

    open spec fn remaining(self) -> nat {
        match self {
            DeleteDataset::DeletingRow { .. } => 2,
            DeleteDataset::DeletingEmbeddings { .. } => 1,
            DeleteDataset::Done => 0,
        }
    }

    fn command(&self) -> (command: Command<'_, T>) {
        match self {
            DeleteDataset::DeletingRow { dataset_id, .. } => Command::DeleteDataset {
                dataset_id: *dataset_id,
            },
            DeleteDataset::DeletingEmbeddings { project_id, dataset_id } => {
                Command::DeleteEmbeddings {
                    project: project_id.to_string(),
                    filters: filters_of_dataset(*dataset_id),
                }
            },
            DeleteDataset::Done => Command::Respond(Response::Empty),
        }
    }

    fn step(self, reply: Reply<T>) -> (outcome: Result<DeleteDataset, T::Error>) {
        match (self, reply) {
            (_, Reply::Failed(error)) => Err(error),
            (DeleteDataset::DeletingRow { project_id, dataset_id }, _) => {
                Ok(DeleteDataset::DeletingEmbeddings { project_id, dataset_id })
            },
            _ => Ok(DeleteDataset::Done),
        }
    }

    proof fn law_failures_are_handed_on(self, error: T::Error) {
    }

    proof fn law_errors_come_from_outside(self, reply: Reply<T>) {
    }

    proof fn law_end(self) {
    }

    proof fn law_progress(self, reply: Reply<T>) {
    }
}

/// Deletes datapoints, then their embeddings.
#[derive(Debug)]
pub enum DeleteDatapoints {
    DeletingRows { project_id: Uuid, ids: Vec<Uuid> },
    DeletingEmbeddings { project_id: Uuid, ids: Vec<Uuid> },
    Done,
}

/// Starts the deletion of datapoints.
pub fn delete_datapoints(project_id: Uuid, request: DeleteDatapointRequest) -> (handler:
    DeleteDatapoints)
    ensures
        handler == (DeleteDatapoints::DeletingRows { project_id, ids: request.ids }),
{
    DeleteDatapoints::DeletingRows { project_id, ids: request.ids }
}

impl<T: Rows> Workflow<T> for DeleteDatapoints {
    open spec fn current(self) -> CommandView<T> {
        match self {
            DeleteDatapoints::DeletingRows { ids, .. } => CommandView::DeleteDatapoints {
                ids: ids@,
            },
            DeleteDatapoints::DeletingEmbeddings { project_id, ids } => {
                CommandView::DeleteEmbeddings {
                    project: hyphenated(project_id.bits),
                    filters: ids@.map_values(|id: Uuid| datapoint_filter(id)),
                }
            },
            DeleteDatapoints::Done => CommandView::Respond(ResponseView::Empty),
        }
    }

    open spec fn next(self, reply: Reply<T>) -> Result<DeleteDatapoints, T::Error> {
        match (self, reply) {
            (_, Reply::Failed(error)) => Err(error),
            (DeleteDatapoints::DeletingRows { project_id, ids }, _) => Ok(
                DeleteDatapoints::DeletingEmbeddings { project_id, ids },
            ),
            _ => Ok(DeleteDatapoints::Done),
        }
    }

    open spec fn remaining(self) -> nat {
        match self {
            DeleteDatapoints::DeletingRows { .. } => 2,
            DeleteDatapoints::DeletingEmbeddings { .. } => 1,
            DeleteDatapoints::Done => 0,
        }
    }

    fn command(&self) -> (command: Command<'_, T>) {
        match self {
            DeleteDatapoints::DeletingRows { ids, .. } => Command::DeleteDatapoints { ids },
            DeleteDatapoints::DeletingEmbeddings { project_id, ids } => {
                Command::DeleteEmbeddings {
                    project: project_id.to_string(),
                    filters: filters_of_datapoints(ids),
                }
            },
            DeleteDatapoints::Done => Command::Respond(Response::Empty),
        }
    }

    fn step(self, reply: Reply<T>) -> (outcome: Result<DeleteDatapoints, T::Error>) {
        match (self, reply) {
            (_, Reply::Failed(error)) => Err(error),
            (DeleteDatapoints::DeletingRows { project_id, ids }, _) => {
                Ok(DeleteDatapoints::DeletingEmbeddings { project_id, ids })
            },
            _ => Ok(DeleteDatapoints::Done),
        }
    }

    proof fn law_failures_are_handed_on(self, error: T::Error) {
    }

    proof fn law_errors_come_from_outside(self, reply: Reply<T>) {
    }

    proof fn law_end(self) {
    }

    proof fn law_progress(self, reply: Reply<T>) {
    }
}

/// Deletes every datapoint of a dataset, then the embeddings of those that were deleted.
#[derive(Debug)]
pub enum DeleteAllDatapoints {
    DeletingRows { project_id: Uuid, dataset_id: Uuid },
    DeletingEmbeddings { project_id: Uuid, ids: Vec<Uuid> },
    Done,
}

/// Starts the deletion of every datapoint of a dataset.
pub fn delete_all_datapoints(project_id: Uuid, dataset_id: Uuid) -> (handler:
    DeleteAllDatapoints)
    ensures
        handler == (DeleteAllDatapoints::DeletingRows { project_id, dataset_id }),
{
    DeleteAllDatapoints::DeletingRows { project_id, dataset_id }
}

impl<T: Rows> Workflow<T> for DeleteAllDatapoints {
    open spec fn current(self) -> CommandView<T> {
        match self {
            DeleteAllDatapoints::DeletingRows { dataset_id, .. } => {
                CommandView::DeleteAllDatapoints { dataset_id }
            },
            DeleteAllDatapoints::DeletingEmbeddings { project_id, ids } => {
                CommandView::DeleteEmbeddings {
                    project: hyphenated(project_id.bits),
                    filters: ids@.map_values(|id: Uuid| datapoint_filter(id)),
                }
            },
            DeleteAllDatapoints::Done => CommandView::Respond(ResponseView::Empty),
        }
    }

    open spec fn next(self, reply: Reply<T>) -> Result<DeleteAllDatapoints, T::Error> {
        match (self, reply) {
            (_, Reply::Failed(error)) => Err(error),
            (DeleteAllDatapoints::DeletingRows { project_id, .. }, Reply::Ids(ids)) => Ok(
                DeleteAllDatapoints::DeletingEmbeddings { project_id, ids },
            ),
            _ => Ok(DeleteAllDatapoints::Done),
        }
    }

    open spec fn remaining(self) -> nat {
        match self {
            DeleteAllDatapoints::DeletingRows { .. } => 2,
            DeleteAllDatapoints::DeletingEmbeddings { .. } => 1,
            DeleteAllDatapoints::Done => 0,
        }
    }

    fn command(&self) -> (command: Command<'_, T>) {
        match self {
            DeleteAllDatapoints::DeletingRows { dataset_id, .. } => {
                Command::DeleteAllDatapoints { dataset_id: *dataset_id }
            },
            DeleteAllDatapoints::DeletingEmbeddings { project_id, ids } => {
                Command::DeleteEmbeddings {
                    project: project_id.to_string(),
                    filters: filters_of_datapoints(ids),
                }
            },
            DeleteAllDatapoints::Done => Command::Respond(Response::Empty),
        }
    }

    fn step(self, reply: Reply<T>) -> (outcome: Result<DeleteAllDatapoints, T::Error>) {
        match (self, reply) {
            (_, Reply::Failed(error)) => Err(error),
            (DeleteAllDatapoints::DeletingRows { project_id, .. }, Reply::Ids(ids)) => {
                Ok(DeleteAllDatapoints::DeletingEmbeddings { project_id, ids })
            },
            _ => Ok(DeleteAllDatapoints::Done),
        }
    }

    proof fn law_failures_are_handed_on(self, error: T::Error) {
    }

    proof fn law_errors_come_from_outside(self, reply: Reply<T>) {
    }

    proof fn law_end(self) {
    }

    proof fn law_progress(self, reply: Reply<T>) {
    }
}

} // verus!
