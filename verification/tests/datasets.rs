use app_server::ids::Uuid;
use app_server::routes::commands::{Command, Points, Reply, Response};
use app_server::routes::deleting::{delete_all_datapoints, delete_datapoints, delete_dataset};
use app_server::routes::indexing::index_dataset;
use app_server::routes::inserting::{
    create_datapoints, update_datapoint_data, upload_datapoint_file,
};
use app_server::routes::paging::{get_datapoints, DEFAULT_PAGE_SIZE};
use app_server::routes::rows::{
    CreateDatapointsRequest, Dataset, DeleteDatapointRequest, IndexDatasetRequest,
    PaginatedGetQueryParams, Rows, UpdateDatapointRequest, UploadedFile,
};
use app_server::routes::workflow::Workflow;
use serde_json::Value;

struct Stored;

impl Rows for Stored {
    type Datapoint = u32;
    type DatapointView = char;
    type Record = &'static str;
    type Error = String;
}

const PROJECT: Uuid = Uuid { bits: 0xa };
const DATASET: Uuid = Uuid { bits: 0xd };
const PROJECT_TEXT: &str = "00000000-0000-0000-0000-00000000000a";
const DATASET_TEXT: &str = "00000000-0000-0000-0000-00000000000d";

fn dataset(record: &'static str, indexed_on: Option<&str>) -> Dataset<Stored> {
    Dataset { record, indexed_on: indexed_on.map(|name| name.to_string()) }
}

fn file(is_unstructured: bool) -> UploadedFile {
    UploadedFile { filename: "f.txt".to_string(), is_unstructured, bytes: vec![1, 2] }
}

fn show(command: &Command<'_, Stored>) -> String {
    match command {
        Command::ReadFile => "read file".to_string(),
        Command::GetDataset { project_id, dataset_id } => {
            format!("get dataset {:x} {:x}", project_id.bits, dataset_id.bits)
        }
        Command::DeleteDataset { dataset_id } => format!("delete dataset {:x}", dataset_id.bits),
        Command::UpdateIndexColumn { dataset_id, index_column } => {
            format!("store column {:x} {:?}", dataset_id.bits, index_column)
        }
        Command::CountDatapoints { dataset_id } => format!("count {:x}", dataset_id.bits),
        Command::GetDatapoints { dataset_id, limit, offset } => {
            format!("get page {:x} {} {}", dataset_id.bits, limit, offset)
        }
        Command::GetAllDatapoints { dataset_id } => format!("get all {:x}", dataset_id.bits),
        Command::InsertFromFile { bytes, filename, dataset_id } => {
            format!("insert file {:?} {} {:x}", bytes, filename, dataset_id.bits)
        }
        Command::InsertRawData { dataset_id, raw } => {
            format!("insert {:x} {}", dataset_id.bits, Value::Array(raw.to_vec()))
        }
        Command::UpdateDatapoint { datapoint_id, data, target, metadata } => {
            format!("update {:x} {} {} {:?}", datapoint_id.bits, data, target, metadata)
        }
        Command::DeleteDatapoints { ids } => {
            format!("delete {:?}", ids.iter().map(|id| id.bits).collect::<Vec<u128>>())
        }
        Command::DeleteAllDatapoints { dataset_id } => {
            format!("delete all {:x}", dataset_id.bits)
        }
        Command::DeleteEmbeddings { project, filters } => {
            let filters: Vec<String> = filters
                .iter()
                .map(|filter| format!("{}={}", filter.field, filter.value))
                .collect();
            format!("delete embeddings {} {:?}", project, filters)
        }
        Command::IndexNewPoints { dataset, datapoints, project, index_column } => {
            let points = match datapoints {
                Points::One(point) => vec![**point],
                Points::Many(points) => points.to_vec(),
            };
            format!("index {} {:?} {} {:?}", dataset.record, points, project, index_column)
        }
        Command::Respond(Response::Empty) => "respond".to_string(),
        Command::Respond(Response::Datapoint(point)) => format!("respond point {}", point),
        Command::Respond(Response::Datapoints(points)) => format!("respond points {:?}", points),
        Command::Respond(Response::Page(page)) => {
            format!("respond page {:?} {} {}", page.items, page.total_count, page.any_in_project)
        }
        Command::Respond(Response::Dataset(dataset)) => {
            format!("respond dataset {} {:?}", dataset.record, dataset.indexed_on)
        }
    }
}

fn play<W: Workflow<Stored>>(start: W, replies: Vec<Reply<Stored>>) -> Vec<String> {
    let mut log = vec![show(&start.command())];
    let mut handler = start;
    for reply in replies {
        assert!(reply.answers(&handler.command()));
        match handler.step(reply) {
            Ok(after) => {
                handler = after;
                log.push(show(&handler.command()));
            }
            Err(error) => {
                log.push(format!("error {}", error));
                return log;
            }
        }
    }
    log
}

#[test]
fn a_dataset_is_deleted_before_its_embeddings() {
    assert_eq!(
        play(delete_dataset(PROJECT, DATASET), vec![Reply::Done, Reply::Done]),
        vec![
            "delete dataset d".to_string(),
            format!(
                "delete embeddings {} [\"datasource_id={}\"]",
                PROJECT_TEXT, DATASET_TEXT
            ),
            "respond".to_string(),
        ]
    );
}

#[test]
fn a_failed_deletion_leaves_the_embeddings() {
    assert_eq!(
        play(
            delete_dataset(PROJECT, DATASET),
            vec![Reply::Failed("no database".to_string())]
        ),
        vec!["delete dataset d".to_string(), "error no database".to_string()]
    );
}

#[test]
fn datapoints_are_deleted_with_their_embeddings() {
    let request = DeleteDatapointRequest { ids: vec![Uuid { bits: 1 }, Uuid { bits: 2 }] };
    assert_eq!(
        play(delete_datapoints(PROJECT, request), vec![Reply::Done, Reply::Done]),
        vec![
            "delete [1, 2]".to_string(),
            format!(
                "delete embeddings {} [\"id=00000000-0000-0000-0000-000000000001\", \
                 \"id=00000000-0000-0000-0000-000000000002\"]",
                PROJECT_TEXT
            ),
            "respond".to_string(),
        ]
    );
}

#[test]
fn all_datapoints_are_deleted_with_the_embeddings_of_those_deleted() {
    assert_eq!(
        play(
            delete_all_datapoints(PROJECT, DATASET),
            vec![Reply::Ids(vec![Uuid { bits: 3 }]), Reply::Done]
        ),
        vec![
            "delete all d".to_string(),
            format!(
                "delete embeddings {} [\"id=00000000-0000-0000-0000-000000000003\"]",
                PROJECT_TEXT
            ),
            "respond".to_string(),
        ]
    );
}

#[test]
fn deleting_from_an_empty_dataset_still_reaches_the_embeddings() {
    assert_eq!(
        play(
            delete_all_datapoints(PROJECT, DATASET),
            vec![Reply::Ids(vec![]), Reply::Done]
        )[1],
        format!("delete embeddings {} []", PROJECT_TEXT)
    );
}

#[test]
fn a_page_has_fifty_datapoints_if_nothing_is_said() {
    assert_eq!(DEFAULT_PAGE_SIZE, 50);
    let params = PaginatedGetQueryParams { page_number: 3, page_size: None };
    assert!(params.has_offset());
    assert_eq!(
        play(
            get_datapoints::<Stored>(DATASET, params),
            vec![Reply::Page(vec!['a', 'b']), Reply::Count(152)]
        ),
        vec!["get page d 50 150", "count d", "respond page ['a', 'b'] 152 true"]
    );
}

#[test]
fn the_first_page_starts_at_the_first_datapoint() {
    let params = PaginatedGetQueryParams { page_number: 0, page_size: Some(20) };
    assert_eq!(play(get_datapoints::<Stored>(DATASET, params), vec![]), vec!["get page d 20 0"]);
    let params = PaginatedGetQueryParams { page_number: 1, page_size: Some(20) };
    assert_eq!(play(get_datapoints::<Stored>(DATASET, params), vec![]), vec!["get page d 20 20"]);
}

#[test]
fn a_size_beyond_the_signed_range_wraps() {
    let params = PaginatedGetQueryParams { page_number: 1, page_size: Some(usize::MAX) };
    assert_eq!(params.limit(), usize::MAX as i64);
    assert!(params.has_offset());
}

#[test]
fn offsets_out_of_range_are_told() {
    let largest = i64::MAX as usize;
    assert!(PaginatedGetQueryParams { page_number: 1, page_size: Some(largest) }.has_offset());
    assert!(!PaginatedGetQueryParams { page_number: 2, page_size: Some(largest) }.has_offset());
}

#[test]
fn new_datapoints_of_an_indexed_dataset_are_indexed() {
    let raw = CreateDatapointsRequest { datapoints: vec![Value::Bool(true), Value::Null] };
    assert_eq!(
        play(
            create_datapoints(PROJECT, DATASET, raw),
            vec![
                Reply::Dataset(dataset("set", Some("body"))),
                Reply::Datapoints(vec![4, 5]),
                Reply::Done
            ]
        ),
        vec![
            "get dataset a d".to_string(),
            "insert d [true,null]".to_string(),
            format!("index set [4, 5] {} Some(\"body\")", PROJECT_TEXT),
            "respond points [4, 5]".to_string(),
        ]
    );
}

#[test]
fn new_datapoints_of_another_dataset_are_not_indexed() {
    let raw = CreateDatapointsRequest { datapoints: vec![] };
    assert_eq!(
        play(
            create_datapoints(PROJECT, DATASET, raw),
            vec![Reply::Dataset(dataset("set", None)), Reply::Datapoints(vec![])]
        ),
        vec!["get dataset a d", "insert d []", "respond points []"]
    );
}

#[test]
fn an_updated_datapoint_is_indexed_alone() {
    let request = || UpdateDatapointRequest {
        data: Value::Bool(true),
        target: Value::Bool(false),
        metadata: None,
    };
    let id = Uuid { bits: 0xf };
    assert_eq!(
        play(
            update_datapoint_data(PROJECT, DATASET, id, request()),
            vec![
                Reply::Datapoint(6),
                Reply::Dataset(dataset("set", Some("body"))),
                Reply::Done
            ]
        ),
        vec![
            "update f true false None".to_string(),
            "get dataset a d".to_string(),
            format!("index set [6] {} Some(\"body\")", PROJECT_TEXT),
            "respond point 6".to_string(),
        ]
    );
    assert_eq!(
        play(
            update_datapoint_data(PROJECT, DATASET, id, request()),
            vec![Reply::Datapoint(6), Reply::Dataset(dataset("set", None))]
        ),
        vec!["update f true false None", "get dataset a d", "respond point 6"]
    );
}

#[test]
fn an_unstructured_file_makes_an_empty_dataset_indexed_by_content() {
    assert_eq!(
        play(
            upload_datapoint_file(PROJECT, DATASET),
            vec![
                Reply::File(file(true)),
                Reply::Dataset(dataset("set", None)),
                Reply::Count(0),
                Reply::Dataset(dataset("stored", Some("content"))),
                Reply::Datapoints(vec![8]),
                Reply::Done
            ]
        ),
        vec![
            "read file".to_string(),
            "get dataset a d".to_string(),
            "count d".to_string(),
            "store column d Some(\"content\")".to_string(),
            "insert file [1, 2] f.txt d".to_string(),
            format!("index set [8] {} Some(\"content\")", PROJECT_TEXT),
            "respond points [8]".to_string(),
        ]
    );
}

#[test]
fn an_unstructured_file_leaves_a_dataset_with_datapoints_unindexed() {
    assert_eq!(
        play(
            upload_datapoint_file(PROJECT, DATASET),
            vec![
                Reply::File(file(true)),
                Reply::Dataset(dataset("set", None)),
                Reply::Count(1),
                Reply::Datapoints(vec![8])
            ]
        ),
        vec![
            "read file",
            "get dataset a d",
            "count d",
            "insert file [1, 2] f.txt d",
            "respond points [8]"
        ]
    );
}

#[test]
fn an_indexed_dataset_keeps_its_column_on_upload() {
    for unstructured in [true, false] {
        assert_eq!(
            play(
                upload_datapoint_file(PROJECT, DATASET),
                vec![
                    Reply::File(file(unstructured)),
                    Reply::Dataset(dataset("set", Some("body"))),
                    Reply::Datapoints(vec![8]),
                    Reply::Done
                ]
            ),
            vec![
                "read file".to_string(),
                "get dataset a d".to_string(),
                "insert file [1, 2] f.txt d".to_string(),
                format!("index set [8] {} Some(\"body\")", PROJECT_TEXT),
                "respond points [8]".to_string(),
            ]
        );
    }
}

#[test]
fn a_structured_file_is_only_added() {
    assert_eq!(
        play(
            upload_datapoint_file(PROJECT, DATASET),
            vec![
                Reply::File(file(false)),
                Reply::Dataset(dataset("set", None)),
                Reply::Datapoints(vec![8])
            ]
        ),
        vec!["read file", "get dataset a d", "insert file [1, 2] f.txt d", "respond points [8]"]
    );
}

#[test]
fn an_upload_stops_where_it_fails() {
    assert_eq!(
        play(
            upload_datapoint_file::<Stored>(PROJECT, DATASET),
            vec![Reply::File(file(true)), Reply::Failed("gone".to_string())]
        ),
        vec!["read file", "get dataset a d", "error gone"]
    );
}

fn index_request(column: Option<&str>) -> IndexDatasetRequest {
    IndexDatasetRequest { index_column: column.map(|name| name.to_string()) }
}

#[test]
fn indexing_on_the_same_column_changes_nothing() {
    for column in [None, Some("body")] {
        assert_eq!(
            play(
                index_dataset(PROJECT, DATASET, index_request(column)),
                vec![Reply::Dataset(dataset("set", column))]
            ),
            vec![
                "get dataset a d".to_string(),
                format!("respond dataset set {:?}", column),
            ]
        );
    }
}

#[test]
fn indexing_on_another_column_replaces_the_embeddings() {
    assert_eq!(
        play(
            index_dataset(PROJECT, DATASET, index_request(Some("title"))),
            vec![
                Reply::Dataset(dataset("set", Some("body"))),
                Reply::Datapoints(vec![1, 2]),
                Reply::Done,
                Reply::Done,
                Reply::Dataset(dataset("stored", Some("title")))
            ]
        ),
        vec![
            "get dataset a d".to_string(),
            "get all d".to_string(),
            format!(
                "delete embeddings {} [\"datasource_id={}\"]",
                PROJECT_TEXT, DATASET_TEXT
            ),
            format!("index set [1, 2] {} Some(\"title\")", PROJECT_TEXT),
            "store column d Some(\"title\")".to_string(),
            "respond dataset stored Some(\"title\")".to_string(),
        ]
    );
}

#[test]
fn indexing_for_the_first_time_deletes_nothing() {
    assert_eq!(
        play(
            index_dataset(PROJECT, DATASET, index_request(Some("title"))),
            vec![
                Reply::Dataset(dataset("set", None)),
                Reply::Datapoints(vec![1]),
                Reply::Done,
                Reply::Dataset(dataset("stored", Some("title")))
            ]
        ),
        vec![
            "get dataset a d".to_string(),
            "get all d".to_string(),
            format!("index set [1] {} Some(\"title\")", PROJECT_TEXT),
            "store column d Some(\"title\")".to_string(),
            "respond dataset stored Some(\"title\")".to_string(),
        ]
    );
}

#[test]
fn indexing_no_longer_only_deletes() {
    assert_eq!(
        play(
            index_dataset(PROJECT, DATASET, index_request(None)),
            vec![
                Reply::Dataset(dataset("set", Some("body"))),
                Reply::Datapoints(vec![1]),
                Reply::Done,
                Reply::Dataset(dataset("stored", None))
            ]
        ),
        vec![
            "get dataset a d".to_string(),
            "get all d".to_string(),
            format!(
                "delete embeddings {} [\"datasource_id={}\"]",
                PROJECT_TEXT, DATASET_TEXT
            ),
            "store column d None".to_string(),
            "respond dataset stored None".to_string(),
        ]
    );
}

#[test]
fn an_answered_request_takes_no_reply() {
    let done = app_server::routes::deleting::DeleteDataset::Done;
    let command: Command<'_, Stored> = done.command();
    assert!(!Reply::Done.answers(&command));
    assert!(!Reply::Failed("late".to_string()).answers(&command));
}
