pub mod commands;
pub mod dataset_laws;
pub mod deleting;
pub mod indexing;
pub mod inserting;
pub mod paging;
pub mod rows;
pub mod workflow;
