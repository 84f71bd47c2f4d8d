//! The decisions of an application server: how a chat completion of Azure's OpenAI models is
//! requested, followed and summed up, and how requests on datasets are carried out. What touches
//! the network, the database or the store of embeddings is done by the caller, who is told what
//! to do by a command and says with a reply what came of it.

pub mod ids;
pub mod json;
pub mod language_model;
pub mod routes;
