pub mod chat_laws;
pub mod chat_run;
pub mod messages;
pub mod openai_azure;
