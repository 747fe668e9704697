//! A local OpenAI-compatible proxy over a pool of WorkBuddy accounts: the
//! decisions it takes, apart from the sockets, files and clocks that it takes
//! them about.

pub mod account;
pub mod assets;
pub mod chat;
pub mod chat_laws;
pub mod codec;
pub mod json;
pub mod listener;
pub mod model;
pub mod models;
pub mod offers;
pub mod pages;
pub mod proxy_config;
pub mod query;
pub mod reply;
pub mod requests;
pub mod routes;
pub mod running;
pub mod switching;
pub mod text;
pub mod text_laws;
pub mod upstream;
pub mod variant;
