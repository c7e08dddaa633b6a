//! Token acquisition for OAuth 2.0 and OpenID Connect: the grant rules, the
//! callback matching, the token cache and the dispatcher that ties them
//! together, each with a machine-checked contract.

pub mod args;
pub mod auth_server;
pub mod browser;
pub mod callback;
pub mod config_file;
pub mod dispatcher;
pub mod file_retriever;
pub mod file_state;
pub mod grant;
pub mod oauth;
pub mod oauth_client;
pub mod page;
pub mod params;
pub mod retrievers;
pub mod text;
pub mod token_info;
pub mod web;

pub use dispatcher::get_token;
