//! A client for HTTP endpoints protected by an OAuth2 client-credentials grant.
//!
//! The library holds the decisions of the authenticated-request pipeline: when the
//! cached credentials must be refreshed, what a token response turns into, which
//! header carries the token, and how a logical request reacts to each status code.
//! The asynchronous runner that performs the network calls lives outside it.
pub mod credentials;
pub mod error;
pub mod header;
pub mod retry;
pub mod settings;
pub mod store;

pub use crate::credentials::Credentials;
pub use crate::error::ClientError;
pub use crate::retry::{Decision, RetryState, MAX_RETRY_COUNT};
pub use crate::store::CredentialStore;
pub use crate::header::{authorization_header, bearer_value};
pub use crate::settings::{AuthorizedClientSettings, Settings};
