//! Client-side logic for the daldal.so OAuth2 API.
//!
//! The library never touches the network. For every operation it builds
//! the request to send and reads the reply that came back; sending is left
//! to the caller.

pub mod api;
pub mod authorize;
pub mod callback;
pub mod error;
pub mod grant;
pub mod http;
pub mod inventory;
pub mod json;
pub mod members;
pub mod pending;
pub mod percent;
pub mod query;
pub mod records;
pub mod text;
pub mod token;

pub use api::{
    get_oauth_token, inventory, inventory_request, me, me_request, moon, moon_request,
    transceivosome, transceivosome_request,
};
pub use authorize::oauth_url;
pub use callback::{
    begin_authorization, callback_page, callback_request, granted_access_token, greet,
    profile_request,
};
pub use error::ClientError;
pub use grant::{GrantType, TokenErrors};
pub use http::{request, token_request, Field, Method, Reply, Request};
pub use inventory::{InventoryResponse, Item};
pub use pending::PendingFlows;
pub use records::{LibraOrStar, MeResponse, Profile};
pub use token::OauthResponse;
