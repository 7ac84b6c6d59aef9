//! A typed client for the administrative JSON API of Google Cloud Storage.
//!
//! The library builds each request (method, percent-encoded path, query and JSON body)
//! and decodes each response body into a typed record or a typed error. Sending the
//! request and minting the bearer token are left to the caller.
pub mod bucket_access_control;
pub mod common;
pub mod default_object_access_control;
pub mod error;
pub mod hmac_key;
pub mod json;
pub mod object_access_control;
pub mod path;
pub mod request;
pub mod response;
pub mod service_account;
pub mod text;
pub mod time;

pub use crate::json::Json;

pub use crate::bucket_access_control::{BucketAccessControl, NewBucketAccessControl};
pub use crate::common::{Entity, ProjectTeam, Role, Team};
pub use crate::default_object_access_control::{
    DefaultObjectAccessControl, NewDefaultObjectAccessControl,
};
pub use crate::error::{Error, FieldError, RemoteError, Result};
pub use crate::hmac_key::{HmacKey, HmacMeta, HmacState};
pub use crate::object_access_control::{NewObjectAccessControl, ObjectAccessControl};
pub use crate::request::{Client, Method, Request, BASE_URL};
pub use crate::service_account::ServiceAccount;
pub use crate::time::Timestamp;
