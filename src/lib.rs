//! Best-effort page fetching support: charset resolution and decoding of
//! response bodies, URL validation, and assembly of the fetch result.
pub mod charset;
pub mod response;
pub mod validation;

pub use charset::{
    choose_encoding, declared_charset, detect_encoding, resolve_and_decode, EncodingChoice,
};
pub use response::{build_response, ProxyResponse, MAX_REDIRECTS, TIMEOUT_SECS};
pub use validation::{validate, validate_url, ValidationError};
