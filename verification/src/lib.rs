//! Fetch-a-duck pipeline, verified.
//!
//! The library side of a small program that downloads a JSON document,
//! extracts the string under the top-level `"url"` key, validates it as a
//! URL, and prints it. Everything except the network transfer lives here:
//! parsing the response body, looking up the key, rendering the document
//! into error messages, and validating the URL string.

pub mod extract;
pub mod json;
pub mod parse;
pub mod render;
pub mod urls;

pub use extract::{extract_url, process_body, DuckError};
pub use json::JsonValue;
pub use urls::DuckUrl;
