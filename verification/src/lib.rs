//! Verified core of a client for the JavaScript Obfuscator HTTP API.
//!
//! A protection call has three steps. [`prepare_request`] checks a
//! [`ProtectRequest`] (credentials, files, preset) and builds the JSON body;
//! the caller sends it and reports what came back as an [`HttpOutcome`];
//! [`finish_request`] turns that into a [`ProtectResult`] or an [`Error`].
//! JSON documents are modelled by [`JsonValue`], whose view is [`JsonView`].
pub mod error;
pub mod json;
pub mod laws;
pub mod preset_laws;
pub mod presets;
pub mod request;
pub mod response;
pub mod strmap;
pub mod text;

pub use error::{Error, ErrorView};
pub use json::{JsonValue, JsonView};
pub use presets::{presets, Preset, PresetTable};
pub use request::{
    prepare_request, EnvCredentials, PreparedRequest, ProtectRequest, API_KEY_VAR, API_KEY_VAR_LONG,
    API_PASSWORD_VAR, API_PASSWORD_VAR_LONG, DEFAULT_ENDPOINT, DEFAULT_PRESET, DEFAULT_PROJECT_NAME, DEFAULT_TIMEOUT_MS,
    VERSION,
};
pub use response::{finish_request, interpret_answer, HttpOutcome, ProtectResult, SNIPPET_CHARS};
pub use strmap::StrMap;
