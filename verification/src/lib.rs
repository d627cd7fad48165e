//! A multi-tool command-line library whose core is a text-signing
//! subsystem: generation of signing material, production of a detached
//! signature over a byte payload, and verification of a candidate signature
//! against supplied key material.
//!
//! Two algorithms stand behind one interface. The keyed-hash variant is a
//! shared-secret MAC: anyone holding the 32-byte key can both sign and
//! verify. The asymmetric variant derives a keypair from a 32-byte seed:
//! only the seed holder signs, any holder of the public key verifies.
//! Signatures cross the boundary as URL-safe unpadded base64 text, and a
//! failed cryptographic check is a normal `false` result, distinct from the
//! typed errors that malformed input raises.

mod b64;
pub mod cli;
mod compare;
mod crypto;
mod errors;
pub mod process;
mod rng;

pub use cli::csv::{CsvOpts, OutputFormat};
pub use cli::http::{HttpServeOpts, HttpSubCommand};
pub use cli::text::{
    TextKeyGenerateOpts, TextSignFormat, TextSignOpts, TextSubCommand, TextVerifyOpts,
};
pub use cli::{parse_input_file, parse_path};
pub use compare::ct_bytes_eq;
pub use errors::TextSignError;
pub use process::gen_pass::process_gen_pass;
pub use process::http_serve::{dir_listing_html, file_response, FileLookup, FileResponse};
pub use process::jwt::{Claims, JwtValidationRules, jwt_validation_rules};
pub use process::text::{key_file_names, process_generate, process_sign, process_verify, sign, verify};
