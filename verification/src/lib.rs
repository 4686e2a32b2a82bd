//! Bridge between a generic "disclose these attributes" request and an IRMA
//! disclosure session: attribute mapping, validation of the session result,
//! sealing of the outcome, and the stateless continuation that carries the
//! request across redirects.

pub mod attributes;
pub mod bridge;
pub mod codec;
pub mod config;
pub mod idauth;
pub mod irma;
pub mod jwe;
mod text;
pub mod validator;
