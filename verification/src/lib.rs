//! Request signing for the TikTok web API: the decisions of the signing
//! pipeline, the query merge, the parameter cipher and the `verify_fp` token.

pub mod address;
pub mod cipher;
pub mod error;
pub mod navigator;
pub mod query;
pub mod query_laws;
pub mod signer;
pub mod text;
pub mod utils;
