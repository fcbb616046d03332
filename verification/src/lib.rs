//! An engagement reward ledger: deduplicated likes on reviews, a like count
//! per review, and a supply-capped token reward minted to the liking user.

pub mod config;
pub mod error;
pub mod like_key;
pub mod model;
pub mod store;
pub mod text;
pub mod validation;
pub mod ledger;
pub mod laws;
