//! Verified core of a set of Spin components: a small calculator, the
//! city/café selection rules of a coffee-posting bot, the request texts it
//! builds, its redirect policy and the status handling of a fortune client.

pub mod calc;
pub mod text;
pub mod json;
pub mod fortune;
pub mod random;
pub mod geo;
pub mod places;
pub mod maps;
pub mod fetch;
pub mod multipart;
pub mod mastodon;
