pub mod item_state;
pub mod text;
pub mod datetime;
pub mod paging;
pub mod sorting;
pub mod json;
pub mod errors;
pub mod response;
pub mod contribution;
pub mod variables;
pub mod issues;
pub mod pull_requests;
pub mod repositories;
pub mod query;
pub mod summary;
