pub mod error;
pub mod pager;
pub mod readwise;
pub mod tags;
pub mod types;
