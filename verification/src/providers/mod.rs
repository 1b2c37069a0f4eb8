pub mod provider;
pub mod readwise;
pub mod types;

pub use provider::Provider;
