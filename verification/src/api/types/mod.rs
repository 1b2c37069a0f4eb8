pub mod types;

pub use crate::providers::types::ReadwiseType;
pub use types::ApiResponse;
pub use types::Book;
pub use types::Book as BookResponse;
pub use types::BookListResponse;
pub use types::Highlight;
pub use types::Highlight as HighlightResponse;
pub use types::HighlightRequest;
pub use types::HighlightsResponse;
pub use types::PaginatedResponse;
pub use types::ReadwiseConfig;
pub use types::SimpleTag;
pub use types::SimpleTagsResponse;
pub use types::Tag;
pub use types::TagsResponse;
