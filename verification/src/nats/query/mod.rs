pub mod live_view_query;
pub use live_view_query::LiveViewQuery;

pub mod memory_view_query;
pub use memory_view_query::ViewTable;
