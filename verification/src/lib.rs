pub mod api_interact;
pub mod dispatch;
pub mod listing;
pub mod num;
pub mod opts;
pub mod scan;
pub mod text;
