//! Fetches the customer reviews of an App Store application, page by page
//! and region by region, and flattens the storefront's feed entries into
//! plain review records ready to be written as rows.
pub mod json;
pub mod page;
pub mod review;
pub mod export;
pub mod scraper;
