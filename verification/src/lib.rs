//! The request pipeline of a small web server: a templated home page and
//! static assets read from disk, each answered with a status and a body.
//!
//! The library decides; the program around it listens, reads files and logs.

pub mod handlers;
pub mod media;
pub mod paths;
pub mod payload;
pub mod response;
pub mod state;
pub mod templates;
pub mod views;

pub use handlers::{
    asset_handler, create_html_response, get_local_path, home_handler, home_page, layout_request,
    render_outcome, render_page,
};
pub use response::{build_page_response, AssetResponse, PageResponse, RenderOutcome, Status};
pub use state::{CommonData, Config, ErrorPages, StartupFailure};
