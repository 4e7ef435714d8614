//! A static-site build core: markdown documents are parsed into an event
//! stream, a single streaming pass prevents orphaned words and captures the
//! page title, the events are rendered to an HTML fragment, and the fragment
//! is wrapped in a site template together with per-page and per-site values.

pub mod config;
pub mod files;
pub mod markdown_to_html;
pub mod template;
pub mod text;
pub mod typography;

pub use config::Config;
pub use files::{find_files, is_home, src_path_to_dest_path};
pub use markdown_to_html::markdown_to_html;
pub use template::State;
pub use typography::replace_last_bsp_with_nbsp;
