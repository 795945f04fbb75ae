//! Decisions and parsing of a crawler for Bilibili posts ("dynamics") and
//! their reply threads.
pub mod json;
pub mod text;
pub mod post_parser;
pub mod scripts;
pub mod db;
pub mod config_type;
pub mod response;
pub mod fetch_posts;
pub mod fetch_reply;
