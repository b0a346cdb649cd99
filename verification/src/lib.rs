//! A WebDriver client library: the protocol logic that drives a conforming browser.
pub mod actions;
pub mod client;
pub mod command;
pub mod common;
pub mod cookies;
pub mod elements;
pub mod error;
pub mod forms;
pub mod json;
pub mod keys;
pub mod laws;
pub mod print;
pub mod session;
pub mod standard;
pub mod text;
pub mod traits;
pub mod user_prompts;
pub mod wait;
pub mod wd;
