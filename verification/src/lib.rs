pub mod api;
pub mod config;
pub mod dispatch;
pub mod error;
pub mod pipeline;
pub mod report;
pub mod run;
pub mod text;
pub mod window;
