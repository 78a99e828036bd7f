pub mod constraints;
pub mod custom_filters;
pub mod error;
pub mod reader;
pub mod run;
pub mod template;
