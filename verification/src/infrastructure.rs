//! Settings of the process: what the configuration holds and what is
//! derived from it before anything is opened.

pub mod config;
pub mod db;
pub mod logger;
pub mod text;
