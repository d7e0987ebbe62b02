//! Formula 1 season schedules: decoding of season and circuit documents,
//! lookup of a race weekend by circuit, the decisions of the on-disk
//! response cache, and the lines and rows in which a schedule is shown.

pub mod cache;
pub mod circuits;
pub mod command;
pub mod display;
pub mod error;
pub mod fetch;
pub mod json;
pub mod model;
pub mod parser;
pub mod present;
pub mod resolver;
