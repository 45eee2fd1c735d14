//! A price-card library for a chat bot: market data model, reply composition,
//! chart planning and the decisions of one request.

pub mod decimal;
pub mod text;
pub mod gecko;
pub mod money;
pub mod coin;
pub mod compose;
pub mod reply;
pub mod chart;
pub mod request;
pub mod control;
pub mod fulfill;
