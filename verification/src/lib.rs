//! Verified core of a small stock-keeping service: items with a stock level,
//! stock losses and resupplies, usage forecasts, and the errors and replies
//! that the service hands back to its HTTP layer.

pub mod calendar;
pub mod database_error;
pub mod forecast;
pub mod items;
pub mod replies;
pub mod service_error;
pub mod settings;
pub mod stock;
pub mod text;
