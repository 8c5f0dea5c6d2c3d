//! Persistence backbone of an exchange: a batched asynchronous writer with
//! backpressure and retry, and the asset registry that turns exchange orders
//! into settlement commitments.

pub mod asset;
pub mod backpressure;
pub mod database;
pub mod decimal;
pub mod history;
pub mod market;
pub mod restapi;
pub mod worker;
