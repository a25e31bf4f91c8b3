//! Billing-record pipeline: spreadsheet rows are turned into validated
//! records, which are split into fixed-size batches and uploaded one batch
//! at a time, stopping at the first batch that is refused.

pub mod batch;
pub mod upload;
pub mod dates;
pub mod amount;
pub mod bills;
pub mod records;
pub mod wire;
