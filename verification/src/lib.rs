pub mod account;
pub mod chains;
pub mod cli;
pub mod endpoint;
pub mod errors;
pub mod keys;
pub mod lifecycle;
pub mod numeral;
pub mod workflow;
