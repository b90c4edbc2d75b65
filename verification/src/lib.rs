//! A fundraising engine where supporters lock stNEAR in a project
//! ("kickstarter") and, when one of the project's goals is met, receive
//! project tokens while the staking rewards of their deposit go to the project.

pub mod constants;
pub mod utils;
pub mod collections;
pub mod errors;
pub mod goal;
pub mod types;
pub mod supporter;
pub mod kickstarter;
pub mod actions;
pub mod contract;
pub mod admin;
pub mod deposit;
pub mod process;
pub mod withdraw;
pub mod claim;
pub mod views;
pub mod interest;
pub mod balances;
pub mod laws;
