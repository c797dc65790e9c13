//! Inventory of load balancers and the rules that decide which of them are idle.

pub mod account;
pub mod aggregator;
pub mod cloudwatch;
pub mod credentials;
pub mod elb;
pub mod elbv2;
pub mod error;
pub mod governor;
pub mod lister;
pub mod models;
pub mod record;
pub mod region;
pub mod remediation;
pub mod report;
pub mod scan;
pub mod text;
pub mod utils;
