use vstd::prelude::*;

pub mod client;
pub mod decimal;
pub mod echo;
pub mod http;
pub mod parker;
pub mod reactor;
