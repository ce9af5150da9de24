//! Verified core of the 2Wee web terminal: the decisions that the HTTP /
//! WebSocket bridge makes, written as plain functions with contracts.

pub mod pages;
pub mod port;
pub mod session;
pub mod control;
