#![allow(non_snake_case)]

pub mod checksum;
pub mod constants;
pub mod control;
pub mod session;
pub mod udp;
