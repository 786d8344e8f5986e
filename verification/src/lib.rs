#![allow(non_upper_case_globals)]
#![allow(non_camel_case_types)]
#![allow(non_snake_case)]

pub mod error;
pub mod cluster_endpoint;
pub mod utils;
pub mod utils_ptr;
pub mod handle_const;
pub mod handler_credentials;
pub mod handle;
pub mod cluster;
