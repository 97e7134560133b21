//! Verified core of the Rust bindings to SpiderMonkey: the NaN-boxed value
//! layout, the fast paths of the value conversions, class flag arithmetic and
//! the bookkeeping of runtimes.
#![allow(non_snake_case, non_camel_case_types, non_upper_case_globals)]

pub mod actor;
pub mod conversions;
pub mod global;
pub mod js;
pub mod jsfriendapi;
pub mod jsval;
pub mod jsval_layout;
pub mod name_pool;
pub mod number;
pub mod report;
pub mod rt;
pub mod rust;
pub mod supervisor;
pub mod text;
pub mod utf16;
pub mod wrap;
