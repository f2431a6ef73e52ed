//! Owned discovery replies, the callback that receives them, and the decisions of a
//! scouting round, with their lifecycles stated and proved.
#![allow(non_camel_case_types)]

pub mod hello_closure;
pub mod scouting;

pub use hello_closure::{z_closure_hello_call, z_closure_hello_drop, z_owned_closure_hello_t};
pub use scouting::{
    z_hello_check, z_hello_drop, z_hello_null, z_id_t, z_owned_hello_t, z_owned_str_array_t,
    z_scout_begin, z_scout_matcher, z_scout_round_t, z_str_array_check, z_str_array_drop, Hello,
    Z_CLIENT, Z_PEER, Z_ROUTER,
};
