//! Peer addresses as plain values.

use vstd::prelude::*;

verus! {

/// An IP address: the 32 bits of a version 4 address or the 128 bits of a
/// version 6 address.
#[derive(Debug, Clone, Copy, PartialEq, Eq, Hash, Structural)]
pub enum Ip {
    V4(u32),
    V6(u128),
}

/// The UDP endpoint of a client. Two peers are the same exactly when all
/// four fields agree; `flowinfo` and `scope_id` are zero for version 4.
#[derive(Debug, Clone, Copy, PartialEq, Eq, Hash, Structural)]
pub struct Peer {
    pub ip: Ip,
    pub port: u16,
    pub flowinfo: u32,
    pub scope_id: u32,
}

} // verus!
