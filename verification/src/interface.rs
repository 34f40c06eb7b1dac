//! Enumeration of the local network interfaces.
//!
//! A manager asks for the current interface addresses once per start; the
//! list reflects whatever the OS reports at that moment, so no contract can
//! pin its contents, and everything built from it is verified for every
//! possible list.

use vstd::prelude::*;

use crate::addr::IpAddr;
use crate::sys::{iface_ip, os_interfaces};

verus! {

/// The addresses of the local network interfaces, IPv4 and IPv6 mixed, as
/// the OS currently reports them; empty when the OS cannot enumerate them.
pub fn get_all_interfaces() -> Vec<IpAddr> {
    let mut out: Vec<IpAddr> = Vec::new();
    let list = match os_interfaces() {
        Ok(list) => list,
        Err(_) => {
            return out;
        },
    };
    let len = list.len();
    let mut i: usize = 0;
    while i < len
        invariant
            i <= len,
            len == list@.len(),
        decreases len - i,
    {
        if let Some(ip) = iface_ip(&list[i]) {
            out.push(ip);
        }
        i += 1;
    }
    out
}

} // verus!
