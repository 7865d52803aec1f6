//! Decision core of a network-namespace manager.
//!
//! The manager configures the virtual network topology of one Linux network
//! namespace: it creates bridges, veth pairs, VLAN and VXLAN devices, binds
//! and removes addresses, and toggles administrative state. Every operation
//! resolves the interface name against live kernel state before acting, so a
//! link deleted by a concurrent actor is observed as absent rather than acted
//! on through a stale index.
//!
//! This crate holds the verified part: the protocol that decides, for each
//! operation, which kernel command to issue next and what to reply. The
//! kernel transport, the namespace bootstrap syscalls and the DHCP client
//! subprocess are performed by an unverified executor that drives
//! [`machine::OpMachine`] with the outcomes it observes.

pub mod addr;
pub mod bootstrap;
pub mod lifecycle;
pub mod machine;
