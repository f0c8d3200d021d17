//! Calls into other crates.
//!
//! Verus does not read the bodies in this file. It takes each contract here
//! on trust, so each says no more than the called code shows.

use crate::host::{ipv4_hostmask_of, ipv4_netmask_of, ipv6_hostmask_of, ipv6_netmask_of};
use crate::text::{decimal, dotted_quad, ipv6_text};
use vstd::prelude::*;

verus! {

/// Calls `rand::random::<u32>()`: a draw from the thread's random number
/// generator. Nothing is claimed about the number that comes back.
#[verifier::external_body]
pub(crate) fn random_u32() -> (draw: u32) {
    rand::random::<u32>()
}

/// Calls `rand::random::<u128>()`: a draw from the thread's random number
/// generator. Nothing is claimed about the number that comes back.
#[verifier::external_body]
pub(crate) fn random_u128() -> (draw: u128) {
    rand::random::<u128>()
}

/// Hands out `libc::ECONNREFUSED`, the error code with which the kernel
/// reports a refused connection. The number differs between targets, so
/// nothing is claimed about it.
#[verifier::external_body]
pub(crate) fn econnrefused() -> (code: i32) {
    libc::ECONNREFUSED
}

/// Hands out `libc::EPERM`, the error code with which the kernel reports a
/// missing permission. Nothing is claimed about the number.
#[verifier::external_body]
pub(crate) fn eperm() -> (code: i32) {
    libc::EPERM
}

/// Hands out `libc::EINVAL`, the error code with which the kernel reports an
/// argument it cannot accept. Nothing is claimed about the number.
#[verifier::external_body]
pub(crate) fn einval() -> (code: i32) {
    libc::EINVAL
}

/// Calls `ipnet::Ipv4Net::network` on the address `addr` with prefix length
/// `prefix_len`, put together by `ipnet::Ipv4Net::new_assert`. What comes
/// back is the address with every bit outside the network mask cleared.
#[verifier::external_body]
pub(crate) fn ipv4_network(addr: u32, prefix_len: u8) -> (network: u32)
    requires
        prefix_len <= 32,
    ensures
        network == addr & ipv4_netmask_of(prefix_len),
{
    ipnet::Ipv4Net::new_assert(addr.into(), prefix_len).network().into()
}

/// Calls `ipnet::Ipv4Net::hostmask` on the address `addr` with prefix length
/// `prefix_len`, put together by `ipnet::Ipv4Net::new_assert`. What comes
/// back has the low `32 - prefix_len` bits set and no others.
#[verifier::external_body]
pub(crate) fn ipv4_hostmask(addr: u32, prefix_len: u8) -> (hostmask: u32)
    requires
        prefix_len <= 32,
    ensures
        hostmask == ipv4_hostmask_of(prefix_len),
{
    ipnet::Ipv4Net::new_assert(addr.into(), prefix_len).hostmask().into()
}

/// Calls `ipnet::Ipv6Net::network` on the address `addr` with prefix length
/// `prefix_len`, put together by `ipnet::Ipv6Net::new_assert`. What comes
/// back is the address with every bit outside the network mask cleared.
#[verifier::external_body]
pub(crate) fn ipv6_network(addr: u128, prefix_len: u8) -> (network: u128)
    requires
        prefix_len <= 128,
    ensures
        network == addr & ipv6_netmask_of(prefix_len),
{
    ipnet::Ipv6Net::new_assert(addr.into(), prefix_len).network().into()
}

/// Calls `ipnet::Ipv6Net::hostmask` on the address `addr` with prefix length
/// `prefix_len`, put together by `ipnet::Ipv6Net::new_assert`. What comes
/// back has the low `128 - prefix_len` bits set and no others.
#[verifier::external_body]
pub(crate) fn ipv6_hostmask(addr: u128, prefix_len: u8) -> (hostmask: u128)
    requires
        prefix_len <= 128,
    ensures
        hostmask == ipv6_hostmask_of(prefix_len),
{
    ipnet::Ipv6Net::new_assert(addr.into(), prefix_len).hostmask().into()
}

/// Formats the IPv4 address `addr` with the standard library's `Display`,
/// reached through `ipnet::Ipv4Net::addr`. What comes back is the four bytes
/// of the address in decimal, with dots between them.
#[verifier::external_body]
pub(crate) fn ipv4_addr_text(addr: u32) -> (text: String)
    ensures
        text@ == dotted_quad(addr),
{
    ipnet::Ipv4Net::new_assert(addr.into(), 32).addr().to_string()
}

/// Formats the IPv6 address `addr` with the standard library's `Display`,
/// reached through `ipnet::Ipv6Net::addr`.
#[verifier::external_body]
pub(crate) fn ipv6_addr_text(addr: u128) -> (text: String)
    ensures
        text@ == ipv6_text(addr),
{
    ipnet::Ipv6Net::new_assert(addr.into(), 128).addr().to_string()
}

/// Formats the address `addr` with prefix length `prefix_len` with
/// `ipnet::Ipv4Net`'s `Display`: the address, a slash, the prefix length in
/// decimal.
#[verifier::external_body]
pub(crate) fn ipv4_net_text(addr: u32, prefix_len: u8) -> (text: String)
    requires
        prefix_len <= 32,
    ensures
        text@ == dotted_quad(addr) + seq!['/'] + decimal(prefix_len as nat),
{
    ipnet::Ipv4Net::new_assert(addr.into(), prefix_len).to_string()
}

/// Formats the address `addr` with prefix length `prefix_len` with
/// `ipnet::Ipv6Net`'s `Display`: the address, a slash, the prefix length in
/// decimal.
#[verifier::external_body]
pub(crate) fn ipv6_net_text(addr: u128, prefix_len: u8) -> (text: String)
    requires
        prefix_len <= 128,
    ensures
        text@ == ipv6_text(addr) + seq!['/'] + decimal(prefix_len as nat),
{
    ipnet::Ipv6Net::new_assert(addr.into(), prefix_len).to_string()
}

} // verus!
