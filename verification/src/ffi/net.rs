use vstd::prelude::*;

verus! {

/// Longest socket address the platform takes, in bytes.
pub const VM_MAX_SOCK_ADDR_LEN: usize = 28;
/// Most addresses one name lookup returns.
pub const VM_SOC_DNS_MAX_ADDR: usize = 5;

/// A socket address as the platform takes it.
#[allow(non_camel_case_types)]
#[derive(Debug, Clone, Copy, PartialEq, Eq)]
pub struct vm_sockaddr_struct {
    pub addr_len: i16,
    pub port: u16,
    pub addr: [u8; 28],
}

/// The answer to a name lookup: up to five addresses, their number, and
/// the error cause when there is none.
#[allow(non_camel_case_types)]
#[derive(Debug, Clone, Copy, PartialEq, Eq)]
pub struct vm_soc_dns_result {
    pub address: [u32; 5],
    pub num: i32,
    pub error_cause: i32,
}

} // verus!
