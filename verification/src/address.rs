//! The transport address: a fixed 32-byte binary socket-address layout
//! synthesized directly from the four address octets. Only IPv4 is
//! supported; the port is pinned to the secured protocol port.

use vstd::prelude::*;

verus! {

/// The fixed 32-byte socket-address layout the transport expects: size
/// tag, address-family tag, the secured protocol port in network byte
/// order, the four address octets, then zero-padded scope and flow
/// fields.
pub open spec fn spec_socket_addr(ip: Seq<u8>) -> Seq<u8>
    recommends
        ip.len() == 4,
{
    seq![
        0x10u8,
        0u8,
        0u8,
        0u8,
        0x02u8,
        0u8,
        0x16u8,
        0x34u8,
        ip[0],
        ip[1],
        ip[2],
        ip[3],
        0u8,
        0u8,
        0u8,
        0u8,
        0u8,
        0u8,
        0u8,
        0u8,
        0xE0u8,
        0u8,
        0u8,
        0u8,
        0xE0u8,
        0u8,
        0u8,
        0u8,
        0x06u8,
        0u8,
        0u8,
        0u8,
    ]
}

/// One remote endpoint's transport address in the binary layout the
/// transport requires.
pub struct CoapAddress {
    raw: Vec<u8>,
}

impl CoapAddress {
    /// The 32 raw bytes of the address structure.
    pub closed spec fn spec_raw(self) -> Seq<u8> {
        self.raw@
    }

    /// Builds the address structure for the given IPv4 octets.
    pub fn new(ip: [u8; 4]) -> (r: CoapAddress)
        ensures
            r.spec_raw() == spec_socket_addr(ip@),
            r.spec_raw().len() == 32,
    {
        let raw: Vec<u8> = vec![
            0x10,
            0,
            0,
            0,
            0x02,
            0,
            0x16,
            0x34,
            ip[0],
            ip[1],
            ip[2],
            ip[3],
            0,
            0,
            0,
            0,
            0,
            0,
            0,
            0,
            0xE0,
            0,
            0,
            0,
            0xE0,
            0,
            0,
            0,
            0x06,
            0,
            0,
            0,
        ];
        proof {
            assert(raw@ =~= spec_socket_addr(ip@));
        }
        CoapAddress { raw }
    }

    /// The 32 raw bytes of the address structure.
    pub fn raw(&self) -> (r: &Vec<u8>)
        ensures
            r@ == self.spec_raw(),
    {
        &self.raw
    }
}

} // verus!
