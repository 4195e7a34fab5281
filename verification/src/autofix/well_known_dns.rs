//! Well-known public DNS servers.

use vstd::prelude::*;
use crate::net::IpAddress;

verus! {

/// Cloudflare DNS servers.
pub fn cloudflare() -> (v: Vec<IpAddress>)
    ensures
        v@ == seq![
            IpAddress::V4([1, 1, 1, 1]),
            IpAddress::V4([1, 0, 0, 1]),
            IpAddress::V6([0x26, 0x06, 0x47, 0x00, 0x47, 0x00, 0, 0, 0, 0, 0, 0, 0, 0, 0x11, 0x11]),
            IpAddress::V6([0x26, 0x06, 0x47, 0x00, 0x47, 0x00, 0, 0, 0, 0, 0, 0, 0, 0, 0x10, 0x01]),
        ],
{
    let v = vec![
        IpAddress::V4([1, 1, 1, 1]),
        IpAddress::V4([1, 0, 0, 1]),
        IpAddress::V6([0x26, 0x06, 0x47, 0x00, 0x47, 0x00, 0, 0, 0, 0, 0, 0, 0, 0, 0x11, 0x11]),
        IpAddress::V6([0x26, 0x06, 0x47, 0x00, 0x47, 0x00, 0, 0, 0, 0, 0, 0, 0, 0, 0x10, 0x01]),
    ];
    assert(v@ =~= seq![
        IpAddress::V4([1, 1, 1, 1]),
        IpAddress::V4([1, 0, 0, 1]),
        IpAddress::V6([0x26, 0x06, 0x47, 0x00, 0x47, 0x00, 0, 0, 0, 0, 0, 0, 0, 0, 0x11, 0x11]),
        IpAddress::V6([0x26, 0x06, 0x47, 0x00, 0x47, 0x00, 0, 0, 0, 0, 0, 0, 0, 0, 0x10, 0x01]),
    ]);
    v
}

/// Google DNS servers.
pub fn google() -> (v: Vec<IpAddress>)
    ensures
        v@ == seq![
            IpAddress::V4([8, 8, 8, 8]),
            IpAddress::V4([8, 8, 4, 4]),
            IpAddress::V6([0x20, 0x01, 0x48, 0x60, 0x48, 0x60, 0, 0, 0, 0, 0, 0, 0, 0, 0x88, 0x88]),
            IpAddress::V6([0x20, 0x01, 0x48, 0x60, 0x48, 0x60, 0, 0, 0, 0, 0, 0, 0, 0, 0x88, 0x44]),
        ],
{
    let v = vec![
        IpAddress::V4([8, 8, 8, 8]),
        IpAddress::V4([8, 8, 4, 4]),
        IpAddress::V6([0x20, 0x01, 0x48, 0x60, 0x48, 0x60, 0, 0, 0, 0, 0, 0, 0, 0, 0x88, 0x88]),
        IpAddress::V6([0x20, 0x01, 0x48, 0x60, 0x48, 0x60, 0, 0, 0, 0, 0, 0, 0, 0, 0x88, 0x44]),
    ];
    assert(v@ =~= seq![
        IpAddress::V4([8, 8, 8, 8]),
        IpAddress::V4([8, 8, 4, 4]),
        IpAddress::V6([0x20, 0x01, 0x48, 0x60, 0x48, 0x60, 0, 0, 0, 0, 0, 0, 0, 0, 0x88, 0x88]),
        IpAddress::V6([0x20, 0x01, 0x48, 0x60, 0x48, 0x60, 0, 0, 0, 0, 0, 0, 0, 0, 0x88, 0x44]),
    ]);
    v
}

/// Quad9 DNS servers.
pub fn quad9() -> (v: Vec<IpAddress>)
    ensures
        v@ == seq![IpAddress::V4([9, 9, 9, 9]), IpAddress::V4([149, 112, 112, 112])],
{
    let v = vec![IpAddress::V4([9, 9, 9, 9]), IpAddress::V4([149, 112, 112, 112])];
    assert(v@ =~= seq![IpAddress::V4([9, 9, 9, 9]), IpAddress::V4([149, 112, 112, 112])]);
    v
}

} // verus!
