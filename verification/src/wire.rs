//! Numbers of the named transfer functions and primaries, as they travel on the wire.

use wayland_protocols::wp::color_management::v1::server::wp_color_manager_v1::{
    Primaries, TransferFunction,
};
use wayland_server::WEnum;
use vstd::prelude::*;

verus! {

/// `wp_color_manager_v1.transfer_function.gamma22`.
pub const TF_GAMMA22: u32 = 2;

/// `wp_color_manager_v1.transfer_function.srgb`.
pub const TF_SRGB: u32 = 9;

/// `wp_color_manager_v1.transfer_function.st2084_pq`.
pub const TF_ST2084_PQ: u32 = 11;

/// `wp_color_manager_v1.primaries.srgb`.
pub const PRIMARIES_SRGB: u32 = 1;

/// `wp_color_manager_v1.primaries.bt2020`.
pub const PRIMARIES_BT2020: u32 = 6;

/// The transfer functions that the protocol file names are numbered 1 (`bt1886`) to 14
/// (`compound_power_2_4`) without a gap.
pub open spec fn names_transfer_function(raw: u32) -> bool {
    1 <= raw <= 14
}

/// The primaries that the protocol file names are numbered 1 (`srgb`) to 10 (`adobe_rgb`)
/// without a gap.
pub open spec fn names_primaries(raw: u32) -> bool {
    1 <= raw <= 10
}

/// Interprets a transfer function argument: the number again where the protocol file names it,
/// nothing where it does not.
///
/// Calls `WEnum::<TransferFunction>::into_result`. Trusted: the call succeeds for exactly the
/// numbers of the protocol file's entries, and the entry it gives has the number that went in.
#[verifier::external_body]
pub(crate) fn known_transfer_function(raw: u32) -> (known: Option<u32>)
    ensures
        known == (if names_transfer_function(raw) {
            Some(raw)
        } else {
            None
        }),
{
    WEnum::<TransferFunction>::from(raw).into_result().ok().map(u32::from)
}

/// Interprets a primaries argument: the number again where the protocol file names it, nothing
/// where it does not.
///
/// Calls `WEnum::<Primaries>::into_result`. Trusted: the call succeeds for exactly the numbers of
/// the protocol file's entries, and the entry it gives has the number that went in.
#[verifier::external_body]
pub(crate) fn known_primaries(raw: u32) -> (known: Option<u32>)
    ensures
        known == (if names_primaries(raw) {
            Some(raw)
        } else {
            None
        }),
{
    WEnum::<Primaries>::from(raw).into_result().ok().map(u32::from)
}

} // verus!
