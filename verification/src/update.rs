//! Typed pieces of a current-API resource update, and the legacy path
//! written into an update record's identifier field.

use vstd::prelude::*;

use crate::fmt::{push_hex_u128, spec_hex_digits};
use crate::gamut::XY;

verus! {

/// A requested color change, as a chromaticity point.
#[derive(Clone, Copy, Debug, PartialEq, Eq, Structural)]
pub struct ColorUpdate {
    pub xy: XY,
}

/// A requested color-temperature change, in mirek.
#[derive(Clone, Copy, Debug, PartialEq, Eq, Structural)]
pub struct ColorTemperatureUpdate {
    pub mirek: u32,
}

/// How a recalled scene is applied.
#[derive(Clone, Copy, Debug, PartialEq, Eq, Structural)]
pub enum SceneRecallAction {
    Active,
    DynamicPalette,
    Static,
}

/// The legacy identifier path of an update record: the prefix
/// `/legacy/` followed by the record's identifier as thirty-two
/// lowercase hexadecimal digits.
pub fn legacy_id_v1(id: u128) -> (r: String)
    ensures
        r@ == "/legacy/"@ + spec_hex_digits(id as nat, 32),
{
    let mut s = "/legacy/".to_owned();
    push_hex_u128(&mut s, id, 32);
    s
}

} // verus!
