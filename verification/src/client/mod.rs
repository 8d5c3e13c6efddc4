use vstd::prelude::*;

use crate::game_sim::player::Element;

pub mod animation;
pub mod input_handler;
pub mod json_scan;
pub mod networking;
pub mod particles;
pub mod renderer;
pub mod rollback;

verus! {

/// The element numbered `v` by the page: 0 Fire, 1 Lightning, 2 Dark Magic,
/// 3 Ice; any other number means Fire.
pub open spec fn spec_element_from_u8(v: u8) -> Element {
    if v == 1 {
        Element::Lightning
    } else if v == 2 {
        Element::DarkMagic
    } else if v == 3 {
        Element::Ice
    } else {
        Element::Fire
    }
}

pub fn element_from_u8(v: u8) -> (r: Element)
    ensures
        r == spec_element_from_u8(v),
{
    match v {
        0 => Element::Fire,
        1 => Element::Lightning,
        2 => Element::DarkMagic,
        3 => Element::Ice,
        _ => Element::Fire,
    }
}

} // verus!
