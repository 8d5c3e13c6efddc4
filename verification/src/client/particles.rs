use vstd::prelude::*;

use crate::game_sim::player::Element;

verus! {

/// The kinds of particle effect the client emits.
#[derive(Debug, Clone, Copy, PartialEq, Eq, Structural)]
pub enum EffectType {
    HitImpact,
    SwordTrail,
    IdleAmbient,
    SpecialActivation,
    WalkDust,
}

/// The colour of an element's particles.
pub fn element_rgb(element: Element) -> (r: (u8, u8, u8))
    ensures
        r == match element {
            Element::Fire => (255u8, 140u8, 20u8),
            Element::Lightning => (180u8, 210u8, 255u8),
            Element::DarkMagic => (160u8, 50u8, 220u8),
            Element::Ice => (150u8, 240u8, 255u8),
        },
{
    match element {
        Element::Fire => (255, 140, 20),
        Element::Lightning => (180, 210, 255),
        Element::DarkMagic => (160, 50, 220),
        Element::Ice => (150, 240, 255),
    }
}

} // verus!
