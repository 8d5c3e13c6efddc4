use vstd::prelude::*;

use std::collections::HashSet;
use vstd::std_specs::hash::{obeys_key_model, set_contains_borrowed_key};

use crate::game_sim::input::Input;

verus! {

/// Whether the key named `name` is in the set of held keys.
pub open spec fn held(keys: Set<String>, name: &str) -> bool {
    set_contains_borrowed_key::<String, str>(keys, name)
}

/// Bit `k` if `on`, else nothing.
pub open spec fn bit_if(on: bool, k: u8) -> u8 {
    if on {
        (1u8 << k) as u8
    } else {
        0
    }
}

fn bit(on: bool, k: u8) -> (r: u8)
    requires
        k < 8,
    ensures
        r == bit_if(on, k),
{
    if on {
        1u8 << k
    } else {
        0
    }
}

/// Player 1's buttons: A/D left/right, W jump, S crouch, Z light, X heavy,
/// C special, V block, in either case.
pub open spec fn p1_bits(keys: Set<String>) -> u8 {
    bit_if(held(keys, "a") || held(keys, "A"), 0) | bit_if(held(keys, "d") || held(keys, "D"), 1)
        | bit_if(held(keys, "w") || held(keys, "W"), 2) | bit_if(
        held(keys, "s") || held(keys, "S"),
        3,
    ) | bit_if(held(keys, "z") || held(keys, "Z"), 4) | bit_if(
        held(keys, "x") || held(keys, "X"),
        5,
    ) | bit_if(held(keys, "c") || held(keys, "C"), 6) | bit_if(
        held(keys, "v") || held(keys, "V"),
        7,
    )
}

/// Player 2's buttons: the arrow keys, J light, K heavy, L special (either
/// case), `;` block.
pub open spec fn p2_bits(keys: Set<String>) -> u8 {
    bit_if(held(keys, "ArrowLeft"), 0) | bit_if(held(keys, "ArrowRight"), 1) | bit_if(
        held(keys, "ArrowUp"),
        2,
    ) | bit_if(held(keys, "ArrowDown"), 3) | bit_if(held(keys, "j") || held(keys, "J"), 4)
        | bit_if(held(keys, "k") || held(keys, "K"), 5) | bit_if(
        held(keys, "l") || held(keys, "L"),
        6,
    ) | bit_if(held(keys, ";"), 7)
}

/// Player 1: WASD + Z (light) + X (heavy) + C (special) + V (block)
///
/// What `HashSet::contains` answers is known only for key types that obey
/// the hash-table key model, so the result is stated under that condition.
pub fn read_p1_input(keys: &HashSet<String>) -> (r: Input)
    ensures
        obeys_key_model::<String>() ==> r.0 == p1_bits(keys@),
{
    let left = keys.contains("a") || keys.contains("A");
    let right = keys.contains("d") || keys.contains("D");
    let up = keys.contains("w") || keys.contains("W");
    let down = keys.contains("s") || keys.contains("S");
    let light = keys.contains("z") || keys.contains("Z");
    let heavy = keys.contains("x") || keys.contains("X");
    let special = keys.contains("c") || keys.contains("C");
    let block = keys.contains("v") || keys.contains("V");
    Input(
        bit(left, 0) | bit(right, 1) | bit(up, 2) | bit(down, 3) | bit(light, 4) | bit(heavy, 5)
            | bit(special, 6) | bit(block, 7),
    )
}

/// Player 2: Arrow keys + J (light) + K (heavy) + L (special) + ; (block)
///
/// Stated under the same condition as `read_p1_input`.
pub fn read_p2_input(keys: &HashSet<String>) -> (r: Input)
    ensures
        obeys_key_model::<String>() ==> r.0 == p2_bits(keys@),
{
    let left = keys.contains("ArrowLeft");
    let right = keys.contains("ArrowRight");
    let up = keys.contains("ArrowUp");
    let down = keys.contains("ArrowDown");
    let light = keys.contains("j") || keys.contains("J");
    let heavy = keys.contains("k") || keys.contains("K");
    let special = keys.contains("l") || keys.contains("L");
    let block = keys.contains(";");
    Input(
        bit(left, 0) | bit(right, 1) | bit(up, 2) | bit(down, 3) | bit(light, 4) | bit(heavy, 5)
            | bit(special, 6) | bit(block, 7),
    )
}

} // verus!
