use vstd::prelude::*;

use crate::game_sim::fixed::FixedPoint;
use crate::game_sim::player::PlayerAction;

verus! {

/// Hit counter of an attacker's current combo and the hitstun scale that
/// its latest hit received.
#[derive(Debug, Clone, Copy)]
pub struct ComboState {
    pub hit_count: i32,
    pub hitstun_scale: FixedPoint,
}

/// Hitstun scale (per mille) of the `n`-th hit of a combo: 1.0 for the first
/// hit, 5% less for each further hit, never below 0.3.
pub open spec fn combo_scale(n: int) -> int {
    let s = 1000 - 50 * (n - 1);
    if s > 300 {
        s
    } else {
        300
    }
}

/// Whether `current` may be cancelled into `next` (chain combo).
pub open spec fn spec_can_cancel(current: PlayerAction, next: PlayerAction) -> bool {
    match (current, next) {
        (PlayerAction::LightAttack1, PlayerAction::LightAttack2) => true,
        (PlayerAction::LightAttack2, PlayerAction::LightAttack3) => true,
        (PlayerAction::LightAttack1, PlayerAction::HeavyAttack) => true,
        (PlayerAction::LightAttack2, PlayerAction::HeavyAttack) => true,
        (PlayerAction::LightAttack3, PlayerAction::HeavyAttack) => true,
        (
            PlayerAction::LightAttack1
            | PlayerAction::LightAttack2
            | PlayerAction::LightAttack3
            | PlayerAction::HeavyAttack,
            PlayerAction::Uppercut | PlayerAction::Fireball | PlayerAction::DashStrike,
        ) => true,
        _ => false,
    }
}

impl Default for ComboState {
    fn default() -> (r: Self)
        ensures
            r.hit_count == 0,
            r.hitstun_scale.0 == 1000,
    {
        Self::new()
    }
}

impl ComboState {
    pub fn new() -> (r: Self)
        ensures
            r.hit_count == 0,
            r.hitstun_scale.0 == 1000,
    {
        ComboState { hit_count: 0, hitstun_scale: FixedPoint(1000) }
    }

    /// Register a hit and return the current hitstun scale factor.
    /// Hitstun scales down as combo grows to prevent infinites.
    pub fn register_hit(&mut self) -> (r: FixedPoint)
        requires
            -2147483 <= old(self).hit_count <= 2147483,
        ensures
            final(self).hit_count == old(self).hit_count + 1,
            final(self).hitstun_scale.0 == combo_scale(final(self).hit_count as int),
            r == final(self).hitstun_scale,
    {
        self.hit_count += 1;
        // Scale: 1.0 for first hit, decreasing by 5% per subsequent hit, min 0.3
        let reduction: i32 = 50 * (self.hit_count - 1);
        let scale: i32 = 1000 - reduction;
        let min_scale: i32 = 300;
        self.hitstun_scale = FixedPoint(
            if scale > min_scale {
                scale
            } else {
                min_scale
            },
        );
        self.hitstun_scale
    }

    pub fn reset(&mut self)
        ensures
            final(self).hit_count == 0,
            final(self).hitstun_scale.0 == 1000,
    {
        self.hit_count = 0;
        self.hitstun_scale = FixedPoint(1000);
    }

    /// Check if the current action can cancel into the next action (chain combo).
    pub fn can_cancel(&self, current_action: &PlayerAction, next_action: &PlayerAction) -> (r:
        bool)
        ensures
            r == spec_can_cancel(*current_action, *next_action),
    {
        match (current_action, next_action) {
            // Light chain: L1 -> L2 -> L3
            (PlayerAction::LightAttack1, PlayerAction::LightAttack2) => true,
            (PlayerAction::LightAttack2, PlayerAction::LightAttack3) => true,
            // Light into heavy
            (PlayerAction::LightAttack1, PlayerAction::HeavyAttack) => true,
            (PlayerAction::LightAttack2, PlayerAction::HeavyAttack) => true,
            (PlayerAction::LightAttack3, PlayerAction::HeavyAttack) => true,
            // Any grounded attack into special
            (
                PlayerAction::LightAttack1
                | PlayerAction::LightAttack2
                | PlayerAction::LightAttack3
                | PlayerAction::HeavyAttack,
                PlayerAction::Uppercut | PlayerAction::Fireball | PlayerAction::DashStrike,
            ) => true,
            _ => false,
        }
    }
}

/// Hitstun decays along a combo: each further hit gets a scale no larger
/// than the one before, never below 0.3 and never above 1.0.
pub proof fn law_combo_scale_decays(n: int)
    requires
        n >= 1,
    ensures
        300 <= combo_scale(n + 1) <= combo_scale(n) <= 1000,
        n >= 15 ==> combo_scale(n) == 300,
{
}

/// The next attack of the light chain L1 -> L2 -> L3.
pub open spec fn next_in_light_chain(a: PlayerAction) -> Option<PlayerAction> {
    if a == PlayerAction::LightAttack1 {
        Some(PlayerAction::LightAttack2)
    } else if a == PlayerAction::LightAttack2 {
        Some(PlayerAction::LightAttack3)
    } else {
        None
    }
}

/// A grounded normal attack: one of the light chain or the heavy attack.
pub open spec fn is_grounded_normal(a: PlayerAction) -> bool {
    a == PlayerAction::LightAttack1 || a == PlayerAction::LightAttack2 || a
        == PlayerAction::LightAttack3 || a == PlayerAction::HeavyAttack
}

/// A special move: uppercut, fireball or dash strike.
pub open spec fn is_special_move(a: PlayerAction) -> bool {
    a == PlayerAction::Uppercut || a == PlayerAction::Fireball || a == PlayerAction::DashStrike
}

/// The chain-cancel rules: each light attack cancels into the next one of
/// the chain and into the heavy attack, every grounded normal cancels into
/// every special move, and nothing else cancels: only grounded normals can
/// be cancelled, never into the first light attack or into themselves.
pub proof fn law_cancel_rules(current: PlayerAction, next: PlayerAction)
    ensures
        next_in_light_chain(current) == Some(next) ==> spec_can_cancel(current, next),
        is_grounded_normal(current) && current != PlayerAction::HeavyAttack && next
            == PlayerAction::HeavyAttack ==> spec_can_cancel(current, next),
        is_grounded_normal(current) && is_special_move(next) ==> spec_can_cancel(current, next),
        spec_can_cancel(current, next) ==> {
            &&& is_grounded_normal(current)
            &&& next != current
            &&& next != PlayerAction::LightAttack1
            &&& (next_in_light_chain(current) == Some(next) || next == PlayerAction::HeavyAttack
                || is_special_move(next))
        },
{
}

} // verus!
