use vstd::prelude::*;

use crate::game_sim::constants::TICKS_PER_SECOND;
use crate::game_sim::fixed::div_toward_zero;
use crate::game_sim::input::Input;
use crate::game_sim::player::{Element, PlayerAction};
use crate::text::push_char;
use vstd::string::StringExecFns;

verus! {

/// Element accent colors.
pub fn element_accent(element: Element) -> (r: &'static str)
    ensures
        r@ == match element {
            Element::Fire => "#ff6600"@,
            Element::Lightning => "#88ccff"@,
            Element::DarkMagic => "#9900ff"@,
            Element::Ice => "#66eeff"@,
        },
{
    match element {
        Element::Fire => "#ff6600",
        Element::Lightning => "#88ccff",
        Element::DarkMagic => "#9900ff",
        Element::Ice => "#66eeff",
    }
}

/// Translucent glow colors, one per element.
pub fn element_glow(element: Element) -> (r: &'static str)
    ensures
        r@ == match element {
            Element::Fire => "rgba(255,102,0,0.35)"@,
            Element::Lightning => "rgba(100,180,255,0.35)"@,
            Element::DarkMagic => "rgba(153,0,255,0.35)"@,
            Element::Ice => "rgba(102,238,255,0.35)"@,
        },
{
    match element {
        Element::Fire => "rgba(255,102,0,0.35)",
        Element::Lightning => "rgba(100,180,255,0.35)",
        Element::DarkMagic => "rgba(153,0,255,0.35)",
        Element::Ice => "rgba(102,238,255,0.35)",
    }
}

/// Whole seconds left on the round clock, never below zero.
pub fn timer_seconds(round_timer: i32) -> (r: i32)
    ensures
        r == if div_toward_zero(round_timer as int, 60) > 0 {
            div_toward_zero(round_timer as int, 60)
        } else {
            0
        },
{
    let s = round_timer / TICKS_PER_SECOND;
    if s > 0 {
        s
    } else {
        0
    }
}

/// The clock's colour: red in the last ten seconds, amber up to twenty,
/// gold otherwise.
pub fn timer_color(remaining: i32) -> (r: &'static str)
    ensures
        r@ == if remaining <= 10 {
            "#ff3333"@
        } else if remaining <= 20 {
            "#ffcc00"@
        } else {
            "#ffd700"@
        },
{
    if remaining <= 10 {
        "#ff3333"
    } else if remaining <= 20 {
        "#ffcc00"
    } else {
        "#ffd700"
    }
}

/// The short name the debug overlay shows for an action.
pub open spec fn spec_action_name(action: PlayerAction) -> Seq<char> {
    match action {
        PlayerAction::Idle => "Idle"@,
        PlayerAction::WalkForward => "WalkFwd"@,
        PlayerAction::WalkBack => "WalkBack"@,
        PlayerAction::Jump => "Jump"@,
        PlayerAction::Crouch => "Crouch"@,
        PlayerAction::LightAttack1 => "Light1"@,
        PlayerAction::LightAttack2 => "Light2"@,
        PlayerAction::LightAttack3 => "Light3"@,
        PlayerAction::HeavyAttack => "Heavy"@,
        PlayerAction::Uppercut => "Uppercut"@,
        PlayerAction::AerialAttack => "Aerial"@,
        PlayerAction::Block => "Block"@,
        PlayerAction::Fireball => "Fireball"@,
        PlayerAction::DashStrike => "DashStrike"@,
        PlayerAction::Hitstun { .. } => "Hitstun"@,
        PlayerAction::Blockstun { .. } => "Blockstun"@,
        PlayerAction::Knockdown { .. } => "Knockdown"@,
        PlayerAction::Getup => "Getup"@,
    }
}

/// The short name the debug overlay shows for an action.
pub fn action_name(action: &PlayerAction) -> (r: &'static str)
    ensures
        r@ == spec_action_name(*action),
{
    match action {
        PlayerAction::Idle => "Idle",
        PlayerAction::WalkForward => "WalkFwd",
        PlayerAction::WalkBack => "WalkBack",
        PlayerAction::Jump => "Jump",
        PlayerAction::Crouch => "Crouch",
        PlayerAction::LightAttack1 => "Light1",
        PlayerAction::LightAttack2 => "Light2",
        PlayerAction::LightAttack3 => "Light3",
        PlayerAction::HeavyAttack => "Heavy",
        PlayerAction::Uppercut => "Uppercut",
        PlayerAction::AerialAttack => "Aerial",
        PlayerAction::Block => "Block",
        PlayerAction::Fireball => "Fireball",
        PlayerAction::DashStrike => "DashStrike",
        PlayerAction::Hitstun { .. } => "Hitstun",
        PlayerAction::Blockstun { .. } => "Blockstun",
        PlayerAction::Knockdown { .. } => "Knockdown",
        PlayerAction::Getup => "Getup",
    }
}

/// The upper-case hexadecimal digit of `n` (0..16).
pub open spec fn hex_digit(n: int) -> char {
    if n < 10 {
        (48 + n) as char
    } else {
        (55 + n) as char
    }
}

fn hex_digit_of(n: u8) -> (r: char)
    requires
        n < 16,
    ensures
        r == hex_digit(n as int),
{
    if n < 10 {
        (48 + n) as char
    } else {
        (55 + n) as char
    }
}

/// `name` if `on`, else nothing.
pub open spec fn part_if(on: bool, name: Seq<char>) -> Seq<Seq<char>> {
    if on {
        seq![name]
    } else {
        Seq::empty()
    }
}

/// The names of the held buttons, in bit order.
pub open spec fn button_names(input: Input) -> Seq<Seq<char>> {
    part_if(input.left(), "L"@) + part_if(input.right(), "R"@) + part_if(input.up(), "U"@)
        + part_if(input.down(), "D"@) + part_if(input.light(), "lt"@) + part_if(
        input.heavy(),
        "hv"@,
    ) + part_if(input.special(), "sp"@) + part_if(input.block(), "bl"@)
}

/// The parts joined with `+` between them.
pub open spec fn join_plus(parts: Seq<Seq<char>>) -> Seq<char>
    decreases parts.len(),
{
    if parts.len() == 0 {
        Seq::empty()
    } else if parts.len() == 1 {
        parts[0]
    } else {
        join_plus(parts.drop_last()) + "+"@ + parts.last()
    }
}

/// The debug overlay's line for an input: its byte in hex, then the held
/// buttons joined with `+`, or `none`.
pub open spec fn spec_input_summary(input: Input) -> Seq<char> {
    let names = button_names(input);
    "0x"@ + seq![hex_digit(input.0 as int / 16), hex_digit(input.0 as int % 16)] + " ("@ + (if names.len()
        == 0 {
        "none"@
    } else {
        join_plus(names)
    }) + ")"@
}

/// Adds `name` to the joined parts if `on`.
fn add_part(out: &mut String, count: &mut usize, on: bool, name: &str, ghost_parts: Ghost<
    Seq<Seq<char>>,
>)
    requires
        old(out)@ == join_plus(ghost_parts@),
        *old(count) == ghost_parts@.len(),
        *old(count) < 8,
    ensures
        final(out)@ == join_plus(ghost_parts@ + part_if(on, name@)),
        *final(count) == (ghost_parts@ + part_if(on, name@)).len(),
{
    let ghost ps = ghost_parts@;
    if on {
        if *count > 0 {
            out.append("+");
        }
        out.append(name);
        *count = *count + 1;
        proof {
            let np = ps + part_if(on, name@);
            assert(np.drop_last() =~= ps);
            assert(np.last() == name@);
            if ps.len() == 0 {
                assert(old(out)@ =~= Seq::<char>::empty());
                assert(final(out)@ =~= name@);
            }
        }
    } else {
        assert(ps + part_if(on, name@) =~= ps);
    }
}

/// The names of the held buttons joined with `+`, and how many there are.
fn joined_names(input: Input) -> (r: (String, usize))
    ensures
        r.0@ == join_plus(button_names(input)),
        r.1 == button_names(input).len(),
{
    let mut parts = String::new();
    let mut count: usize = 0;
    let ghost p0 = Seq::<Seq<char>>::empty();
    let ghost p1 = p0 + part_if(input.left(), "L"@);
    let ghost p2 = p1 + part_if(input.right(), "R"@);
    let ghost p3 = p2 + part_if(input.up(), "U"@);
    let ghost p4 = p3 + part_if(input.down(), "D"@);
    let ghost p5 = p4 + part_if(input.light(), "lt"@);
    let ghost p6 = p5 + part_if(input.heavy(), "hv"@);
    let ghost p7 = p6 + part_if(input.special(), "sp"@);
    add_part(&mut parts, &mut count, input.is_left(), "L", Ghost(p0));
    add_part(&mut parts, &mut count, input.is_right(), "R", Ghost(p1));
    add_part(&mut parts, &mut count, input.is_up(), "U", Ghost(p2));
    add_part(&mut parts, &mut count, input.is_down(), "D", Ghost(p3));
    add_part(&mut parts, &mut count, input.is_light(), "lt", Ghost(p4));
    add_part(&mut parts, &mut count, input.is_heavy(), "hv", Ghost(p5));
    add_part(&mut parts, &mut count, input.is_special(), "sp", Ghost(p6));
    add_part(&mut parts, &mut count, input.is_block(), "bl", Ghost(p7));
    assert(p7 + part_if(input.block(), "bl"@) =~= button_names(input));
    (parts, count)
}

/// The debug overlay's line for an input: its byte in hex, then the held
/// buttons joined with `+`, or `none`.
pub fn input_summary(input: Input) -> (r: String)
    ensures
        r@ == spec_input_summary(input),
{
    let (parts, count) = joined_names(input);
    let mut out = String::from_str("0x");
    push_char(&mut out, hex_digit_of(input.0 / 16));
    push_char(&mut out, hex_digit_of(input.0 % 16));
    out.append(" (");
    if count == 0 {
        out.append("none");
    } else {
        out.append(parts.as_str());
    }
    out.append(")");
    out
}

} // verus!
