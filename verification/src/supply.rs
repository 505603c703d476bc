//! Supply-class catalog entries.

use vstd::prelude::*;

use crate::builder::StrategemBuilder;
use crate::strategem::{Strategem, StrategemClass, StrategemDifficulty, StrategemKey};

verus! {

/// Catalog entry "LIFT-850 Jump Pack": a 5-symbol medium code.
pub fn lift850_jump_pack() -> (s: Strategem)
    ensures
        s.wf(),
        s.spec_name() == "LIFT-850 Jump Pack"@,
        s.spec_class() == StrategemClass::Supply,
        s.spec_difficulty() == StrategemDifficulty::Medium,
        s.spec_code() =~= seq![StrategemKey::Down, StrategemKey::Up, StrategemKey::Up, StrategemKey::Down, StrategemKey::Up],
        s.spec_cursor() == 0,
        s.spec_valid(),
{
    StrategemBuilder::new(StrategemClass::Supply).down().up().up().down().up().build(
        "LIFT-850 Jump Pack",
    )
}

/// Catalog entry "B-1 Supply Pack": a 6-symbol medium code.
pub fn b1_supply_pack() -> (s: Strategem)
    ensures
        s.wf(),
        s.spec_name() == "B-1 Supply Pack"@,
        s.spec_class() == StrategemClass::Supply,
        s.spec_difficulty() == StrategemDifficulty::Medium,
        s.spec_code() =~= seq![StrategemKey::Down, StrategemKey::Left, StrategemKey::Down, StrategemKey::Up, StrategemKey::Up, StrategemKey::Down],
        s.spec_cursor() == 0,
        s.spec_valid(),
{
    StrategemBuilder::new(StrategemClass::Supply).down().left().down().up().up().down().build(
        "B-1 Supply Pack",
    )
}

/// Catalog entry "AX/LAS-5 "Guard Dog" Rover": a 6-symbol medium code.
pub fn axlas5_guard_dog_rover() -> (s: Strategem)
    ensures
        s.wf(),
        s.spec_name() == "AX/LAS-5 \"Guard Dog\" Rover"@,
        s.spec_class() == StrategemClass::Supply,
        s.spec_difficulty() == StrategemDifficulty::Medium,
        s.spec_code() =~= seq![StrategemKey::Down, StrategemKey::Up, StrategemKey::Left, StrategemKey::Up, StrategemKey::Right, StrategemKey::Right],
        s.spec_cursor() == 0,
        s.spec_valid(),
{
    StrategemBuilder::new(StrategemClass::Supply).down().up().left().up().right().right().build(
        "AX/LAS-5 \"Guard Dog\" Rover",
    )
}

/// Catalog entry "SH-20 Ballistic Shield Backpack": a 6-symbol medium code.
pub fn sh20_ballistic_shield_backpack() -> (s: Strategem)
    ensures
        s.wf(),
        s.spec_name() == "SH-20 Ballistic Shield Backpack"@,
        s.spec_class() == StrategemClass::Supply,
        s.spec_difficulty() == StrategemDifficulty::Medium,
        s.spec_code() =~= seq![StrategemKey::Down, StrategemKey::Left, StrategemKey::Down, StrategemKey::Down, StrategemKey::Up, StrategemKey::Left],
        s.spec_cursor() == 0,
        s.spec_valid(),
{
    StrategemBuilder::new(StrategemClass::Supply).down().left().down().down().up().left().build(
        "SH-20 Ballistic Shield Backpack",
    )
}

/// Catalog entry "SH-32 Shield Generator Pack": a 6-symbol medium code.
pub fn sh32_shield_generator_pack() -> (s: Strategem)
    ensures
        s.wf(),
        s.spec_name() == "SH-32 Shield Generator Pack"@,
        s.spec_class() == StrategemClass::Supply,
        s.spec_difficulty() == StrategemDifficulty::Medium,
        s.spec_code() =~= seq![StrategemKey::Down, StrategemKey::Up, StrategemKey::Left, StrategemKey::Right, StrategemKey::Left, StrategemKey::Right],
        s.spec_cursor() == 0,
        s.spec_valid(),
{
    StrategemBuilder::new(StrategemClass::Supply).down().up().left().right().left().right().build(
        "SH-32 Shield Generator Pack",
    )
}

/// Catalog entry "AX/AR-23 "Guard Dog"": a 6-symbol medium code.
pub fn axar23_guard_dog() -> (s: Strategem)
    ensures
        s.wf(),
        s.spec_name() == "AX/AR-23 \"Guard Dog\""@,
        s.spec_class() == StrategemClass::Supply,
        s.spec_difficulty() == StrategemDifficulty::Medium,
        s.spec_code() =~= seq![StrategemKey::Down, StrategemKey::Up, StrategemKey::Left, StrategemKey::Up, StrategemKey::Right, StrategemKey::Down],
        s.spec_cursor() == 0,
        s.spec_valid(),
{
    StrategemBuilder::new(StrategemClass::Supply).down().up().left().up().right().down().build(
        "AX/AR-23 \"Guard Dog\"",
    )
}

/// Catalog entry "MG-43 Machine Gun": a 5-symbol medium code.
pub fn mg43_machine_gun() -> (s: Strategem)
    ensures
        s.wf(),
        s.spec_name() == "MG-43 Machine Gun"@,
        s.spec_class() == StrategemClass::Supply,
        s.spec_difficulty() == StrategemDifficulty::Medium,
        s.spec_code() =~= seq![StrategemKey::Down, StrategemKey::Left, StrategemKey::Down, StrategemKey::Up, StrategemKey::Right],
        s.spec_cursor() == 0,
        s.spec_valid(),
{
    StrategemBuilder::new(StrategemClass::Supply).down().left().down().up().right().build(
        "MG-43 Machine Gun",
    )
}

/// Catalog entry "APW-1 Anti-Materiel Rifle": a 5-symbol medium code.
pub fn apw1_antimateriel_rifle() -> (s: Strategem)
    ensures
        s.wf(),
        s.spec_name() == "APW-1 Anti-Materiel Rifle"@,
        s.spec_class() == StrategemClass::Supply,
        s.spec_difficulty() == StrategemDifficulty::Medium,
        s.spec_code() =~= seq![StrategemKey::Down, StrategemKey::Left, StrategemKey::Right, StrategemKey::Up, StrategemKey::Down],
        s.spec_cursor() == 0,
        s.spec_valid(),
{
    StrategemBuilder::new(StrategemClass::Supply).down().left().right().up().down().build(
        "APW-1 Anti-Materiel Rifle",
    )
}

/// Catalog entry "M-105 Stalwart": a 6-symbol medium code.
pub fn m105_stalwart() -> (s: Strategem)
    ensures
        s.wf(),
        s.spec_name() == "M-105 Stalwart"@,
        s.spec_class() == StrategemClass::Supply,
        s.spec_difficulty() == StrategemDifficulty::Medium,
        s.spec_code() =~= seq![StrategemKey::Down, StrategemKey::Left, StrategemKey::Down, StrategemKey::Up, StrategemKey::Up, StrategemKey::Left],
        s.spec_cursor() == 0,
        s.spec_valid(),
{
    StrategemBuilder::new(StrategemClass::Supply).down().left().down().up().up().left().build(
        "M-105 Stalwart",
    )
}

/// Catalog entry "EAT-17 Expendable Anti-tank": a 5-symbol medium code.
pub fn eat17_expendable_antitank() -> (s: Strategem)
    ensures
        s.wf(),
        s.spec_name() == "EAT-17 Expendable Anti-tank"@,
        s.spec_class() == StrategemClass::Supply,
        s.spec_difficulty() == StrategemDifficulty::Medium,
        s.spec_code() =~= seq![StrategemKey::Down, StrategemKey::Down, StrategemKey::Left, StrategemKey::Up, StrategemKey::Right],
        s.spec_cursor() == 0,
        s.spec_valid(),
{
    StrategemBuilder::new(StrategemClass::Supply).down().down().left().up().right().build(
        "EAT-17 Expendable Anti-tank",
    )
}

/// Catalog entry "GR-8 Recoilless Rifle": a 5-symbol medium code.
pub fn gr8_recoilless_rifle() -> (s: Strategem)
    ensures
        s.wf(),
        s.spec_name() == "GR-8 Recoilless Rifle"@,
        s.spec_class() == StrategemClass::Supply,
        s.spec_difficulty() == StrategemDifficulty::Medium,
        s.spec_code() =~= seq![StrategemKey::Down, StrategemKey::Left, StrategemKey::Right, StrategemKey::Right, StrategemKey::Left],
        s.spec_cursor() == 0,
        s.spec_valid(),
{
    StrategemBuilder::new(StrategemClass::Supply).down().left().right().right().left().build(
        "GR-8 Recoilless Rifle",
    )
}

/// Catalog entry "FLAM-40 Flamethrower": a 5-symbol medium code.
pub fn flam40_flamethrower() -> (s: Strategem)
    ensures
        s.wf(),
        s.spec_name() == "FLAM-40 Flamethrower"@,
        s.spec_class() == StrategemClass::Supply,
        s.spec_difficulty() == StrategemDifficulty::Medium,
        s.spec_code() =~= seq![StrategemKey::Down, StrategemKey::Left, StrategemKey::Up, StrategemKey::Down, StrategemKey::Up],
        s.spec_cursor() == 0,
        s.spec_valid(),
{
    StrategemBuilder::new(StrategemClass::Supply).down().left().up().down().up().build(
        "FLAM-40 Flamethrower",
    )
}

/// Catalog entry "AC-8 Autocannon": a 6-symbol medium code.
pub fn ac8_autocannon() -> (s: Strategem)
    ensures
        s.wf(),
        s.spec_name() == "AC-8 Autocannon"@,
        s.spec_class() == StrategemClass::Supply,
        s.spec_difficulty() == StrategemDifficulty::Medium,
        s.spec_code() =~= seq![StrategemKey::Down, StrategemKey::Left, StrategemKey::Down, StrategemKey::Up, StrategemKey::Up, StrategemKey::Right],
        s.spec_cursor() == 0,
        s.spec_valid(),
{
    StrategemBuilder::new(StrategemClass::Supply).down().left().down().up().up().right().build(
        "AC-8 Autocannon",
    )
}

/// Catalog entry "MG-206 Heavy Machine Gun": a 5-symbol medium code.
pub fn mg206_heavy_machine_gun() -> (s: Strategem)
    ensures
        s.wf(),
        s.spec_name() == "MG-206 Heavy Machine Gun"@,
        s.spec_class() == StrategemClass::Supply,
        s.spec_difficulty() == StrategemDifficulty::Medium,
        s.spec_code() =~= seq![StrategemKey::Down, StrategemKey::Left, StrategemKey::Up, StrategemKey::Down, StrategemKey::Down],
        s.spec_cursor() == 0,
        s.spec_valid(),
{
    StrategemBuilder::new(StrategemClass::Supply).down().left().up().down().down().build(
        "MG-206 Heavy Machine Gun",
    )
}

/// Catalog entry "RS-422 Railgun": a 6-symbol medium code.
pub fn rs422_railgun() -> (s: Strategem)
    ensures
        s.wf(),
        s.spec_name() == "RS-422 Railgun"@,
        s.spec_class() == StrategemClass::Supply,
        s.spec_difficulty() == StrategemDifficulty::Medium,
        s.spec_code() =~= seq![StrategemKey::Down, StrategemKey::Right, StrategemKey::Down, StrategemKey::Up, StrategemKey::Left, StrategemKey::Right],
        s.spec_cursor() == 0,
        s.spec_valid(),
{
    StrategemBuilder::new(StrategemClass::Supply).down().right().down().up().left().right().build(
        "RS-422 Railgun",
    )
}

/// Catalog entry "FAF-14 SPEAR Launcher": a 5-symbol medium code.
pub fn faf14_spear_launcher() -> (s: Strategem)
    ensures
        s.wf(),
        s.spec_name() == "FAF-14 SPEAR Launcher"@,
        s.spec_class() == StrategemClass::Supply,
        s.spec_difficulty() == StrategemDifficulty::Medium,
        s.spec_code() =~= seq![StrategemKey::Down, StrategemKey::Down, StrategemKey::Up, StrategemKey::Down, StrategemKey::Down],
        s.spec_cursor() == 0,
        s.spec_valid(),
{
    StrategemBuilder::new(StrategemClass::Supply).down().down().up().down().down().build(
        "FAF-14 SPEAR Launcher",
    )
}

/// Catalog entry "GL-21 Grenade Launcher": a 5-symbol medium code.
pub fn gl21_grenade_launcher() -> (s: Strategem)
    ensures
        s.wf(),
        s.spec_name() == "GL-21 Grenade Launcher"@,
        s.spec_class() == StrategemClass::Supply,
        s.spec_difficulty() == StrategemDifficulty::Medium,
        s.spec_code() =~= seq![StrategemKey::Down, StrategemKey::Left, StrategemKey::Up, StrategemKey::Left, StrategemKey::Down],
        s.spec_cursor() == 0,
        s.spec_valid(),
{
    StrategemBuilder::new(StrategemClass::Supply).down().left().up().left().down().build(
        "GL-21 Grenade Launcher",
    )
}

/// Catalog entry "LAS-98 Laser Cannon": a 5-symbol medium code.
pub fn las98_laser_cannon() -> (s: Strategem)
    ensures
        s.wf(),
        s.spec_name() == "LAS-98 Laser Cannon"@,
        s.spec_class() == StrategemClass::Supply,
        s.spec_difficulty() == StrategemDifficulty::Medium,
        s.spec_code() =~= seq![StrategemKey::Down, StrategemKey::Left, StrategemKey::Down, StrategemKey::Up, StrategemKey::Left],
        s.spec_cursor() == 0,
        s.spec_valid(),
{
    StrategemBuilder::new(StrategemClass::Supply).down().left().down().up().left().build(
        "LAS-98 Laser Cannon",
    )
}

/// Catalog entry "ARC-3 Arc Thrower": a 6-symbol medium code.
pub fn arc3_arc_thrower() -> (s: Strategem)
    ensures
        s.wf(),
        s.spec_name() == "ARC-3 Arc Thrower"@,
        s.spec_class() == StrategemClass::Supply,
        s.spec_difficulty() == StrategemDifficulty::Medium,
        s.spec_code() =~= seq![StrategemKey::Down, StrategemKey::Right, StrategemKey::Down, StrategemKey::Up, StrategemKey::Left, StrategemKey::Left],
        s.spec_cursor() == 0,
        s.spec_valid(),
{
    StrategemBuilder::new(StrategemClass::Supply).down().right().down().up().left().left().build(
        "ARC-3 Arc Thrower",
    )
}

/// Catalog entry "LAS-99 Quasar Cannon": a 5-symbol medium code.
pub fn las99_quasar_cannon() -> (s: Strategem)
    ensures
        s.wf(),
        s.spec_name() == "LAS-99 Quasar Cannon"@,
        s.spec_class() == StrategemClass::Supply,
        s.spec_difficulty() == StrategemDifficulty::Medium,
        s.spec_code() =~= seq![StrategemKey::Down, StrategemKey::Down, StrategemKey::Up, StrategemKey::Left, StrategemKey::Right],
        s.spec_cursor() == 0,
        s.spec_valid(),
{
    StrategemBuilder::new(StrategemClass::Supply).down().down().up().left().right().build(
        "LAS-99 Quasar Cannon",
    )
}

/// Catalog entry "RL-77 Airburst Rocket Launcher": a 5-symbol medium code.
pub fn rl77_airburst_rocket_launcher() -> (s: Strategem)
    ensures
        s.wf(),
        s.spec_name() == "RL-77 Airburst Rocket Launcher"@,
        s.spec_class() == StrategemClass::Supply,
        s.spec_difficulty() == StrategemDifficulty::Medium,
        s.spec_code() =~= seq![StrategemKey::Down, StrategemKey::Up, StrategemKey::Up, StrategemKey::Left, StrategemKey::Right],
        s.spec_cursor() == 0,
        s.spec_valid(),
{
    StrategemBuilder::new(StrategemClass::Supply).down().up().up().left().right().build(
        "RL-77 Airburst Rocket Launcher",
    )
}

/// Catalog entry "EXO-45 Patriot Exosuit": a 7-symbol hard code.
pub fn exo45_patriot_exosuit() -> (s: Strategem)
    ensures
        s.wf(),
        s.spec_name() == "EXO-45 Patriot Exosuit"@,
        s.spec_class() == StrategemClass::Supply,
        s.spec_difficulty() == StrategemDifficulty::Hard,
        s.spec_code() =~= seq![StrategemKey::Left, StrategemKey::Down, StrategemKey::Right, StrategemKey::Up, StrategemKey::Left, StrategemKey::Down, StrategemKey::Down],
        s.spec_cursor() == 0,
        s.spec_valid(),
{
    StrategemBuilder::new(StrategemClass::Supply).left().down().right().up().left().down().down().build(
        "EXO-45 Patriot Exosuit",
    )
}

/// Catalog entry "EXO-49 Emancipator Exosuit": a 7-symbol hard code.
pub fn exo45_emancipator_exosuit() -> (s: Strategem)
    ensures
        s.wf(),
        s.spec_name() == "EXO-49 Emancipator Exosuit"@,
        s.spec_class() == StrategemClass::Supply,
        s.spec_difficulty() == StrategemDifficulty::Hard,
        s.spec_code() =~= seq![StrategemKey::Left, StrategemKey::Down, StrategemKey::Right, StrategemKey::Up, StrategemKey::Left, StrategemKey::Down, StrategemKey::Up],
        s.spec_cursor() == 0,
        s.spec_valid(),
{
    StrategemBuilder::new(StrategemClass::Supply).left().down().right().up().left().down().up().build(
        "EXO-49 Emancipator Exosuit",
    )
}

} // verus!
