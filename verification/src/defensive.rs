//! Defensive-class catalog entries.

use vstd::prelude::*;

use crate::builder::StrategemBuilder;
use crate::strategem::{Strategem, StrategemClass, StrategemDifficulty, StrategemKey};

verus! {

/// Catalog entry "E/MG-101 HMG Emplacement": a 6-symbol medium code.
pub fn emg101_hmg_emplacement() -> (s: Strategem)
    ensures
        s.wf(),
        s.spec_name() == "E/MG-101 HMG Emplacement"@,
        s.spec_class() == StrategemClass::Defensive,
        s.spec_difficulty() == StrategemDifficulty::Medium,
        s.spec_code() =~= seq![StrategemKey::Down, StrategemKey::Up, StrategemKey::Left, StrategemKey::Right, StrategemKey::Right, StrategemKey::Left],
        s.spec_cursor() == 0,
        s.spec_valid(),
{
    StrategemBuilder::new(StrategemClass::Defensive).down().up().left().right().right().left().build(
        "E/MG-101 HMG Emplacement",
    )
}

/// Catalog entry "FX-12 Shield Generator Relay": a 6-symbol medium code.
pub fn fx12_shield_generator_relay() -> (s: Strategem)
    ensures
        s.wf(),
        s.spec_name() == "FX-12 Shield Generator Relay"@,
        s.spec_class() == StrategemClass::Defensive,
        s.spec_difficulty() == StrategemDifficulty::Medium,
        s.spec_code() =~= seq![StrategemKey::Down, StrategemKey::Down, StrategemKey::Left, StrategemKey::Right, StrategemKey::Left, StrategemKey::Right],
        s.spec_cursor() == 0,
        s.spec_valid(),
{
    StrategemBuilder::new(StrategemClass::Defensive).down().down().left().right().left().right().build(
        "FX-12 Shield Generator Relay",
    )
}

/// Catalog entry "A/ARC-3 Tesla Tower": a 6-symbol medium code.
pub fn aarc3_tesla_tower() -> (s: Strategem)
    ensures
        s.wf(),
        s.spec_name() == "A/ARC-3 Tesla Tower"@,
        s.spec_class() == StrategemClass::Defensive,
        s.spec_difficulty() == StrategemDifficulty::Medium,
        s.spec_code() =~= seq![StrategemKey::Down, StrategemKey::Up, StrategemKey::Right, StrategemKey::Up, StrategemKey::Left, StrategemKey::Right],
        s.spec_cursor() == 0,
        s.spec_valid(),
{
    StrategemBuilder::new(StrategemClass::Defensive).down().up().right().up().left().right().build(
        "A/ARC-3 Tesla Tower",
    )
}

/// Catalog entry "MD-6 Anti-Personnel Minefield": a 4-symbol medium code.
pub fn md6_anti_personnel_minefield() -> (s: Strategem)
    ensures
        s.wf(),
        s.spec_name() == "MD-6 Anti-Personnel Minefield"@,
        s.spec_class() == StrategemClass::Defensive,
        s.spec_difficulty() == StrategemDifficulty::Medium,
        s.spec_code() =~= seq![StrategemKey::Down, StrategemKey::Left, StrategemKey::Up, StrategemKey::Right],
        s.spec_cursor() == 0,
        s.spec_valid(),
{
    StrategemBuilder::new(StrategemClass::Defensive).down().left().up().right().build(
        "MD-6 Anti-Personnel Minefield",
    )
}

/// Catalog entry "MD-I4 Incendiary Mines": a 4-symbol medium code.
pub fn mdi4_incendiary_mines() -> (s: Strategem)
    ensures
        s.wf(),
        s.spec_name() == "MD-I4 Incendiary Mines"@,
        s.spec_class() == StrategemClass::Defensive,
        s.spec_difficulty() == StrategemDifficulty::Medium,
        s.spec_code() =~= seq![StrategemKey::Down, StrategemKey::Left, StrategemKey::Left, StrategemKey::Down],
        s.spec_cursor() == 0,
        s.spec_valid(),
{
    StrategemBuilder::new(StrategemClass::Defensive).down().left().left().down().build(
        "MD-I4 Incendiary Mines",
    )
}

/// Catalog entry "A/MG-43 Machine Gun Sentry": a 5-symbol medium code.
pub fn amg43_machine_gun_sentry() -> (s: Strategem)
    ensures
        s.wf(),
        s.spec_name() == "A/MG-43 Machine Gun Sentry"@,
        s.spec_class() == StrategemClass::Defensive,
        s.spec_difficulty() == StrategemDifficulty::Medium,
        s.spec_code() =~= seq![StrategemKey::Down, StrategemKey::Up, StrategemKey::Right, StrategemKey::Right, StrategemKey::Up],
        s.spec_cursor() == 0,
        s.spec_valid(),
{
    StrategemBuilder::new(StrategemClass::Defensive).down().up().right().right().up().build(
        "A/MG-43 Machine Gun Sentry",
    )
}

/// Catalog entry "A/G-16 Gatling Sentry": a 4-symbol medium code.
pub fn ag16_galting_sentry() -> (s: Strategem)
    ensures
        s.wf(),
        s.spec_name() == "A/G-16 Gatling Sentry"@,
        s.spec_class() == StrategemClass::Defensive,
        s.spec_difficulty() == StrategemDifficulty::Medium,
        s.spec_code() =~= seq![StrategemKey::Down, StrategemKey::Up, StrategemKey::Right, StrategemKey::Left],
        s.spec_cursor() == 0,
        s.spec_valid(),
{
    StrategemBuilder::new(StrategemClass::Defensive).down().up().right().left().build(
        "A/G-16 Gatling Sentry",
    )
}

/// Catalog entry "A/M-12 Mortar Sentry": a 5-symbol medium code.
pub fn am12_mortar_sentry() -> (s: Strategem)
    ensures
        s.wf(),
        s.spec_name() == "A/M-12 Mortar Sentry"@,
        s.spec_class() == StrategemClass::Defensive,
        s.spec_difficulty() == StrategemDifficulty::Medium,
        s.spec_code() =~= seq![StrategemKey::Down, StrategemKey::Up, StrategemKey::Right, StrategemKey::Right, StrategemKey::Down],
        s.spec_cursor() == 0,
        s.spec_valid(),
{
    StrategemBuilder::new(StrategemClass::Defensive).down().up().right().right().down().build(
        "A/M-12 Mortar Sentry",
    )
}

/// Catalog entry "A/AC-8 Autocannon Sentry": a 6-symbol medium code.
pub fn aac8_autocannon_sentry() -> (s: Strategem)
    ensures
        s.wf(),
        s.spec_name() == "A/AC-8 Autocannon Sentry"@,
        s.spec_class() == StrategemClass::Defensive,
        s.spec_difficulty() == StrategemDifficulty::Medium,
        s.spec_code() =~= seq![StrategemKey::Down, StrategemKey::Up, StrategemKey::Right, StrategemKey::Up, StrategemKey::Left, StrategemKey::Up],
        s.spec_cursor() == 0,
        s.spec_valid(),
{
    StrategemBuilder::new(StrategemClass::Defensive).down().up().right().up().left().up().build(
        "A/AC-8 Autocannon Sentry",
    )
}

/// Catalog entry "A/MLS-4X Rocket Sentry": a 5-symbol medium code.
pub fn amls4x_rocket_sentry() -> (s: Strategem)
    ensures
        s.wf(),
        s.spec_name() == "A/MLS-4X Rocket Sentry"@,
        s.spec_class() == StrategemClass::Defensive,
        s.spec_difficulty() == StrategemDifficulty::Medium,
        s.spec_code() =~= seq![StrategemKey::Down, StrategemKey::Up, StrategemKey::Right, StrategemKey::Right, StrategemKey::Left],
        s.spec_cursor() == 0,
        s.spec_valid(),
{
    StrategemBuilder::new(StrategemClass::Defensive).down().up().right().right().left().build(
        "A/MLS-4X Rocket Sentry",
    )
}

/// Catalog entry "A/M-23 EMS Mortar Sentry": a 5-symbol medium code.
pub fn am23_ems_mortar_sentry() -> (s: Strategem)
    ensures
        s.wf(),
        s.spec_name() == "A/M-23 EMS Mortar Sentry"@,
        s.spec_class() == StrategemClass::Defensive,
        s.spec_difficulty() == StrategemDifficulty::Medium,
        s.spec_code() =~= seq![StrategemKey::Down, StrategemKey::Up, StrategemKey::Right, StrategemKey::Down, StrategemKey::Right],
        s.spec_cursor() == 0,
        s.spec_valid(),
{
    StrategemBuilder::new(StrategemClass::Defensive).down().up().right().down().right().build(
        "A/M-23 EMS Mortar Sentry",
    )
}

} // verus!
