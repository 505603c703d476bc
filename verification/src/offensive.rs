//! Offensive-class catalog entries.

use vstd::prelude::*;

use crate::builder::StrategemBuilder;
use crate::strategem::{Strategem, StrategemClass, StrategemDifficulty, StrategemKey};

verus! {

/// Catalog entry "Orbital Gatling Barrage": a 5-symbol medium code.
pub fn orbital_gatling_barrage() -> (s: Strategem)
    ensures
        s.wf(),
        s.spec_name() == "Orbital Gatling Barrage"@,
        s.spec_class() == StrategemClass::Offensive,
        s.spec_difficulty() == StrategemDifficulty::Medium,
        s.spec_code() =~= seq![StrategemKey::Right, StrategemKey::Down, StrategemKey::Left, StrategemKey::Up, StrategemKey::Up],
        s.spec_cursor() == 0,
        s.spec_valid(),
{
    StrategemBuilder::new(StrategemClass::Offensive).right().down().left().up().up().build(
        "Orbital Gatling Barrage",
    )
}

/// Catalog entry "Orbital Airburst Strike": a 3-symbol easy code.
pub fn orbital_airburst_strike() -> (s: Strategem)
    ensures
        s.wf(),
        s.spec_name() == "Orbital Airburst Strike"@,
        s.spec_class() == StrategemClass::Offensive,
        s.spec_difficulty() == StrategemDifficulty::Easy,
        s.spec_code() =~= seq![StrategemKey::Right, StrategemKey::Right, StrategemKey::Right],
        s.spec_cursor() == 0,
        s.spec_valid(),
{
    StrategemBuilder::new(StrategemClass::Offensive).right().right().right().build(
        "Orbital Airburst Strike",
    )
}

/// Catalog entry "Orbital 120MM HE Barrage": a 6-symbol medium code.
pub fn orbital_120mm_he_barrage() -> (s: Strategem)
    ensures
        s.wf(),
        s.spec_name() == "Orbital 120MM HE Barrage"@,
        s.spec_class() == StrategemClass::Offensive,
        s.spec_difficulty() == StrategemDifficulty::Medium,
        s.spec_code() =~= seq![StrategemKey::Right, StrategemKey::Right, StrategemKey::Down, StrategemKey::Left, StrategemKey::Right, StrategemKey::Down],
        s.spec_cursor() == 0,
        s.spec_valid(),
{
    StrategemBuilder::new(StrategemClass::Offensive).right().right().down().left().right().down().build(
        "Orbital 120MM HE Barrage",
    )
}

/// Catalog entry "Orbital 380MM HE Barrage": a 7-symbol hard code.
pub fn orbital_380mm_he_barrage() -> (s: Strategem)
    ensures
        s.wf(),
        s.spec_name() == "Orbital 380MM HE Barrage"@,
        s.spec_class() == StrategemClass::Offensive,
        s.spec_difficulty() == StrategemDifficulty::Hard,
        s.spec_code() =~= seq![StrategemKey::Right, StrategemKey::Down, StrategemKey::Up, StrategemKey::Up, StrategemKey::Left, StrategemKey::Down, StrategemKey::Down],
        s.spec_cursor() == 0,
        s.spec_valid(),
{
    StrategemBuilder::new(StrategemClass::Offensive).right().down().up().up().left().down().down().build(
        "Orbital 380MM HE Barrage",
    )
}

/// Catalog entry "Orbital Walking Barrage": a 6-symbol medium code.
pub fn orbital_walking_barrage() -> (s: Strategem)
    ensures
        s.wf(),
        s.spec_name() == "Orbital Walking Barrage"@,
        s.spec_class() == StrategemClass::Offensive,
        s.spec_difficulty() == StrategemDifficulty::Medium,
        s.spec_code() =~= seq![StrategemKey::Right, StrategemKey::Down, StrategemKey::Right, StrategemKey::Down, StrategemKey::Right, StrategemKey::Down],
        s.spec_cursor() == 0,
        s.spec_valid(),
{
    StrategemBuilder::new(StrategemClass::Offensive).right().down().right().down().right().down().build(
        "Orbital Walking Barrage",
    )
}

/// Catalog entry "Orbital Laser": a 5-symbol medium code.
pub fn orbital_laser() -> (s: Strategem)
    ensures
        s.wf(),
        s.spec_name() == "Orbital Laser"@,
        s.spec_class() == StrategemClass::Offensive,
        s.spec_difficulty() == StrategemDifficulty::Medium,
        s.spec_code() =~= seq![StrategemKey::Right, StrategemKey::Down, StrategemKey::Up, StrategemKey::Right, StrategemKey::Down],
        s.spec_cursor() == 0,
        s.spec_valid(),
{
    StrategemBuilder::new(StrategemClass::Offensive).right().down().up().right().down().build(
        "Orbital Laser",
    )
}

/// Catalog entry "Orbital Railcannon Strike": a 5-symbol medium code.
pub fn orbital_railcannon_strike() -> (s: Strategem)
    ensures
        s.wf(),
        s.spec_name() == "Orbital Railcannon Strike"@,
        s.spec_class() == StrategemClass::Offensive,
        s.spec_difficulty() == StrategemDifficulty::Medium,
        s.spec_code() =~= seq![StrategemKey::Right, StrategemKey::Up, StrategemKey::Down, StrategemKey::Down, StrategemKey::Right],
        s.spec_cursor() == 0,
        s.spec_valid(),
{
    StrategemBuilder::new(StrategemClass::Offensive).right().up().down().down().right().build(
        "Orbital Railcannon Strike",
    )
}

/// Catalog entry "Orbital Precision Strike": a 3-symbol easy code.
pub fn orbital_precision_strike() -> (s: Strategem)
    ensures
        s.wf(),
        s.spec_name() == "Orbital Precision Strike"@,
        s.spec_class() == StrategemClass::Offensive,
        s.spec_difficulty() == StrategemDifficulty::Easy,
        s.spec_code() =~= seq![StrategemKey::Right, StrategemKey::Right, StrategemKey::Up],
        s.spec_cursor() == 0,
        s.spec_valid(),
{
    StrategemBuilder::new(StrategemClass::Offensive).right().right().up().build(
        "Orbital Precision Strike",
    )
}

/// Catalog entry "Orbital Gas Strike": a 4-symbol medium code.
pub fn orbital_gas_strike() -> (s: Strategem)
    ensures
        s.wf(),
        s.spec_name() == "Orbital Gas Strike"@,
        s.spec_class() == StrategemClass::Offensive,
        s.spec_difficulty() == StrategemDifficulty::Medium,
        s.spec_code() =~= seq![StrategemKey::Right, StrategemKey::Right, StrategemKey::Down, StrategemKey::Right],
        s.spec_cursor() == 0,
        s.spec_valid(),
{
    StrategemBuilder::new(StrategemClass::Offensive).right().right().down().right().build(
        "Orbital Gas Strike",
    )
}

/// Catalog entry "Orbital EMS Strike": a 4-symbol medium code.
pub fn orbital_ems_strike() -> (s: Strategem)
    ensures
        s.wf(),
        s.spec_name() == "Orbital EMS Strike"@,
        s.spec_class() == StrategemClass::Offensive,
        s.spec_difficulty() == StrategemDifficulty::Medium,
        s.spec_code() =~= seq![StrategemKey::Right, StrategemKey::Right, StrategemKey::Left, StrategemKey::Down],
        s.spec_cursor() == 0,
        s.spec_valid(),
{
    StrategemBuilder::new(StrategemClass::Offensive).right().right().left().down().build(
        "Orbital EMS Strike",
    )
}

/// Catalog entry "Orbital Smoke Strike": a 4-symbol medium code.
pub fn orbital_smoke_strike() -> (s: Strategem)
    ensures
        s.wf(),
        s.spec_name() == "Orbital Smoke Strike"@,
        s.spec_class() == StrategemClass::Offensive,
        s.spec_difficulty() == StrategemDifficulty::Medium,
        s.spec_code() =~= seq![StrategemKey::Right, StrategemKey::Right, StrategemKey::Down, StrategemKey::Up],
        s.spec_cursor() == 0,
        s.spec_valid(),
{
    StrategemBuilder::new(StrategemClass::Offensive).right().right().down().up().build(
        "Orbital Smoke Strike",
    )
}

/// Catalog entry "Eagle Strafing Run": a 3-symbol easy code.
pub fn eagle_strafing_run() -> (s: Strategem)
    ensures
        s.wf(),
        s.spec_name() == "Eagle Strafing Run"@,
        s.spec_class() == StrategemClass::Offensive,
        s.spec_difficulty() == StrategemDifficulty::Easy,
        s.spec_code() =~= seq![StrategemKey::Up, StrategemKey::Right, StrategemKey::Right],
        s.spec_cursor() == 0,
        s.spec_valid(),
{
    StrategemBuilder::new(StrategemClass::Offensive).up().right().right().build(
        "Eagle Strafing Run",
    )
}

/// Catalog entry "Eagle Air Strike": a 4-symbol medium code.
pub fn eagle_air_strike() -> (s: Strategem)
    ensures
        s.wf(),
        s.spec_name() == "Eagle Air Strike"@,
        s.spec_class() == StrategemClass::Offensive,
        s.spec_difficulty() == StrategemDifficulty::Medium,
        s.spec_code() =~= seq![StrategemKey::Up, StrategemKey::Right, StrategemKey::Down, StrategemKey::Right],
        s.spec_cursor() == 0,
        s.spec_valid(),
{
    StrategemBuilder::new(StrategemClass::Offensive).up().right().down().right().build(
        "Eagle Air Strike",
    )
}

/// Catalog entry "Eagle Cluster Bomb": a 5-symbol medium code.
pub fn eagle_cluster_bomb() -> (s: Strategem)
    ensures
        s.wf(),
        s.spec_name() == "Eagle Cluster Bomb"@,
        s.spec_class() == StrategemClass::Offensive,
        s.spec_difficulty() == StrategemDifficulty::Medium,
        s.spec_code() =~= seq![StrategemKey::Up, StrategemKey::Right, StrategemKey::Down, StrategemKey::Down, StrategemKey::Right],
        s.spec_cursor() == 0,
        s.spec_valid(),
{
    StrategemBuilder::new(StrategemClass::Offensive).up().right().down().down().right().build(
        "Eagle Cluster Bomb",
    )
}

/// Catalog entry "Eagle Napalm Airstrike": a 4-symbol medium code.
pub fn eagle_napalm_airstrike() -> (s: Strategem)
    ensures
        s.wf(),
        s.spec_name() == "Eagle Napalm Airstrike"@,
        s.spec_class() == StrategemClass::Offensive,
        s.spec_difficulty() == StrategemDifficulty::Medium,
        s.spec_code() =~= seq![StrategemKey::Up, StrategemKey::Right, StrategemKey::Down, StrategemKey::Up],
        s.spec_cursor() == 0,
        s.spec_valid(),
{
    StrategemBuilder::new(StrategemClass::Offensive).up().right().down().up().build(
        "Eagle Napalm Airstrike",
    )
}

/// Catalog entry "Eagle Smoke Strike": a 4-symbol medium code.
pub fn eagle_smoke_strike() -> (s: Strategem)
    ensures
        s.wf(),
        s.spec_name() == "Eagle Smoke Strike"@,
        s.spec_class() == StrategemClass::Offensive,
        s.spec_difficulty() == StrategemDifficulty::Medium,
        s.spec_code() =~= seq![StrategemKey::Up, StrategemKey::Right, StrategemKey::Up, StrategemKey::Down],
        s.spec_cursor() == 0,
        s.spec_valid(),
{
    StrategemBuilder::new(StrategemClass::Offensive).up().right().up().down().build(
        "Eagle Smoke Strike",
    )
}

/// Catalog entry "Eagle 110MM Rocket Pods": a 4-symbol medium code.
pub fn eagle_110mm_rocket_pods() -> (s: Strategem)
    ensures
        s.wf(),
        s.spec_name() == "Eagle 110MM Rocket Pods"@,
        s.spec_class() == StrategemClass::Offensive,
        s.spec_difficulty() == StrategemDifficulty::Medium,
        s.spec_code() =~= seq![StrategemKey::Up, StrategemKey::Right, StrategemKey::Up, StrategemKey::Left],
        s.spec_cursor() == 0,
        s.spec_valid(),
{
    StrategemBuilder::new(StrategemClass::Offensive).up().right().up().left().build(
        "Eagle 110MM Rocket Pods",
    )
}

/// Catalog entry "Eagle 500KG Bomb": a 5-symbol medium code.
pub fn eagle_500kg_bomb() -> (s: Strategem)
    ensures
        s.wf(),
        s.spec_name() == "Eagle 500KG Bomb"@,
        s.spec_class() == StrategemClass::Offensive,
        s.spec_difficulty() == StrategemDifficulty::Medium,
        s.spec_code() =~= seq![StrategemKey::Up, StrategemKey::Right, StrategemKey::Down, StrategemKey::Down, StrategemKey::Down],
        s.spec_cursor() == 0,
        s.spec_valid(),
{
    StrategemBuilder::new(StrategemClass::Offensive).up().right().down().down().down().build(
        "Eagle 500KG Bomb",
    )
}

} // verus!
