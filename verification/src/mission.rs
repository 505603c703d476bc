//! Mission-class catalog entries.

use vstd::prelude::*;

use crate::builder::StrategemBuilder;
use crate::strategem::{Strategem, StrategemClass, StrategemDifficulty, StrategemKey};

verus! {

/// Catalog entry "Reinforce": a 5-symbol medium code.
pub fn reinforce() -> (s: Strategem)
    ensures
        s.wf(),
        s.spec_name() == "Reinforce"@,
        s.spec_class() == StrategemClass::Mission,
        s.spec_difficulty() == StrategemDifficulty::Medium,
        s.spec_code() =~= seq![StrategemKey::Up, StrategemKey::Down, StrategemKey::Right, StrategemKey::Left, StrategemKey::Up],
        s.spec_cursor() == 0,
        s.spec_valid(),
{
    StrategemBuilder::new(StrategemClass::Mission).up().down().right().left().up().build(
        "Reinforce",
    )
}

/// Catalog entry "SOS Beacon": a 4-symbol medium code.
pub fn sos_beacon() -> (s: Strategem)
    ensures
        s.wf(),
        s.spec_name() == "SOS Beacon"@,
        s.spec_class() == StrategemClass::Mission,
        s.spec_difficulty() == StrategemDifficulty::Medium,
        s.spec_code() =~= seq![StrategemKey::Up, StrategemKey::Down, StrategemKey::Right, StrategemKey::Up],
        s.spec_cursor() == 0,
        s.spec_valid(),
{
    StrategemBuilder::new(StrategemClass::Mission).up().down().right().up().build(
        "SOS Beacon",
    )
}

/// Catalog entry "Resupply": a 4-symbol medium code.
pub fn resupply() -> (s: Strategem)
    ensures
        s.wf(),
        s.spec_name() == "Resupply"@,
        s.spec_class() == StrategemClass::Mission,
        s.spec_difficulty() == StrategemDifficulty::Medium,
        s.spec_code() =~= seq![StrategemKey::Down, StrategemKey::Down, StrategemKey::Up, StrategemKey::Right],
        s.spec_cursor() == 0,
        s.spec_valid(),
{
    StrategemBuilder::new(StrategemClass::Mission).down().down().up().right().build(
        "Resupply",
    )
}

/// Catalog entry "NUX-223 Hellbomb": a 8-symbol hard code.
pub fn nux223_hellbomb() -> (s: Strategem)
    ensures
        s.wf(),
        s.spec_name() == "NUX-223 Hellbomb"@,
        s.spec_class() == StrategemClass::Mission,
        s.spec_difficulty() == StrategemDifficulty::Hard,
        s.spec_code() =~= seq![StrategemKey::Down, StrategemKey::Up, StrategemKey::Left, StrategemKey::Down, StrategemKey::Up, StrategemKey::Right, StrategemKey::Down, StrategemKey::Up],
        s.spec_cursor() == 0,
        s.spec_valid(),
{
    StrategemBuilder::new(StrategemClass::Mission).down().up().left().down().up().right().down().up().build(
        "NUX-223 Hellbomb",
    )
}

/// Catalog entry "SSSD Delivery": a 5-symbol medium code.
pub fn sssd_delivery() -> (s: Strategem)
    ensures
        s.wf(),
        s.spec_name() == "SSSD Delivery"@,
        s.spec_class() == StrategemClass::Mission,
        s.spec_difficulty() == StrategemDifficulty::Medium,
        s.spec_code() =~= seq![StrategemKey::Down, StrategemKey::Down, StrategemKey::Down, StrategemKey::Up, StrategemKey::Up],
        s.spec_cursor() == 0,
        s.spec_valid(),
{
    StrategemBuilder::new(StrategemClass::Mission).down().down().down().up().up().build(
        "SSSD Delivery",
    )
}

/// Catalog entry "Seismic Probe": a 6-symbol medium code.
pub fn seismic_probe() -> (s: Strategem)
    ensures
        s.wf(),
        s.spec_name() == "Seismic Probe"@,
        s.spec_class() == StrategemClass::Mission,
        s.spec_difficulty() == StrategemDifficulty::Medium,
        s.spec_code() =~= seq![StrategemKey::Up, StrategemKey::Up, StrategemKey::Left, StrategemKey::Right, StrategemKey::Down, StrategemKey::Down],
        s.spec_cursor() == 0,
        s.spec_valid(),
{
    StrategemBuilder::new(StrategemClass::Mission).up().up().left().right().down().down().build(
        "Seismic Probe",
    )
}

/// Catalog entry "Upload Data": a 5-symbol medium code.
pub fn upload_data() -> (s: Strategem)
    ensures
        s.wf(),
        s.spec_name() == "Upload Data"@,
        s.spec_class() == StrategemClass::Mission,
        s.spec_difficulty() == StrategemDifficulty::Medium,
        s.spec_code() =~= seq![StrategemKey::Left, StrategemKey::Right, StrategemKey::Up, StrategemKey::Up, StrategemKey::Up],
        s.spec_cursor() == 0,
        s.spec_valid(),
{
    StrategemBuilder::new(StrategemClass::Mission).left().right().up().up().up().build(
        "Upload Data",
    )
}

/// Catalog entry "Eagle Rearm": a 5-symbol medium code.
pub fn eagle_rearm() -> (s: Strategem)
    ensures
        s.wf(),
        s.spec_name() == "Eagle Rearm"@,
        s.spec_class() == StrategemClass::Mission,
        s.spec_difficulty() == StrategemDifficulty::Medium,
        s.spec_code() =~= seq![StrategemKey::Up, StrategemKey::Up, StrategemKey::Left, StrategemKey::Up, StrategemKey::Right],
        s.spec_cursor() == 0,
        s.spec_valid(),
{
    StrategemBuilder::new(StrategemClass::Mission).up().up().left().up().right().build(
        "Eagle Rearm",
    )
}

/// Catalog entry "Illumination Flare": a 4-symbol medium code.
pub fn illumination_flare() -> (s: Strategem)
    ensures
        s.wf(),
        s.spec_name() == "Illumination Flare"@,
        s.spec_class() == StrategemClass::Mission,
        s.spec_difficulty() == StrategemDifficulty::Medium,
        s.spec_code() =~= seq![StrategemKey::Right, StrategemKey::Right, StrategemKey::Left, StrategemKey::Left],
        s.spec_cursor() == 0,
        s.spec_valid(),
{
    StrategemBuilder::new(StrategemClass::Mission).right().right().left().left().build(
        "Illumination Flare",
    )
}

/// Catalog entry "SEAF Artillery": a 4-symbol medium code.
pub fn seaf_artillery() -> (s: Strategem)
    ensures
        s.wf(),
        s.spec_name() == "SEAF Artillery"@,
        s.spec_class() == StrategemClass::Mission,
        s.spec_difficulty() == StrategemDifficulty::Medium,
        s.spec_code() =~= seq![StrategemKey::Right, StrategemKey::Up, StrategemKey::Up, StrategemKey::Down],
        s.spec_cursor() == 0,
        s.spec_valid(),
{
    StrategemBuilder::new(StrategemClass::Mission).right().up().up().down().build(
        "SEAF Artillery",
    )
}

/// Catalog entry "Super Earth Flag": a 4-symbol medium code.
pub fn super_earth_flag() -> (s: Strategem)
    ensures
        s.wf(),
        s.spec_name() == "Super Earth Flag"@,
        s.spec_class() == StrategemClass::Mission,
        s.spec_difficulty() == StrategemDifficulty::Medium,
        s.spec_code() =~= seq![StrategemKey::Down, StrategemKey::Up, StrategemKey::Down, StrategemKey::Up],
        s.spec_cursor() == 0,
        s.spec_valid(),
{
    StrategemBuilder::new(StrategemClass::Mission).down().up().down().up().build(
        "Super Earth Flag",
    )
}

} // verus!
