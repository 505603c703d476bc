//! The strategem catalog: the fixed set of named codes, and the uniform
//! random draw that starts each round.

use vstd::prelude::*;

use crate::defensive;
use crate::mission;
use crate::offensive;
use crate::strategem::{Strategem, StrategemClass, StrategemKey};
use crate::supply;

verus! {

/// Relies on rand::random: draws a value of `T` from its standard
/// distribution with the thread-local generator. Nothing is promised of the
/// result: every caller must cope with every value.
pub assume_specification<T>[ rand::random::<T> ]() -> (r: T)
    where
        rand::distributions::Standard: rand::distributions::Distribution<T>,
;

/// The display name of catalog entry `i`.
pub open spec fn spec_entry_name(i: int) -> Seq<char> {
    if i == 0 {
        "LIFT-850 Jump Pack"@
    } else if i == 1 {
        "B-1 Supply Pack"@
    } else if i == 2 {
        "AX/LAS-5 \"Guard Dog\" Rover"@
    } else if i == 3 {
        "SH-20 Ballistic Shield Backpack"@
    } else if i == 4 {
        "SH-32 Shield Generator Pack"@
    } else if i == 5 {
        "AX/AR-23 \"Guard Dog\""@
    } else if i == 6 {
        "MG-43 Machine Gun"@
    } else if i == 7 {
        "APW-1 Anti-Materiel Rifle"@
    } else if i == 8 {
        "M-105 Stalwart"@
    } else if i == 9 {
        "EAT-17 Expendable Anti-tank"@
    } else if i == 10 {
        "GR-8 Recoilless Rifle"@
    } else if i == 11 {
        "FLAM-40 Flamethrower"@
    } else if i == 12 {
        "AC-8 Autocannon"@
    } else if i == 13 {
        "MG-206 Heavy Machine Gun"@
    } else if i == 14 {
        "RS-422 Railgun"@
    } else if i == 15 {
        "FAF-14 SPEAR Launcher"@
    } else if i == 16 {
        "GL-21 Grenade Launcher"@
    } else if i == 17 {
        "LAS-98 Laser Cannon"@
    } else if i == 18 {
        "ARC-3 Arc Thrower"@
    } else if i == 19 {
        "LAS-99 Quasar Cannon"@
    } else if i == 20 {
        "RL-77 Airburst Rocket Launcher"@
    } else if i == 21 {
        "EXO-45 Patriot Exosuit"@
    } else if i == 22 {
        "EXO-49 Emancipator Exosuit"@
    } else if i == 23 {
        "Reinforce"@
    } else if i == 24 {
        "SOS Beacon"@
    } else if i == 25 {
        "Resupply"@
    } else if i == 26 {
        "NUX-223 Hellbomb"@
    } else if i == 27 {
        "SSSD Delivery"@
    } else if i == 28 {
        "Seismic Probe"@
    } else if i == 29 {
        "Upload Data"@
    } else if i == 30 {
        "Eagle Rearm"@
    } else if i == 31 {
        "Illumination Flare"@
    } else if i == 32 {
        "SEAF Artillery"@
    } else if i == 33 {
        "Super Earth Flag"@
    } else if i == 34 {
        "E/MG-101 HMG Emplacement"@
    } else if i == 35 {
        "FX-12 Shield Generator Relay"@
    } else if i == 36 {
        "A/ARC-3 Tesla Tower"@
    } else if i == 37 {
        "MD-6 Anti-Personnel Minefield"@
    } else if i == 38 {
        "MD-I4 Incendiary Mines"@
    } else if i == 39 {
        "A/MG-43 Machine Gun Sentry"@
    } else if i == 40 {
        "A/G-16 Gatling Sentry"@
    } else if i == 41 {
        "A/M-12 Mortar Sentry"@
    } else if i == 42 {
        "A/AC-8 Autocannon Sentry"@
    } else if i == 43 {
        "A/MLS-4X Rocket Sentry"@
    } else if i == 44 {
        "A/M-23 EMS Mortar Sentry"@
    } else if i == 45 {
        "Orbital Gatling Barrage"@
    } else if i == 46 {
        "Orbital Airburst Strike"@
    } else if i == 47 {
        "Orbital 120MM HE Barrage"@
    } else if i == 48 {
        "Orbital 380MM HE Barrage"@
    } else if i == 49 {
        "Orbital Walking Barrage"@
    } else if i == 50 {
        "Orbital Laser"@
    } else if i == 51 {
        "Orbital Railcannon Strike"@
    } else if i == 52 {
        "Orbital Precision Strike"@
    } else if i == 53 {
        "Orbital Gas Strike"@
    } else if i == 54 {
        "Orbital EMS Strike"@
    } else if i == 55 {
        "Orbital Smoke Strike"@
    } else if i == 56 {
        "Eagle Strafing Run"@
    } else if i == 57 {
        "Eagle Air Strike"@
    } else if i == 58 {
        "Eagle Cluster Bomb"@
    } else if i == 59 {
        "Eagle Napalm Airstrike"@
    } else if i == 60 {
        "Eagle Smoke Strike"@
    } else if i == 61 {
        "Eagle 110MM Rocket Pods"@
    } else if i == 62 {
        "Eagle 500KG Bomb"@
    } else {
        Seq::<char>::empty()
    }
}

/// The class of catalog entry `i`.
pub open spec fn spec_entry_class(i: int) -> StrategemClass {
    if i == 0 {
        StrategemClass::Supply
    } else if i == 1 {
        StrategemClass::Supply
    } else if i == 2 {
        StrategemClass::Supply
    } else if i == 3 {
        StrategemClass::Supply
    } else if i == 4 {
        StrategemClass::Supply
    } else if i == 5 {
        StrategemClass::Supply
    } else if i == 6 {
        StrategemClass::Supply
    } else if i == 7 {
        StrategemClass::Supply
    } else if i == 8 {
        StrategemClass::Supply
    } else if i == 9 {
        StrategemClass::Supply
    } else if i == 10 {
        StrategemClass::Supply
    } else if i == 11 {
        StrategemClass::Supply
    } else if i == 12 {
        StrategemClass::Supply
    } else if i == 13 {
        StrategemClass::Supply
    } else if i == 14 {
        StrategemClass::Supply
    } else if i == 15 {
        StrategemClass::Supply
    } else if i == 16 {
        StrategemClass::Supply
    } else if i == 17 {
        StrategemClass::Supply
    } else if i == 18 {
        StrategemClass::Supply
    } else if i == 19 {
        StrategemClass::Supply
    } else if i == 20 {
        StrategemClass::Supply
    } else if i == 21 {
        StrategemClass::Supply
    } else if i == 22 {
        StrategemClass::Supply
    } else if i == 23 {
        StrategemClass::Mission
    } else if i == 24 {
        StrategemClass::Mission
    } else if i == 25 {
        StrategemClass::Mission
    } else if i == 26 {
        StrategemClass::Mission
    } else if i == 27 {
        StrategemClass::Mission
    } else if i == 28 {
        StrategemClass::Mission
    } else if i == 29 {
        StrategemClass::Mission
    } else if i == 30 {
        StrategemClass::Mission
    } else if i == 31 {
        StrategemClass::Mission
    } else if i == 32 {
        StrategemClass::Mission
    } else if i == 33 {
        StrategemClass::Mission
    } else if i == 34 {
        StrategemClass::Defensive
    } else if i == 35 {
        StrategemClass::Defensive
    } else if i == 36 {
        StrategemClass::Defensive
    } else if i == 37 {
        StrategemClass::Defensive
    } else if i == 38 {
        StrategemClass::Defensive
    } else if i == 39 {
        StrategemClass::Defensive
    } else if i == 40 {
        StrategemClass::Defensive
    } else if i == 41 {
        StrategemClass::Defensive
    } else if i == 42 {
        StrategemClass::Defensive
    } else if i == 43 {
        StrategemClass::Defensive
    } else if i == 44 {
        StrategemClass::Defensive
    } else if i == 45 {
        StrategemClass::Offensive
    } else if i == 46 {
        StrategemClass::Offensive
    } else if i == 47 {
        StrategemClass::Offensive
    } else if i == 48 {
        StrategemClass::Offensive
    } else if i == 49 {
        StrategemClass::Offensive
    } else if i == 50 {
        StrategemClass::Offensive
    } else if i == 51 {
        StrategemClass::Offensive
    } else if i == 52 {
        StrategemClass::Offensive
    } else if i == 53 {
        StrategemClass::Offensive
    } else if i == 54 {
        StrategemClass::Offensive
    } else if i == 55 {
        StrategemClass::Offensive
    } else if i == 56 {
        StrategemClass::Offensive
    } else if i == 57 {
        StrategemClass::Offensive
    } else if i == 58 {
        StrategemClass::Offensive
    } else if i == 59 {
        StrategemClass::Offensive
    } else if i == 60 {
        StrategemClass::Offensive
    } else if i == 61 {
        StrategemClass::Offensive
    } else if i == 62 {
        StrategemClass::Offensive
    } else {
        StrategemClass::Supply
    }
}

/// The directional code of catalog entry `i`.
pub open spec fn spec_entry_code(i: int) -> Seq<StrategemKey> {
    if i == 0 {
        seq![StrategemKey::Down, StrategemKey::Up, StrategemKey::Up, StrategemKey::Down, StrategemKey::Up]
    } else if i == 1 {
        seq![StrategemKey::Down, StrategemKey::Left, StrategemKey::Down, StrategemKey::Up, StrategemKey::Up, StrategemKey::Down]
    } else if i == 2 {
        seq![StrategemKey::Down, StrategemKey::Up, StrategemKey::Left, StrategemKey::Up, StrategemKey::Right, StrategemKey::Right]
    } else if i == 3 {
        seq![StrategemKey::Down, StrategemKey::Left, StrategemKey::Down, StrategemKey::Down, StrategemKey::Up, StrategemKey::Left]
    } else if i == 4 {
        seq![StrategemKey::Down, StrategemKey::Up, StrategemKey::Left, StrategemKey::Right, StrategemKey::Left, StrategemKey::Right]
    } else if i == 5 {
        seq![StrategemKey::Down, StrategemKey::Up, StrategemKey::Left, StrategemKey::Up, StrategemKey::Right, StrategemKey::Down]
    } else if i == 6 {
        seq![StrategemKey::Down, StrategemKey::Left, StrategemKey::Down, StrategemKey::Up, StrategemKey::Right]
    } else if i == 7 {
        seq![StrategemKey::Down, StrategemKey::Left, StrategemKey::Right, StrategemKey::Up, StrategemKey::Down]
    } else if i == 8 {
        seq![StrategemKey::Down, StrategemKey::Left, StrategemKey::Down, StrategemKey::Up, StrategemKey::Up, StrategemKey::Left]
    } else if i == 9 {
        seq![StrategemKey::Down, StrategemKey::Down, StrategemKey::Left, StrategemKey::Up, StrategemKey::Right]
    } else if i == 10 {
        seq![StrategemKey::Down, StrategemKey::Left, StrategemKey::Right, StrategemKey::Right, StrategemKey::Left]
    } else if i == 11 {
        seq![StrategemKey::Down, StrategemKey::Left, StrategemKey::Up, StrategemKey::Down, StrategemKey::Up]
    } else if i == 12 {
        seq![StrategemKey::Down, StrategemKey::Left, StrategemKey::Down, StrategemKey::Up, StrategemKey::Up, StrategemKey::Right]
    } else if i == 13 {
        seq![StrategemKey::Down, StrategemKey::Left, StrategemKey::Up, StrategemKey::Down, StrategemKey::Down]
    } else if i == 14 {
        seq![StrategemKey::Down, StrategemKey::Right, StrategemKey::Down, StrategemKey::Up, StrategemKey::Left, StrategemKey::Right]
    } else if i == 15 {
        seq![StrategemKey::Down, StrategemKey::Down, StrategemKey::Up, StrategemKey::Down, StrategemKey::Down]
    } else if i == 16 {
        seq![StrategemKey::Down, StrategemKey::Left, StrategemKey::Up, StrategemKey::Left, StrategemKey::Down]
    } else if i == 17 {
        seq![StrategemKey::Down, StrategemKey::Left, StrategemKey::Down, StrategemKey::Up, StrategemKey::Left]
    } else if i == 18 {
        seq![StrategemKey::Down, StrategemKey::Right, StrategemKey::Down, StrategemKey::Up, StrategemKey::Left, StrategemKey::Left]
    } else if i == 19 {
        seq![StrategemKey::Down, StrategemKey::Down, StrategemKey::Up, StrategemKey::Left, StrategemKey::Right]
    } else if i == 20 {
        seq![StrategemKey::Down, StrategemKey::Up, StrategemKey::Up, StrategemKey::Left, StrategemKey::Right]
    } else if i == 21 {
        seq![StrategemKey::Left, StrategemKey::Down, StrategemKey::Right, StrategemKey::Up, StrategemKey::Left, StrategemKey::Down, StrategemKey::Down]
    } else if i == 22 {
        seq![StrategemKey::Left, StrategemKey::Down, StrategemKey::Right, StrategemKey::Up, StrategemKey::Left, StrategemKey::Down, StrategemKey::Up]
    } else if i == 23 {
        seq![StrategemKey::Up, StrategemKey::Down, StrategemKey::Right, StrategemKey::Left, StrategemKey::Up]
    } else if i == 24 {
        seq![StrategemKey::Up, StrategemKey::Down, StrategemKey::Right, StrategemKey::Up]
    } else if i == 25 {
        seq![StrategemKey::Down, StrategemKey::Down, StrategemKey::Up, StrategemKey::Right]
    } else if i == 26 {
        seq![StrategemKey::Down, StrategemKey::Up, StrategemKey::Left, StrategemKey::Down, StrategemKey::Up, StrategemKey::Right, StrategemKey::Down, StrategemKey::Up]
    } else if i == 27 {
        seq![StrategemKey::Down, StrategemKey::Down, StrategemKey::Down, StrategemKey::Up, StrategemKey::Up]
    } else if i == 28 {
        seq![StrategemKey::Up, StrategemKey::Up, StrategemKey::Left, StrategemKey::Right, StrategemKey::Down, StrategemKey::Down]
    } else if i == 29 {
        seq![StrategemKey::Left, StrategemKey::Right, StrategemKey::Up, StrategemKey::Up, StrategemKey::Up]
    } else if i == 30 {
        seq![StrategemKey::Up, StrategemKey::Up, StrategemKey::Left, StrategemKey::Up, StrategemKey::Right]
    } else if i == 31 {
        seq![StrategemKey::Right, StrategemKey::Right, StrategemKey::Left, StrategemKey::Left]
    } else if i == 32 {
        seq![StrategemKey::Right, StrategemKey::Up, StrategemKey::Up, StrategemKey::Down]
    } else if i == 33 {
        seq![StrategemKey::Down, StrategemKey::Up, StrategemKey::Down, StrategemKey::Up]
    } else if i == 34 {
        seq![StrategemKey::Down, StrategemKey::Up, StrategemKey::Left, StrategemKey::Right, StrategemKey::Right, StrategemKey::Left]
    } else if i == 35 {
        seq![StrategemKey::Down, StrategemKey::Down, StrategemKey::Left, StrategemKey::Right, StrategemKey::Left, StrategemKey::Right]
    } else if i == 36 {
        seq![StrategemKey::Down, StrategemKey::Up, StrategemKey::Right, StrategemKey::Up, StrategemKey::Left, StrategemKey::Right]
    } else if i == 37 {
        seq![StrategemKey::Down, StrategemKey::Left, StrategemKey::Up, StrategemKey::Right]
    } else if i == 38 {
        seq![StrategemKey::Down, StrategemKey::Left, StrategemKey::Left, StrategemKey::Down]
    } else if i == 39 {
        seq![StrategemKey::Down, StrategemKey::Up, StrategemKey::Right, StrategemKey::Right, StrategemKey::Up]
    } else if i == 40 {
        seq![StrategemKey::Down, StrategemKey::Up, StrategemKey::Right, StrategemKey::Left]
    } else if i == 41 {
        seq![StrategemKey::Down, StrategemKey::Up, StrategemKey::Right, StrategemKey::Right, StrategemKey::Down]
    } else if i == 42 {
        seq![StrategemKey::Down, StrategemKey::Up, StrategemKey::Right, StrategemKey::Up, StrategemKey::Left, StrategemKey::Up]
    } else if i == 43 {
        seq![StrategemKey::Down, StrategemKey::Up, StrategemKey::Right, StrategemKey::Right, StrategemKey::Left]
    } else if i == 44 {
        seq![StrategemKey::Down, StrategemKey::Up, StrategemKey::Right, StrategemKey::Down, StrategemKey::Right]
    } else if i == 45 {
        seq![StrategemKey::Right, StrategemKey::Down, StrategemKey::Left, StrategemKey::Up, StrategemKey::Up]
    } else if i == 46 {
        seq![StrategemKey::Right, StrategemKey::Right, StrategemKey::Right]
    } else if i == 47 {
        seq![StrategemKey::Right, StrategemKey::Right, StrategemKey::Down, StrategemKey::Left, StrategemKey::Right, StrategemKey::Down]
    } else if i == 48 {
        seq![StrategemKey::Right, StrategemKey::Down, StrategemKey::Up, StrategemKey::Up, StrategemKey::Left, StrategemKey::Down, StrategemKey::Down]
    } else if i == 49 {
        seq![StrategemKey::Right, StrategemKey::Down, StrategemKey::Right, StrategemKey::Down, StrategemKey::Right, StrategemKey::Down]
    } else if i == 50 {
        seq![StrategemKey::Right, StrategemKey::Down, StrategemKey::Up, StrategemKey::Right, StrategemKey::Down]
    } else if i == 51 {
        seq![StrategemKey::Right, StrategemKey::Up, StrategemKey::Down, StrategemKey::Down, StrategemKey::Right]
    } else if i == 52 {
        seq![StrategemKey::Right, StrategemKey::Right, StrategemKey::Up]
    } else if i == 53 {
        seq![StrategemKey::Right, StrategemKey::Right, StrategemKey::Down, StrategemKey::Right]
    } else if i == 54 {
        seq![StrategemKey::Right, StrategemKey::Right, StrategemKey::Left, StrategemKey::Down]
    } else if i == 55 {
        seq![StrategemKey::Right, StrategemKey::Right, StrategemKey::Down, StrategemKey::Up]
    } else if i == 56 {
        seq![StrategemKey::Up, StrategemKey::Right, StrategemKey::Right]
    } else if i == 57 {
        seq![StrategemKey::Up, StrategemKey::Right, StrategemKey::Down, StrategemKey::Right]
    } else if i == 58 {
        seq![StrategemKey::Up, StrategemKey::Right, StrategemKey::Down, StrategemKey::Down, StrategemKey::Right]
    } else if i == 59 {
        seq![StrategemKey::Up, StrategemKey::Right, StrategemKey::Down, StrategemKey::Up]
    } else if i == 60 {
        seq![StrategemKey::Up, StrategemKey::Right, StrategemKey::Up, StrategemKey::Down]
    } else if i == 61 {
        seq![StrategemKey::Up, StrategemKey::Right, StrategemKey::Up, StrategemKey::Left]
    } else if i == 62 {
        seq![StrategemKey::Up, StrategemKey::Right, StrategemKey::Down, StrategemKey::Down, StrategemKey::Down]
    } else {
        Seq::<StrategemKey>::empty()
    }
}

/// Whether a strategem carries the identity of catalog entry `i`: its name,
/// class and directional code (and, through well-formedness, the difficulty
/// implied by the code's length).
pub open spec fn spec_matches_entry(s: Strategem, i: int) -> bool {
    &&& s.spec_name() == spec_entry_name(i)
    &&& s.spec_class() == spec_entry_class(i)
    &&& s.spec_code() == spec_entry_code(i)
}

/// Whether a strategem is one of the 63 catalog entries, by identity.
pub open spec fn spec_is_catalog_entry(s: Strategem) -> bool {
    exists|i: int| 0 <= i < 63 && spec_matches_entry(s, i)
}

/// Catalog membership is a matter of identity alone: it survives any change
/// of the matcher state (cursor and validity).
pub proof fn lemma_catalog_entry_identity(s1: Strategem, s2: Strategem)
    requires
        spec_is_catalog_entry(s1),
        s2.same_identity(s1),
    ensures
        spec_is_catalog_entry(s2),
{
    let i = choose|i: int| 0 <= i < 63 && spec_matches_entry(s1, i);
    assert(spec_matches_entry(s2, i));
}

/// All catalog entries, each in its fresh state: cursor at the start, valid,
/// with a code of 1 to 16 symbols and the difficulty implied by its length.
#[verifier::rlimit(100)]
pub fn all_strategems() -> (v: Vec<Strategem>)
    ensures
        v@.len() == 63,
        forall|i: int|
            0 <= i < v@.len() ==> {
                &&& (#[trigger] v@[i]).wf()
                &&& v@[i].spec_cursor() == 0
                &&& v@[i].spec_valid()
                &&& 1 <= v@[i].spec_code().len()
                &&& spec_matches_entry(v@[i], i)
            },
{
    let mut v: Vec<Strategem> = Vec::new();
    v.push(supply::lift850_jump_pack());
    v.push(supply::b1_supply_pack());
    v.push(supply::axlas5_guard_dog_rover());
    v.push(supply::sh20_ballistic_shield_backpack());
    v.push(supply::sh32_shield_generator_pack());
    v.push(supply::axar23_guard_dog());
    v.push(supply::mg43_machine_gun());
    v.push(supply::apw1_antimateriel_rifle());
    v.push(supply::m105_stalwart());
    v.push(supply::eat17_expendable_antitank());
    v.push(supply::gr8_recoilless_rifle());
    v.push(supply::flam40_flamethrower());
    v.push(supply::ac8_autocannon());
    v.push(supply::mg206_heavy_machine_gun());
    v.push(supply::rs422_railgun());
    v.push(supply::faf14_spear_launcher());
    v.push(supply::gl21_grenade_launcher());
    v.push(supply::las98_laser_cannon());
    v.push(supply::arc3_arc_thrower());
    v.push(supply::las99_quasar_cannon());
    v.push(supply::rl77_airburst_rocket_launcher());
    v.push(supply::exo45_patriot_exosuit());
    v.push(supply::exo45_emancipator_exosuit());
    v.push(mission::reinforce());
    v.push(mission::sos_beacon());
    v.push(mission::resupply());
    v.push(mission::nux223_hellbomb());
    v.push(mission::sssd_delivery());
    v.push(mission::seismic_probe());
    v.push(mission::upload_data());
    v.push(mission::eagle_rearm());
    v.push(mission::illumination_flare());
    v.push(mission::seaf_artillery());
    v.push(mission::super_earth_flag());
    v.push(defensive::emg101_hmg_emplacement());
    v.push(defensive::fx12_shield_generator_relay());
    v.push(defensive::aarc3_tesla_tower());
    v.push(defensive::md6_anti_personnel_minefield());
    v.push(defensive::mdi4_incendiary_mines());
    v.push(defensive::amg43_machine_gun_sentry());
    v.push(defensive::ag16_galting_sentry());
    v.push(defensive::am12_mortar_sentry());
    v.push(defensive::aac8_autocannon_sentry());
    v.push(defensive::amls4x_rocket_sentry());
    v.push(defensive::am23_ems_mortar_sentry());
    v.push(offensive::orbital_gatling_barrage());
    v.push(offensive::orbital_airburst_strike());
    v.push(offensive::orbital_120mm_he_barrage());
    v.push(offensive::orbital_380mm_he_barrage());
    v.push(offensive::orbital_walking_barrage());
    v.push(offensive::orbital_laser());
    v.push(offensive::orbital_railcannon_strike());
    v.push(offensive::orbital_precision_strike());
    v.push(offensive::orbital_gas_strike());
    v.push(offensive::orbital_ems_strike());
    v.push(offensive::orbital_smoke_strike());
    v.push(offensive::eagle_strafing_run());
    v.push(offensive::eagle_air_strike());
    v.push(offensive::eagle_cluster_bomb());
    v.push(offensive::eagle_napalm_airstrike());
    v.push(offensive::eagle_smoke_strike());
    v.push(offensive::eagle_110mm_rocket_pods());
    v.push(offensive::eagle_500kg_bomb());
    v
}

/// A uniform random draw, with replacement, over the whole catalog: the
/// result carries the identity of one of the 63 catalog entries and is
/// fresh (cursor at the start, valid, non-empty code, difficulty implied by
/// length).
pub fn random() -> (s: Strategem)
    ensures
        s.wf(),
        s.spec_cursor() == 0,
        s.spec_valid(),
        1 <= s.spec_code().len(),
        spec_is_catalog_entry(s),
{
    let mut v = all_strategems();
    let r: usize = rand::random();
    let idx = r % v.len();
    let s = v.remove(idx);
    proof {
        assert(spec_matches_entry(s, idx as int));
    }
    s
}

} // verus!
