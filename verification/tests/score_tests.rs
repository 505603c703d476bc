use strategem_hero::score::get_score_value;
use strategem_hero::score::Multiplier;
use strategem_hero::score::Multiplier::{First, Second, Third};
use strategem_hero::strategem::StrategemDifficulty;
use strategem_hero::strategem::StrategemDifficulty::{Easy, Hard, Medium};

#[test]
fn streak_maps_to_multiplier_tier() {
    assert!(matches!(Multiplier::get(0), Multiplier::First));
    assert!(matches!(Multiplier::get(5), Multiplier::First));
    assert!(matches!(Multiplier::get(6), Multiplier::Second));
    assert!(matches!(Multiplier::get(20), Multiplier::Second));
    assert!(matches!(Multiplier::get(21), Multiplier::Third));
    assert!(matches!(Multiplier::get(1000), Multiplier::Third));
}

#[test]
fn score_value_concrete_corners() {
    assert_eq!(50, get_score_value(&StrategemDifficulty::Easy, Multiplier::get(0), 0));
    assert_eq!(250, get_score_value(&StrategemDifficulty::Hard, Multiplier::get(21), 0));
}

#[test]
fn score_value_full_table() {
    assert_eq!(50, get_score_value(&Easy, First, 0));
    assert_eq!(75, get_score_value(&Medium, First, 0));
    assert_eq!(100, get_score_value(&Hard, First, 0));
    assert_eq!(100, get_score_value(&Easy, Second, 0));
    assert_eq!(150, get_score_value(&Medium, Second, 0));
    assert_eq!(200, get_score_value(&Hard, Second, 0));
    assert_eq!(125, get_score_value(&Easy, Third, 0));
    assert_eq!(190, get_score_value(&Medium, Third, 0));
    assert_eq!(250, get_score_value(&Hard, Third, 0));
}

#[test]
fn bonus_is_added_on_top() {
    assert_eq!(150, get_score_value(&StrategemDifficulty::Easy, Multiplier::First, 100));
    assert_eq!(350, get_score_value(&StrategemDifficulty::Hard, Multiplier::Third, 100));
}

#[test]
fn score_value_never_decreases_with_tier_or_difficulty() {
    let tiers = [First, Second, Third];
    let difficulties = [Easy, Medium, Hard];
    for (ti, tier) in tiers.iter().enumerate() {
        for (di, difficulty) in difficulties.iter().enumerate() {
            let here = get_score_value(difficulty, *tier, 0);
            for higher_tier in &tiers[ti..] {
                for higher_difficulty in &difficulties[di..] {
                    assert!(get_score_value(higher_difficulty, *higher_tier, 0) >= here);
                }
            }
        }
    }
}
