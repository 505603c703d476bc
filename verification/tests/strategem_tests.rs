use strategem_hero::builder::StrategemBuilder;
use strategem_hero::catalog;
use strategem_hero::event::Key;
use strategem_hero::offensive;
use strategem_hero::strategem::{Strategem, StrategemClass, StrategemDifficulty, StrategemKey};
use strategem_hero::supply;

fn built(symbols: usize) -> Strategem {
    let mut b = StrategemBuilder::new(StrategemClass::Mission);
    for _ in 0..symbols {
        b = b.up();
    }
    b.build("test entry")
}

#[test]
fn difficulty_follows_code_length() {
    for len in 1..=16 {
        let s = built(len);
        assert_eq!(len, s.code_len());
        let expected = if len <= 3 {
            StrategemDifficulty::Easy
        } else if len <= 6 {
            StrategemDifficulty::Medium
        } else {
            StrategemDifficulty::Hard
        };
        assert_eq!(&expected, s.difficulty());
    }
}

#[test]
fn builder_caps_code_at_sixteen_symbols() {
    let mut b = StrategemBuilder::new(StrategemClass::Supply);
    for _ in 0..20 {
        b = b.down();
    }
    let s = b.build("overlong");
    assert_eq!(16, s.code_len());
    assert_eq!(&StrategemDifficulty::Hard, s.difficulty());
}

#[test]
fn exact_code_completes_with_no_spurious_invalid() {
    let mut s = supply::lift850_jump_pack();
    let len = s.code_len();
    for i in 0..len {
        assert!(s.is_valid());
        assert!(!s.is_completed());
        let key = s.key_at(i);
        s.assert_key(key);
        assert!(s.is_valid());
    }
    assert!(s.is_completed());
    assert!(s.is_valid());
}

#[test]
fn wrong_symbol_invalidates_immediately_and_stays() {
    // Position 2 of this code is Up; feed Down there instead.
    let mut s = offensive::orbital_laser();
    let first = s.key_at(0);
    let second = s.key_at(1);
    s.assert_key(first);
    s.assert_key(second);
    assert!(s.is_valid());
    assert!(s.key_at(2) != StrategemKey::Down);
    s.assert_key(StrategemKey::Down);
    assert!(!s.is_valid());
    assert!(!s.is_completed());
    for _ in 0..10 {
        s.assert_key(StrategemKey::Up);
        assert!(!s.is_valid());
    }
    s.reset();
    assert!(s.is_valid());
    assert_eq!(0, s.cursor());
    assert!(!s.is_completed());
}

#[test]
fn completed_strategem_ignores_further_input() {
    let mut s = offensive::orbital_airburst_strike();
    s.assert_key(StrategemKey::Right);
    s.assert_key(StrategemKey::Right);
    s.assert_key(StrategemKey::Right);
    assert!(s.is_completed());
    s.assert_key(StrategemKey::Up);
    assert!(s.is_completed());
    assert_eq!(3, s.cursor());
}

#[test]
fn reset_keeps_identity() {
    let mut s = supply::b1_supply_pack();
    s.assert_key(s.key_at(0));
    s.reset();
    assert_eq!("B-1 Supply Pack", s.name());
    assert_eq!(&StrategemClass::Supply, s.class());
    assert_eq!(&StrategemDifficulty::Medium, s.difficulty());
    assert_eq!(6, s.code_len());
}

#[test]
fn directional_keys_convert_to_symbols() {
    assert_eq!(StrategemKey::Up, StrategemKey::from_key(Key::ArrowUp));
    assert_eq!(StrategemKey::Down, StrategemKey::from_key(Key::ArrowDown));
    assert_eq!(StrategemKey::Left, StrategemKey::from_key(Key::ArrowLeft));
    assert_eq!(StrategemKey::Right, StrategemKey::from_key(Key::ArrowRight));
    assert!(!Key::Escape.is_directional());
    assert!(Key::ArrowUp.is_directional());
}

#[test]
fn catalog_has_sixty_three_fresh_entries() {
    let all = catalog::all_strategems();
    assert_eq!(63, all.len());
    for s in &all {
        assert!(s.is_valid());
        assert!(!s.is_completed());
        assert_eq!(0, s.cursor());
        let len = s.code_len();
        assert!((1..=16).contains(&len));
    }
}

#[test]
fn catalog_entries_spot_checks() {
    let jump_pack = supply::lift850_jump_pack();
    assert_eq!("LIFT-850 Jump Pack", jump_pack.name());
    assert_eq!(&StrategemClass::Supply, jump_pack.class());
    assert_eq!(5, jump_pack.code_len());
    assert_eq!(StrategemKey::Down, jump_pack.key_at(0));
    assert_eq!(StrategemKey::Up, jump_pack.key_at(1));

    let hellbomb = strategem_hero::mission::nux223_hellbomb();
    assert_eq!("NUX-223 Hellbomb", hellbomb.name());
    assert_eq!(&StrategemDifficulty::Hard, hellbomb.difficulty());
    assert_eq!(8, hellbomb.code_len());

    let tesla = strategem_hero::defensive::aarc3_tesla_tower();
    assert_eq!(&StrategemClass::Defensive, tesla.class());
    assert_eq!(&StrategemDifficulty::Medium, tesla.difficulty());
}

#[test]
fn every_catalog_entry_completes_on_its_own_code() {
    for mut s in catalog::all_strategems() {
        let len = s.code_len();
        for i in 0..len {
            assert!(!s.is_completed());
            let key = s.key_at(i);
            s.assert_key(key);
            assert!(s.is_valid());
        }
        assert!(s.is_completed());
    }
}

#[test]
fn every_catalog_entry_fails_on_a_wrong_first_symbol() {
    let wrong_choices = [
        StrategemKey::Up,
        StrategemKey::Down,
        StrategemKey::Left,
        StrategemKey::Right,
    ];
    for mut s in catalog::all_strategems() {
        let first = s.key_at(0);
        let wrong = *wrong_choices.iter().find(|k| **k != first).unwrap();
        s.assert_key(wrong);
        assert!(!s.is_valid());
        assert!(!s.is_completed());
    }
}

#[test]
fn random_draw_yields_a_fresh_valid_strategem() {
    for _ in 0..50 {
        let s = catalog::random();
        assert!(s.is_valid());
        assert!(!s.is_completed());
        assert_eq!(0, s.cursor());
        let len = s.code_len();
        assert!((1..=16).contains(&len));
        let expected = if len <= 3 {
            StrategemDifficulty::Easy
        } else if len <= 6 {
            StrategemDifficulty::Medium
        } else {
            StrategemDifficulty::Hard
        };
        assert_eq!(&expected, s.difficulty());
        assert!(!s.name().is_empty());
    }
}
