use strategem_hero::leaderboard::Leaderboard;

#[test]
fn leaderboard_replace() {
    let mut leaderboard = Leaderboard::default();
    leaderboard.insert("You", 1000);
    assert_eq!(Some(1000), leaderboard.get("You"));
}

#[test]
fn default_table_is_seeded() {
    let leaderboard = Leaderboard::default();
    assert_eq!(Some(20000), leaderboard.get("John Helldiver"));
    assert_eq!(Some(14500), leaderboard.get("Eagle-1"));
    assert_eq!(Some(11200), leaderboard.get("Pelican-1"));
    assert_eq!(Some(8300), leaderboard.get("Democracy Officer"));
    assert_eq!(Some(0), leaderboard.get("You"));
    assert_eq!(5, leaderboard.iter().len());
}

#[test]
fn lookup_of_unknown_name_is_none() {
    let leaderboard = Leaderboard::default();
    assert_eq!(None, leaderboard.get("General Brasch"));
}

#[test]
fn insert_new_name_appends() {
    let mut leaderboard = Leaderboard::default();
    leaderboard.insert("Super Private", 123);
    assert_eq!(Some(123), leaderboard.get("Super Private"));
    assert_eq!(6, leaderboard.iter().len());
    let last = leaderboard.iter().last().unwrap();
    assert_eq!("Super Private", last.0);
    assert_eq!(123, last.1);
}

#[test]
fn insert_overwrites_unconditionally() {
    let mut leaderboard = Leaderboard::default();
    leaderboard.insert("You", 9000);
    leaderboard.insert("You", 1);
    assert_eq!(Some(1), leaderboard.get("You"));
    assert_eq!(5, leaderboard.iter().len());
}

#[test]
fn sorted_vec_is_non_increasing() {
    let mut leaderboard = Leaderboard::default();
    leaderboard.insert("You", 1000);
    let sorted = leaderboard.sorted_vec();
    assert_eq!(5, sorted.len());
    for window in sorted.windows(2) {
        assert!(window[0].1 >= window[1].1);
    }
    assert_eq!("John Helldiver", sorted[0].0);
    assert_eq!(20000, sorted[0].1);
    assert_eq!("You", sorted[4].0);
    assert_eq!(1000, sorted[4].1);
}

#[test]
fn sorted_vec_keeps_table_order_on_ties() {
    let mut leaderboard = Leaderboard::new();
    leaderboard.insert("First", 10);
    leaderboard.insert("Second", 10);
    leaderboard.insert("Third", 10);
    let sorted = leaderboard.sorted_vec();
    assert_eq!("First", sorted[0].0);
    assert_eq!("Second", sorted[1].0);
    assert_eq!("Third", sorted[2].0);
}
