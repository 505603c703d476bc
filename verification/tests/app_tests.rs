use strategem_hero::app::{App, Screen};
use strategem_hero::leaderboard::Leaderboard;
use strategem_hero::menu::Menu;
use strategem_hero::player::PlayerData;
use strategem_hero::upgrades::{UpgradeItem, Upgrades};

fn app_with_wallet(wallet: usize) -> App {
    let mut player = PlayerData::default();
    player.add_to_wallet(wallet);
    App::new(player, Leaderboard::default(), Upgrades::default())
}

#[test]
fn screen_setters_switch_screens() {
    let mut screen = Screen::Main;
    screen.set_game();
    assert_eq!(Screen::Game, screen);
    screen.set_leaderboard();
    assert_eq!(Screen::Leaderboard, screen);
    screen.set_upgrades();
    assert_eq!(Screen::Upgrades, screen);
    screen.set_delete_data();
    assert_eq!(Screen::DeleteData, screen);
    screen.set_main();
    assert_eq!(Screen::Main, screen);
}

#[test]
fn purchase_succeeds_when_wallet_covers_price() {
    let mut app = app_with_wallet(5000);
    assert!(app.purchase_upgrade(0));
    assert_eq!(2500, app.player.wallet());
    assert!(app.upgrades.item(0).is_purchased());
}

#[test]
fn purchase_of_bought_item_is_refused() {
    let mut app = app_with_wallet(10_000);
    assert!(app.purchase_upgrade(1));
    assert!(!app.purchase_upgrade(1));
    assert_eq!(7000, app.player.wallet());
}

#[test]
fn purchase_fails_on_short_wallet() {
    let mut app = app_with_wallet(100);
    assert!(!app.purchase_upgrade(2));
    assert_eq!(100, app.player.wallet());
    assert!(!app.upgrades.item(2).is_purchased());
}

#[test]
fn default_upgrades_catalog() {
    let upgrades = Upgrades::default();
    assert_eq!(3, upgrades.len());
    assert_eq!(2500, upgrades.item(0).price());
    assert_eq!(3000, upgrades.item(1).price());
    assert_eq!(5000, upgrades.item(2).price());
    for i in 0..3 {
        assert!(!upgrades.item(i).is_purchased());
    }
}

#[test]
fn upgrade_item_starts_unpurchased() {
    let mut item = UpgradeItem::new("Stim Booster", "Example upgrade", 42);
    assert_eq!(42, item.price());
    assert!(!item.is_purchased());
    item.set_purchased();
    assert!(item.is_purchased());
}

#[test]
fn player_data_wallet_and_settings() {
    let mut player = PlayerData::default();
    assert_eq!(0, player.wallet());
    assert_eq!(1000, player.penalty_debuff_dur());
    assert_eq!(0, player.time_reward_dur());
    assert_eq!(0, player.bonus_score());
    player.add_to_wallet(300);
    player.write_off_from_wallet(100);
    assert_eq!(200, player.wallet());
    player.write_off_from_wallet(1000);
    assert_eq!(0, player.wallet());
    player.set_penalty_debuff(500);
    player.set_time_reward(500);
    assert_eq!(500, player.penalty_debuff_dur());
    assert_eq!(500, player.time_reward_dur());
}

#[test]
fn menu_keeps_items_in_insertion_order() {
    let menu: Menu<String> = Menu::builder()
        .add_item(String::from("Start Game"))
        .add_item(String::from("Leaderboard"))
        .add_item(String::from("Quit"))
        .build();
    assert_eq!(3, menu.len());
    assert_eq!("Start Game", menu.item(0));
    assert_eq!("Leaderboard", menu.item(1));
    assert_eq!("Quit", menu.item(2));
}
