//! Application-level state outside a single session: the current screen,
//! the player's persistent data, the leaderboard and the upgrade shop.
//!
//! Menu navigation, rendering and persistence live with the terminal layer;
//! the purchase rule is verified here.

use vstd::prelude::*;

use crate::leaderboard::Leaderboard;
use crate::player::PlayerData;
use crate::upgrades::{UpgradeItem, Upgrades};

verus! {

/// Which screen the application is showing.
#[derive(Debug, Clone, Copy, PartialEq, Eq, Structural)]
pub enum Screen {
    Main,
    Game,
    Leaderboard,
    Upgrades,
    DeleteData,
}

impl Screen {
    /// Switches to the main menu.
    pub fn set_main(&mut self)
        ensures
            *final(self) == Screen::Main,
    {
        *self = Screen::Main;
    }

    /// Switches to the game screen.
    pub fn set_game(&mut self)
        ensures
            *final(self) == Screen::Game,
    {
        *self = Screen::Game;
    }

    /// Switches to the leaderboard screen.
    pub fn set_leaderboard(&mut self)
        ensures
            *final(self) == Screen::Leaderboard,
    {
        *self = Screen::Leaderboard;
    }

    /// Switches to the upgrade shop.
    pub fn set_upgrades(&mut self)
        ensures
            *final(self) == Screen::Upgrades,
    {
        *self = Screen::Upgrades;
    }

    /// Switches to the data-deletion screen.
    pub fn set_delete_data(&mut self)
        ensures
            *final(self) == Screen::DeleteData,
    {
        *self = Screen::DeleteData;
    }
}

/// The application: screen selection plus the persistent collaborators.
pub struct App {
    pub screen: Screen,
    pub player: PlayerData,
    pub leaderboard: Leaderboard,
    pub upgrades: Upgrades,
    pub is_running: bool,
}

impl App {
    /// A running application on the main screen, over already-loaded data.
    pub fn new(player: PlayerData, leaderboard: Leaderboard, upgrades: Upgrades) -> (app: App)
        ensures
            app.screen == Screen::Main,
            app.player == player,
            app.leaderboard == leaderboard,
            app.upgrades == upgrades,
            app.is_running,
    {
        App { screen: Screen::Main, player, leaderboard, upgrades, is_running: true }
    }

    /// Tries to buy the upgrade at `idx`: an already-bought item is refused;
    /// otherwise the purchase succeeds exactly when the wallet covers the
    /// price, in which case the price is debited and the item marked bought.
    /// Nothing else changes either way.
    pub fn purchase_upgrade(&mut self, idx: usize) -> (purchased: bool)
        requires
            idx < old(self).upgrades.items@.len(),
        ensures
            final(self).screen == old(self).screen,
            final(self).leaderboard == old(self).leaderboard,
            final(self).is_running == old(self).is_running,
            old(self).upgrades.items@[idx as int].purchased ==> !purchased && *final(self) == *old(self),
            !old(self).upgrades.items@[idx as int].purchased ==> {
                &&& purchased == (old(self).player.wallet
                    >= old(self).upgrades.items@[idx as int].price)
                &&& (purchased ==> final(self).player == (PlayerData {
                    wallet: (old(self).player.wallet
                        - old(self).upgrades.items@[idx as int].price) as usize,
                    ..old(self).player
                }) && final(self).upgrades.items@ == old(self).upgrades.items@.update(
                    idx as int,
                    (UpgradeItem { purchased: true, ..old(self).upgrades.items@[idx as int] }),
                ))
                &&& (!purchased ==> *final(self) == *old(self))
            },
    {
        if self.upgrades.item(idx).is_purchased() {
            return false;
        }
        let price = self.upgrades.item(idx).price();
        if self.player.wallet() >= price {
            self.player.write_off_from_wallet(price);
            self.upgrades.mark_purchased(idx);
            true
        } else {
            false
        }
    }
}

} // verus!
