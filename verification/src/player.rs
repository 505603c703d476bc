//! Per-player persistent values that feed the session: the wallet of earned
//! points and the tunable reward and penalty durations.
//!
//! Durations are plain millisecond counts; the storage layer owns how they
//! are persisted.

use vstd::prelude::*;

verus! {

/// The player's persistent data.
pub struct PlayerData {
    pub wallet: usize,
    pub penalty_debuff_millis: u64,
    pub time_reward_millis: u64,
    pub bonus_score: usize,
}

impl PlayerData {
    /// Current wallet balance.
    pub fn wallet(&self) -> (r: usize)
        ensures
            r == self.wallet,
    {
        self.wallet
    }

    /// Credits the wallet.
    pub fn add_to_wallet(&mut self, value: usize)
        requires
            old(self).wallet + value <= usize::MAX,
        ensures
            *final(self) == (PlayerData { wallet: (old(self).wallet + value) as usize, ..*old(self) }),
    {
        self.wallet = self.wallet + value;
    }

    /// Debits the wallet, stopping at zero.
    pub fn write_off_from_wallet(&mut self, value: usize)
        ensures
            final(self).wallet == if old(self).wallet >= value {
                old(self).wallet - value
            } else {
                0
            },
            final(self).penalty_debuff_millis == old(self).penalty_debuff_millis,
            final(self).time_reward_millis == old(self).time_reward_millis,
            final(self).bonus_score == old(self).bonus_score,
    {
        if self.wallet >= value {
            self.wallet = self.wallet - value;
        } else {
            self.wallet = 0;
        }
    }

    /// Milliseconds the timer is reduced by when a failed strategem is
    /// committed.
    pub fn penalty_debuff_dur(&self) -> (r: u64)
        ensures
            r == self.penalty_debuff_millis,
    {
        self.penalty_debuff_millis
    }

    /// Sets the failure penalty duration.
    pub fn set_penalty_debuff(&mut self, millis: u64)
        ensures
            *final(self) == (PlayerData { penalty_debuff_millis: millis, ..*old(self) }),
    {
        self.penalty_debuff_millis = millis;
    }

    /// Extra milliseconds added to the completion reward.
    pub fn time_reward_dur(&self) -> (r: u64)
        ensures
            r == self.time_reward_millis,
    {
        self.time_reward_millis
    }

    /// Sets the extra completion reward duration.
    pub fn set_time_reward(&mut self, millis: u64)
        ensures
            *final(self) == (PlayerData { time_reward_millis: millis, ..*old(self) }),
    {
        self.time_reward_millis = millis;
    }

    /// Flat bonus added to every completion's score value.
    pub fn bonus_score(&self) -> (r: usize)
        ensures
            r == self.bonus_score,
    {
        self.bonus_score
    }
}

impl Default for PlayerData {
    /// A fresh player: empty wallet, one-second failure penalty, no extra
    /// reward time and no score bonus.
    fn default() -> (r: PlayerData)
        ensures
            r.wallet == 0,
            r.penalty_debuff_millis == 1000,
            r.time_reward_millis == 0,
            r.bonus_score == 0,
    {
        PlayerData { wallet: 0, penalty_debuff_millis: 1000, time_reward_millis: 0, bonus_score: 0 }
    }
}

} // verus!
