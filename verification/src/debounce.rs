//! The failure debounce: absorbs a configurable number of failure ticks
//! before committing a reset, so a single mistaken keystroke does not
//! instantly wipe the player's progress.

use vstd::prelude::*;

verus! {

/// Debounce phase reported by each ping: not yet counting, counting
/// ("freezed"), or fired for exactly one call.
#[derive(Debug, Default, Clone, Copy, PartialEq, Eq, Structural)]
pub enum FreezeState {
    #[default]
    NotActivated,
    Freezed,
    Completed,
}

/// Counts failure ticks up to a threshold before firing once.
pub struct InputFreeze {
    pub counter: u32,
    pub frames: u32,
    pub state: FreezeState,
}

/// The debounce after one ping, together with the phase that the ping
/// reports: from rest it starts counting; while counting below the threshold
/// it keeps counting; at the threshold it fires once and returns to rest.
pub open spec fn spec_ping(f: InputFreeze) -> (InputFreeze, FreezeState) {
    match f.state {
        FreezeState::NotActivated => (
            InputFreeze {
                counter: (f.counter + 1) as u32,
                frames: f.frames,
                state: FreezeState::Freezed,
            },
            FreezeState::Freezed,
        ),
        FreezeState::Freezed => if f.counter < f.frames {
            (
                InputFreeze {
                    counter: (f.counter + 1) as u32,
                    frames: f.frames,
                    state: FreezeState::Freezed,
                },
                FreezeState::Freezed,
            )
        } else {
            (
                InputFreeze { counter: 0, frames: f.frames, state: FreezeState::NotActivated },
                FreezeState::Completed,
            )
        },
        FreezeState::Completed => (f, FreezeState::Completed),
    }
}

/// The debounce after `n` pings in a row.
pub open spec fn spec_pings(f: InputFreeze, n: nat) -> InputFreeze
    decreases n,
{
    if n == 0 {
        f
    } else {
        spec_ping(spec_pings(f, (n - 1) as nat)).0
    }
}

impl InputFreeze {
    /// Structural invariant: the counter never exceeds the threshold, the
    /// fired phase is never stored, and at rest the counter is zero.
    pub open spec fn wf(self) -> bool {
        &&& self.frames >= 1
        &&& self.state != FreezeState::Completed
        &&& (self.state == FreezeState::NotActivated ==> self.counter == 0)
        &&& (self.state == FreezeState::Freezed ==> 1 <= self.counter <= self.frames)
    }

    /// A fresh debounce that fires after `frames` ticks of counting.
    pub fn new(frames: u32) -> (f: InputFreeze)
        requires
            frames >= 1,
        ensures
            f.wf(),
            f.counter == 0,
            f.frames == frames,
            f.state == FreezeState::NotActivated,
    {
        InputFreeze { counter: 0, frames, state: FreezeState::NotActivated }
    }

    /// Forces the debounce back to rest with the counter cleared.
    pub fn reset(&mut self)
        ensures
            old(self).frames >= 1 ==> final(self).wf(),
            final(self).counter == 0,
            final(self).frames == old(self).frames,
            final(self).state == FreezeState::NotActivated,
    {
        self.state = FreezeState::NotActivated;
        self.counter = 0;
    }

    /// Registers one failure tick and reports the debounce phase; the
    /// `Completed` phase is reported for exactly the tick on which the
    /// threshold is crossed, and the debounce then behaves as freshly reset.
    pub fn ping(&mut self) -> (r: FreezeState)
        requires
            old(self).wf(),
        ensures
            final(self).wf(),
            (*final(self), r) == spec_ping(*old(self)),
    {
        match self.state {
            FreezeState::NotActivated => {
                self.counter = self.counter + 1;
                self.state = FreezeState::Freezed;
            },
            FreezeState::Freezed => {
                if self.counter < self.frames {
                    self.counter = self.counter + 1;
                } else {
                    self.counter = 0;
                    self.state = FreezeState::NotActivated;
                    return FreezeState::Completed;
                }
            },
            FreezeState::Completed => {},
        }

        self.state
    }
}

/// From rest, each of the first `threshold` pings reports `Freezed` and
/// leaves the debounce counting with the counter equal to the number of
/// pings so far.
pub proof fn lemma_debounce_counts(f: InputFreeze, k: nat)
    requires
        f.wf(),
        f.state == FreezeState::NotActivated,
        1 <= k <= f.frames,
    ensures
        spec_pings(f, k) == (InputFreeze {
            counter: k as u32,
            frames: f.frames,
            state: FreezeState::Freezed,
        }),
        spec_ping(spec_pings(f, (k - 1) as nat)).1 == FreezeState::Freezed,
    decreases k,
{
    if k > 1 {
        lemma_debounce_counts(f, (k - 1) as nat);
    }
}

/// From rest with threshold `T`, pings 1 through `T` all report `Freezed`,
/// ping `T + 1` reports `Completed` for exactly that one call, and the
/// debounce is then back in its freshly reset state.
pub proof fn lemma_debounce_fires_once(f: InputFreeze)
    requires
        f.wf(),
        f.state == FreezeState::NotActivated,
    ensures
        forall|j: nat|
            j < f.frames ==> spec_ping(#[trigger] spec_pings(f, j)).1 == FreezeState::Freezed,
        spec_ping(spec_pings(f, f.frames as nat)).1 == FreezeState::Completed,
        spec_pings(f, (f.frames + 1) as nat) == (InputFreeze {
            counter: 0,
            frames: f.frames,
            state: FreezeState::NotActivated,
        }),
{
    assert forall|j: nat| j < f.frames implies spec_ping(#[trigger] spec_pings(f, j)).1
        == FreezeState::Freezed by {
        lemma_debounce_counts(f, j + 1);
    }
    lemma_debounce_counts(f, f.frames as nat);
}

} // verus!
