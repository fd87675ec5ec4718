use vstd::prelude::*;

verus! {

/// Screens of the mission-objectives menu.
#[derive(Debug, Clone, Copy, PartialEq, Eq, Structural)]
pub enum MissionObjectives {
    Start,
    Missions,
    EditMissions,
    Upgrades,
    LocationObjectives,
    Notes,
}

/// Screens of the deploy menu.
#[derive(Debug, Clone, Copy, PartialEq, Eq, Structural)]
pub enum DeployScreen {
    ChooseLocation,
    ActiveMissions,
    EditMissions,
    ActiveDutyConfirmation,
    EditLoadout,
    MatchMake,
    MatchMakeInProgress,
}

/// Top-level state of the game.
#[derive(Debug, Clone, Copy, PartialEq, Eq, Structural)]
pub enum AppState {
    StartScreen,
    MissionObjectives(MissionObjectives),
    DeployScreen(DeployScreen),
    LoadingScreen,
    Raid,
}

impl AppState {
    /// The game starts on the loading screen.
    pub fn new() -> (s: AppState)
        ensures
            s == AppState::LoadingScreen,
    {
        AppState::LoadingScreen
    }
}

impl MissionObjectives {
    /// The mission-objectives menu opens on its start screen.
    pub fn new() -> (s: MissionObjectives)
        ensures
            s == MissionObjectives::Start,
    {
        MissionObjectives::Start
    }
}

impl DeployScreen {
    /// The deploy menu opens on the location choice.
    pub fn new() -> (s: DeployScreen)
        ensures
            s == DeployScreen::ChooseLocation,
    {
        DeployScreen::ChooseLocation
    }
}

/// The state the loading screen moves on to: the raid.
pub fn after_loading_screen() -> (s: AppState)
    ensures
        s == AppState::Raid,
{
    AppState::Raid
}

/// Sub-state of a raid: playing, or looking into a loot cache or the
/// backpack.
#[derive(Debug, Clone, Copy, PartialEq, Eq, Structural)]
pub enum RaidState {
    Raid,
    AccessLootCache,
    AccessBackpack,
}

/// The raid sub-state after the loot-cache key is pressed in state `s`:
/// playing and looking into the loot cache swap; the backpack screen
/// ignores the key.
pub open spec fn loot_cache_toggled(s: RaidState) -> Option<RaidState> {
    match s {
        RaidState::Raid => Some(RaidState::AccessLootCache),
        RaidState::AccessLootCache => Some(RaidState::Raid),
        RaidState::AccessBackpack => None,
    }
}

/// The raid sub-state after the backpack key is pressed in state `s`:
/// playing and looking into the backpack swap; the loot-cache screen
/// ignores the key.
pub open spec fn backpack_toggled(s: RaidState) -> Option<RaidState> {
    match s {
        RaidState::Raid => Some(RaidState::AccessBackpack),
        RaidState::AccessBackpack => Some(RaidState::Raid),
        RaidState::AccessLootCache => None,
    }
}

impl RaidState {
    /// A raid starts with playing.
    pub fn new() -> (s: RaidState)
        ensures
            s == RaidState::Raid,
    {
        RaidState::Raid
    }

    /// The state to switch to when the loot-cache key is pressed, if any.
    pub fn toggle_loot_cache(&self) -> (r: Option<RaidState>)
        ensures
            r == loot_cache_toggled(*self),
    {
        match self {
            RaidState::Raid => Some(RaidState::AccessLootCache),
            RaidState::AccessLootCache => Some(RaidState::Raid),
            RaidState::AccessBackpack => None,
        }
    }

    /// The state to switch to when the backpack key is pressed, if any.
    pub fn toggle_backpack(&self) -> (r: Option<RaidState>)
        ensures
            r == backpack_toggled(*self),
    {
        match self {
            RaidState::Raid => Some(RaidState::AccessBackpack),
            RaidState::AccessBackpack => Some(RaidState::Raid),
            RaidState::AccessLootCache => None,
        }
    }

    /// The state to switch to when an operator accesses a loot cache: the
    /// loot-cache screen opens while playing, and nothing changes otherwise.
    pub fn on_loot_cache_accessed(&self) -> (r: Option<RaidState>)
        ensures
            r == (if *self == RaidState::Raid { Some(RaidState::AccessLootCache) } else { None }),
    {
        match self {
            RaidState::Raid => Some(RaidState::AccessLootCache),
            _ => None,
        }
    }
}

/// Law: pressing a screen key twice returns to the state it started from,
/// whenever the first press changed the state.
pub proof fn lemma_toggle_twice(s: RaidState)
    ensures
        loot_cache_toggled(s) matches Some(t) ==> loot_cache_toggled(t) == Some(s),
        backpack_toggled(s) matches Some(t) ==> backpack_toggled(t) == Some(s),
{
}

/// Seconds-long countdown before the operators may move at the start of a
/// raid.
pub const INFIL_COUNTDOWN_START: u32 = 31;

/// Countdown until the lift off at the start of a raid.
pub const LIFTOFF_COUNTDOWN_START: u32 = 34;

/// Countdown at the start of a raid.
#[derive(Debug, Clone, Copy, PartialEq, Eq, Structural)]
pub struct InfilCountdown(pub u32);

/// Countdown until the lift off.
#[derive(Debug, Clone, Copy, PartialEq, Eq, Structural)]
pub struct LiftoffCountdown(pub u32);

/// One fixed step of a countdown at `c`: the new value and the value
/// reported, if any.
pub open spec fn infil_tick(c: u32) -> (u32, Option<u32>) {
    if c > 0 {
        ((c - 1) as u32, Some((c - 1) as u32))
    } else {
        (0, None)
    }
}

/// A countdown that starts at `c` after `k` steps.
pub open spec fn infil_after(c: u32, k: nat) -> u32
    decreases k,
{
    if k == 0 {
        c
    } else {
        infil_tick(infil_after(c, (k - 1) as nat)).0
    }
}

impl InfilCountdown {
    /// The countdown a raid starts with.
    pub fn new() -> (c: InfilCountdown)
        ensures
            c.0 == INFIL_COUNTDOWN_START,
    {
        InfilCountdown(INFIL_COUNTDOWN_START)
    }

    /// One fixed step of the countdown: a running countdown drops by one and
    /// reports its new value; a countdown at zero stays there silently.
    pub fn tick(&mut self) -> (reported: Option<u32>)
        ensures
            (final(self).0, reported) == infil_tick(old(self).0),
    {
        if self.0 > 0 {
            self.0 = self.0 - 1;
            Some(self.0)
        } else {
            None
        }
    }
}

impl LiftoffCountdown {
    /// The lift-off countdown a raid starts with.
    pub fn new() -> (c: LiftoffCountdown)
        ensures
            c.0 == LIFTOFF_COUNTDOWN_START,
    {
        LiftoffCountdown(LIFTOFF_COUNTDOWN_START)
    }
}

/// Whether a reported countdown value completes the infil: it does when it
/// reaches zero.
pub fn infil_complete(reported: u32) -> (r: bool)
    ensures
        r == (reported == 0),
{
    reported == 0
}

/// Law: a countdown that starts at `start` counts down by one per step
/// until it rests at zero, and reports zero (completing the infil) on exactly
/// one step: the `start`-th.
pub proof fn lemma_infil_countdown(start: u32, k: nat)
    ensures
        infil_after(start, k) == if k >= start { 0 } else { start - k },
        start > 0 ==> (infil_tick(infil_after(start, k)).1 == Some(0u32) <==> k + 1 == start),
    decreases k,
{
    if k > 0 {
        lemma_infil_countdown(start, (k - 1) as nat);
    }
}

} // verus!
