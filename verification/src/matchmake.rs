use vstd::prelude::*;

use crate::states::AppState;
use crate::text::{decimal, u32_text};

verus! {

/// Players a match holds.
pub const MAX_NUM_PLAYERS: u32 = 30;

/// Progress reports of matchmaking.
#[derive(Debug, Clone, Copy, PartialEq, Eq, Structural)]
pub enum MatchmakeEvent {
    MatchmakingStarted,
    /// the ping currently searched for
    MatchmakingUpdate(u32),
    MatchFound,
    /// total number of players found
    PlayersFoundUpdate(u32),
    LobbyFilled,
    LevelLoaded,
    /// seconds until launch
    Launching(u32),
}

/// The report the stand-in matchmaking server sends on its `counter`-th
/// step.
pub open spec fn fake_server_report(counter: u32) -> MatchmakeEvent {
    if counter <= 1 {
        MatchmakeEvent::MatchmakingUpdate(20)
    } else if counter == 2 {
        MatchmakeEvent::MatchmakingUpdate(32)
    } else if counter == 3 {
        MatchmakeEvent::MatchmakingUpdate(52)
    } else if counter == 4 {
        MatchmakeEvent::MatchFound
    } else if counter == 5 {
        MatchmakeEvent::PlayersFoundUpdate(10)
    } else if counter == 6 {
        MatchmakeEvent::PlayersFoundUpdate(25)
    } else if counter == 7 {
        MatchmakeEvent::PlayersFoundUpdate(29)
    } else if counter == 8 {
        MatchmakeEvent::PlayersFoundUpdate(30)
    } else if counter == 9 {
        MatchmakeEvent::LobbyFilled
    } else if counter == 10 {
        MatchmakeEvent::LevelLoaded
    } else if counter == 11 {
        MatchmakeEvent::Launching(8)
    } else if counter == 12 {
        MatchmakeEvent::Launching(4)
    } else {
        MatchmakeEvent::Launching(0)
    }
}

/// Stand-in for a matchmaking server: it plays back a fixed script of
/// reports, one per step.
#[derive(Debug, Clone, Copy, PartialEq, Eq, Structural)]
pub struct EventCounter(pub u32);

impl EventCounter {
    /// A server at the start of its script.
    pub fn new() -> (c: EventCounter)
        ensures
            c.0 == 0,
    {
        EventCounter(0)
    }

    /// Whether the server has a next step.
    pub fn can_step(&self) -> (r: bool)
        ensures
            r == (self.0 < u32::MAX),
    {
        self.0 < u32::MAX
    }

    /// Sends the next report of the script.
    pub fn step(&mut self) -> (e: MatchmakeEvent)
        requires
            old(self).0 < u32::MAX,
        ensures
            e == fake_server_report(old(self).0),
            final(self).0 == old(self).0 + 1,
    {
        let c = self.0;
        let e = if c <= 1 {
            MatchmakeEvent::MatchmakingUpdate(20)
        } else if c == 2 {
            MatchmakeEvent::MatchmakingUpdate(32)
        } else if c == 3 {
            MatchmakeEvent::MatchmakingUpdate(52)
        } else if c == 4 {
            MatchmakeEvent::MatchFound
        } else if c == 5 {
            MatchmakeEvent::PlayersFoundUpdate(10)
        } else if c == 6 {
            MatchmakeEvent::PlayersFoundUpdate(25)
        } else if c == 7 {
            MatchmakeEvent::PlayersFoundUpdate(29)
        } else if c == 8 {
            MatchmakeEvent::PlayersFoundUpdate(30)
        } else if c == 9 {
            MatchmakeEvent::LobbyFilled
        } else if c == 10 {
            MatchmakeEvent::LevelLoaded
        } else if c == 11 {
            MatchmakeEvent::Launching(8)
        } else if c == 12 {
            MatchmakeEvent::Launching(4)
        } else {
            MatchmakeEvent::Launching(0)
        };
        self.0 = c + 1;
        e
    }
}

/// The message shown for a matchmaking report.
pub open spec fn report_message(e: MatchmakeEvent) -> Seq<char> {
    match e {
        MatchmakeEvent::MatchmakingStarted => "CONNECTING"@,
        MatchmakeEvent::MatchmakingUpdate(ping) => "SEARCHING FOR A MATCH <"@ + decimal(ping as nat)
            + "MS PING"@,
        MatchmakeEvent::MatchFound => "CONNECTING"@,
        MatchmakeEvent::PlayersFoundUpdate(num) => "LOOKING FOR "@ + decimal(
            (MAX_NUM_PLAYERS - num) as nat,
        ) + if MAX_NUM_PLAYERS - num == 1 {
            " MORE PLAYER"@
        } else {
            " MORE PLAYERS"@
        },
        MatchmakeEvent::LobbyFilled => "WAITING. LOADING LEVEL"@,
        MatchmakeEvent::LevelLoaded => "LAUNCHING"@,
        MatchmakeEvent::Launching(countdown) => "LAUNCHING "@ + decimal(countdown as nat),
    }
}

impl MatchmakeEvent {
    /// Whether the report has a message: a players-found report must not
    /// count more players than a match holds.
    pub fn has_message(&self) -> (r: bool)
        ensures
            r == (self matches MatchmakeEvent::PlayersFoundUpdate(num) ==> num <= MAX_NUM_PLAYERS),
    {
        match self {
            MatchmakeEvent::PlayersFoundUpdate(num) => *num <= MAX_NUM_PLAYERS,
            _ => true,
        }
    }

    /// Writes the message shown for this report.
    pub fn message(&self) -> (s: String)
        requires
            self matches MatchmakeEvent::PlayersFoundUpdate(num) ==> num <= MAX_NUM_PLAYERS,
        ensures
            s@ == report_message(*self),
    {
        match self {
            MatchmakeEvent::MatchmakingStarted => String::from_str("CONNECTING"),
            MatchmakeEvent::MatchmakingUpdate(ping) => {
                let mut s = String::from_str("SEARCHING FOR A MATCH <");
                s.append(u32_text(*ping).as_str());
                s.append("MS PING");
                s
            },
            MatchmakeEvent::MatchFound => String::from_str("CONNECTING"),
            MatchmakeEvent::PlayersFoundUpdate(num) => {
                let remaining = MAX_NUM_PLAYERS - *num;
                let mut s = String::from_str("LOOKING FOR ");
                s.append(u32_text(remaining).as_str());
                if remaining == 1 {
                    s.append(" MORE PLAYER");
                } else {
                    s.append(" MORE PLAYERS");
                }
                s
            },
            MatchmakeEvent::LobbyFilled => String::from_str("WAITING. LOADING LEVEL"),
            MatchmakeEvent::LevelLoaded => String::from_str("LAUNCHING"),
            MatchmakeEvent::Launching(countdown) => {
                let mut s = String::from_str("LAUNCHING ");
                s.append(u32_text(*countdown).as_str());
                s
            },
        }
    }
}

/// The state a launch report leads to: the loading screen once the launch
/// countdown is at zero.
pub fn launch_transition(countdown: u32) -> (r: Option<AppState>)
    ensures
        r == (if countdown == 0 { Some(AppState::LoadingScreen) } else { None }),
{
    if countdown == 0 {
        Some(AppState::LoadingScreen)
    } else {
        None
    }
}

/// Law: the stand-in server's script ends in the launch: from its
/// thirteenth step on it reports a launch countdown at zero, and every
/// players-found report it sends fits the match size.
pub proof fn lemma_fake_server_script(counter: u32)
    ensures
        counter >= 13 ==> fake_server_report(counter) == MatchmakeEvent::Launching(0),
        fake_server_report(counter) matches MatchmakeEvent::PlayersFoundUpdate(num) ==> num
            <= MAX_NUM_PLAYERS,
{
}

} // verus!
