use dmz::matchmake::{launch_transition, EventCounter, MatchmakeEvent};
use dmz::states::AppState;

#[test]
fn fake_server_plays_its_script() {
    let mut server = EventCounter::new();
    let mut reports = Vec::new();
    for _ in 0..15 {
        reports.push(server.step());
    }
    assert_eq!(
        reports,
        vec![
            MatchmakeEvent::MatchmakingUpdate(20),
            MatchmakeEvent::MatchmakingUpdate(20),
            MatchmakeEvent::MatchmakingUpdate(32),
            MatchmakeEvent::MatchmakingUpdate(52),
            MatchmakeEvent::MatchFound,
            MatchmakeEvent::PlayersFoundUpdate(10),
            MatchmakeEvent::PlayersFoundUpdate(25),
            MatchmakeEvent::PlayersFoundUpdate(29),
            MatchmakeEvent::PlayersFoundUpdate(30),
            MatchmakeEvent::LobbyFilled,
            MatchmakeEvent::LevelLoaded,
            MatchmakeEvent::Launching(8),
            MatchmakeEvent::Launching(4),
            MatchmakeEvent::Launching(0),
            MatchmakeEvent::Launching(0),
        ]
    );
    assert_eq!(server.0, 15);
}

#[test]
fn matchmaking_messages() {
    assert_eq!(MatchmakeEvent::MatchmakingStarted.message(), "CONNECTING");
    assert_eq!(
        MatchmakeEvent::MatchmakingUpdate(20).message(),
        "SEARCHING FOR A MATCH <20MS PING"
    );
    assert_eq!(MatchmakeEvent::MatchFound.message(), "CONNECTING");
    assert_eq!(MatchmakeEvent::PlayersFoundUpdate(10).message(), "LOOKING FOR 20 MORE PLAYERS");
    assert_eq!(MatchmakeEvent::PlayersFoundUpdate(29).message(), "LOOKING FOR 1 MORE PLAYER");
    assert_eq!(MatchmakeEvent::PlayersFoundUpdate(30).message(), "LOOKING FOR 0 MORE PLAYERS");
    assert_eq!(MatchmakeEvent::LobbyFilled.message(), "WAITING. LOADING LEVEL");
    assert_eq!(MatchmakeEvent::LevelLoaded.message(), "LAUNCHING");
    assert_eq!(MatchmakeEvent::Launching(8).message(), "LAUNCHING 8");
}

#[test]
fn launch_at_zero_goes_to_loading_screen() {
    assert_eq!(launch_transition(0), Some(AppState::LoadingScreen));
    assert_eq!(launch_transition(4), None);
}
