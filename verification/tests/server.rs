use maze_game::server::action::ActionFunction;
use maze_game::server::challenge::{
    check_all_condition_challenge, check_answer_is_correct, check_is_challenge_available,
    check_is_challenge_position, ChallengePosition, CHALLENGE_MODULO,
};
use maze_game::server::command::CommandFunction;
use maze_game::server::keys::{spare_key_text, SPARE_KEYS};
use maze_game::server::maze::{check_movement_possible, is_open_cell, Point, HEIGHT, MAZE, WIDTH};
use maze_game::server::message::{action_result, register_team_result, subscribe_player_result};
use maze_game::server::player::Player;
use maze_game::server::session::{handle_command, SessionState};
use maze_game::server::team::{TeamCommand, TeamManager, KEY_DRAWS, MAX_PLAYER};
use maze_game::wire::base64::decode_b64;
use maze_game::wire::messages::{
    Action, ActionError, Challenge, Command, JsonWrapper, RegisterTeamResult, RegistrationError,
    RelativeDirection, SubscribePlayerResult,
};
use maze_game::wire::radar::decode_radar_view_binary;

fn token_of(reply: JsonWrapper) -> String {
    match reply {
        JsonWrapper::RegisterTeamResult(RegisterTeamResult::Accepted {
            expected_players,
            registration_token,
        }) => {
            assert_eq!(expected_players, 3);
            registration_token
        }
        other => panic!("no token in {other:?}"),
    }
}

fn subscribe(manager: &mut TeamManager, name: &str, token: &str) -> JsonWrapper {
    TeamCommand::process(
        TeamCommand::SubscribePlayer {
            name: name.to_string(),
            registration_token: token.to_string(),
        },
        manager,
    )
}

#[test]
fn registration_gives_a_token() {
    let mut manager = TeamManager::new();
    let mut player = Player::new("Player1".to_string());
    let mut challenge = ChallengePosition::new(Point { x: 3, y: 5 });
    let reply = Command::process(
        Command::RegisterTeam { name: "rust_warriors".to_string() },
        &mut manager,
        &mut player,
        &mut challenge,
    );
    let token = token_of(reply);
    assert_eq!(token.len(), 10);
    assert!(token.chars().all(|c| c.is_ascii_alphanumeric()));
    assert_eq!(manager.team_count(), 1);
    assert_eq!(manager.player_count(&token), Some(0));
    assert_eq!(MAX_PLAYER, 3);
}

#[test]
fn subscription_cap() {
    let mut manager = TeamManager::new();
    let token = token_of(TeamCommand::process(
        TeamCommand::Create("rust_warriors".to_string()),
        &mut manager,
    ));
    for name in ["player1", "player2", "player3"] {
        assert_eq!(
            subscribe(&mut manager, name, &token),
            JsonWrapper::SubscribePlayerResult(SubscribePlayerResult::Accepted)
        );
    }
    assert_eq!(manager.player_count(&token), Some(3));
    assert_eq!(
        subscribe(&mut manager, "player4", &token),
        JsonWrapper::SubscribePlayerResult(SubscribePlayerResult::Refused(
            RegistrationError::TooManyPlayers
        ))
    );
    assert_eq!(
        subscribe(&mut manager, "player5", &token),
        JsonWrapper::SubscribePlayerResult(SubscribePlayerResult::Refused(
            RegistrationError::TooManyPlayers
        ))
    );
    assert_eq!(manager.player_count(&token), Some(3));
}

#[test]
fn team_names_are_taken_once() {
    let mut manager = TeamManager::new();
    let first = manager.create_team(&"blue".to_string()).unwrap();
    assert_eq!(manager.create_team(&"blue".to_string()), Err(RegistrationError::AlreadyRegistered));
    let second = manager.create_team(&"red".to_string()).unwrap();
    assert_ne!(first, second);
    assert_eq!(manager.team_count(), 2);
    assert_eq!(
        TeamCommand::process(TeamCommand::Create("red".to_string()), &mut manager),
        JsonWrapper::RegisterTeamResult(RegisterTeamResult::Refused(
            RegistrationError::AlreadyRegistered
        ))
    );
    assert!(KEY_DRAWS >= 1);
}

#[test]
fn teams_under_a_given_key() {
    let mut manager = TeamManager::new();
    let key = "abcdefghij".to_string();
    assert_eq!(manager.create_team_with_key(&"blue".to_string(), key.clone()), Ok(key.clone()));
    assert_eq!(
        manager.create_team_with_key(&"blue".to_string(), "0123456789".to_string()),
        Err(RegistrationError::AlreadyRegistered)
    );
    assert_eq!(
        manager.create_team_with_key(&"red".to_string(), key.clone()),
        Err(RegistrationError::InvalidRegistrationToken)
    );
    assert_eq!(
        manager.create_team_with_key(&"red".to_string(), "short".to_string()),
        Err(RegistrationError::InvalidRegistrationToken)
    );
    assert_eq!(
        manager.create_team_with_key(&"red".to_string(), "abcdefghi!".to_string()),
        Err(RegistrationError::InvalidRegistrationToken)
    );
    assert_eq!(manager.team_count(), 1);
    assert_eq!(
        manager.create_team_with_key(&"red".to_string(), "ABCDEFGHIJ".to_string()),
        Ok("ABCDEFGHIJ".to_string())
    );
    assert_eq!(manager.player_count(&key), Some(0));
    assert_eq!(manager.player_count(&"nobodyhere".to_string()), None);
}

#[test]
fn players_join_by_token() {
    let mut manager = TeamManager::new();
    let blue = manager.create_team(&"blue".to_string()).unwrap();
    let red = manager.create_team(&"red".to_string()).unwrap();
    assert_eq!(
        manager.register_player("nosuchtoken".to_string(), "ann".to_string()).unwrap_err(),
        RegistrationError::InvalidRegistrationToken
    );
    assert_eq!(
        manager.register_player(blue.clone(), "".to_string()).unwrap_err(),
        RegistrationError::InvalidName
    );
    assert_eq!(
        manager.register_player("".to_string(), "".to_string()).unwrap_err(),
        RegistrationError::InvalidRegistrationToken
    );
    let ann = manager.register_player(blue.clone(), "ann".to_string()).unwrap();
    assert_eq!(ann.get_name(), "ann");
    assert_eq!(ann.get_position(), Point { x: 3, y: 3 });
    assert!(!ann.get_is_challenge_actif());
    assert_eq!(manager.player_count(&blue), Some(1));
    assert_eq!(manager.player_count(&red), Some(0));
    manager.register_player(blue.clone(), "ann".to_string()).unwrap();
    manager.register_player(blue.clone(), "bob".to_string()).unwrap();
    assert_eq!(
        manager.register_player(blue.clone(), "".to_string()).unwrap_err(),
        RegistrationError::TooManyPlayers
    );
    assert_eq!(manager.player_count(&blue), Some(3));
    assert!(manager.register_player(red, "cid".to_string()).is_ok());
}

#[test]
fn the_maze_is_closed_all_around() {
    assert_eq!((WIDTH, HEIGHT), (7, 7));
    for i in 0..7 {
        for glyph in [MAZE[0][i], MAZE[6][i], MAZE[i][0], MAZE[i][6]] {
            assert!(glyph == '•' || glyph == '-' || glyph == '|');
        }
    }
    assert_eq!(MAZE[5][5], '*');
    assert_eq!(MAZE[3][3], ' ');
}

#[test]
fn wall_rejection() {
    let mut player = Player::new("Player1".to_string());
    player.set_position(Point { x: 1, y: 1 });
    let mut challenge = ChallengePosition::new(Point { x: 3, y: 5 });
    let reply = Action::process(
        Action::MoveTo(RelativeDirection::Front),
        &mut player,
        &mut challenge,
    );
    assert_eq!(reply, JsonWrapper::ActionError(ActionError::CannotPassThroughWall));
    assert_eq!(player.get_position(), Point { x: 1, y: 1 });
}

#[test]
fn moves_from_the_start() {
    let player = Player::new("Player1".to_string());
    assert_eq!(
        check_movement_possible(RelativeDirection::Front, &player),
        Ok(Point { x: 3, y: 1 })
    );
    assert_eq!(
        check_movement_possible(RelativeDirection::Right, &player),
        Err(ActionError::CannotPassThroughWall)
    );
    assert_eq!(check_movement_possible(RelativeDirection::Back, &player), Ok(Point { x: 3, y: 5 }));
    assert_eq!(
        check_movement_possible(RelativeDirection::Left, &player),
        Err(ActionError::CannotPassThroughWall)
    );
}

#[test]
fn moves_keep_to_the_cells() {
    let directions = [
        RelativeDirection::Front,
        RelativeDirection::Right,
        RelativeDirection::Back,
        RelativeDirection::Left,
    ];
    for x in [1, 3, 5] {
        for y in [1, 3, 5] {
            let mut player = Player::new("walker".to_string());
            player.set_position(Point { x, y });
            for direction in directions {
                if let Ok(next) = check_movement_possible(direction, &player) {
                    assert!([1, 3, 5].contains(&next.x) && [1, 3, 5].contains(&next.y));
                    assert_eq!((next.x - x).abs() + (next.y - y).abs(), 2);
                }
            }
        }
    }
}

#[test]
fn radar_of_the_server() {
    let mut player = Player::new("Player1".to_string());
    assert_eq!(player.get_radar_view(), "QLwQLQQwaaaaaaG");
    player.set_position(Point { x: 1, y: 1 });
    assert_eq!(player.get_radar_view(), "aiPrafIO//8adWa");
    player.set_position(Point { x: 5, y: 5 });
    assert_eq!(player.get_radar_view(), "rAiakIuaaa/4/W8");

    player.set_position(Point { x: 3, y: 3 });
    let view = decode_radar_view_binary(decode_b64(&player.get_radar_view()).unwrap()).unwrap();
    for row in 0..7 {
        for col in 0..7 {
            if row % 2 == 1 || col % 2 == 1 {
                let expected = if MAZE[row][col] == '*' { 'G' } else { MAZE[row][col] };
                assert_eq!(view[row][col], expected, "tile {row} {col}");
            }
        }
    }
    assert_eq!([view[0][0], view[0][2], view[0][4], view[0][6]], ['•', '•', '•', '•']);
    assert_eq!([view[2][0], view[2][2], view[2][4], view[2][6]], ['•', ' ', ' ', '•']);
    assert_eq!([view[4][0], view[4][2], view[4][4], view[4][6]], ['•', ' ', ' ', '•']);
    assert_eq!([view[6][0], view[6][2], view[6][4], view[6][6]], ['•', '•', '•', '•']);
}

#[test]
fn challenge_cycle() {
    let mut player = Player::new("Player1".to_string());
    let mut challenge = ChallengePosition::new(Point { x: 3, y: 5 });
    let reply = Action::process(Action::MoveTo(RelativeDirection::Back), &mut player, &mut challenge);
    assert_eq!(reply, JsonWrapper::Challenge(Challenge::SecretSumModulo(10)));
    assert_eq!(player.get_position(), Point { x: 3, y: 5 });
    assert!(player.get_is_challenge_actif());

    let reply = Action::process(
        Action::SolveChallenge { answer: "0".to_string() },
        &mut player,
        &mut challenge,
    );
    assert_eq!(reply, JsonWrapper::RadarView("vQKcQPyaaaca/W8".to_string()));
    assert!(!player.get_is_challenge_actif());
    assert!(challenge.get_challenge_statut());

    let reply = Action::process(Action::MoveTo(RelativeDirection::Front), &mut player, &mut challenge);
    assert_eq!(reply, JsonWrapper::RadarView("QLwQLQQwaaaaaaG".to_string()));
    let reply = Action::process(Action::MoveTo(RelativeDirection::Back), &mut player, &mut challenge);
    assert_eq!(reply, JsonWrapper::RadarView("vQKcQPyaaaca/W8".to_string()));
    assert!(!player.get_is_challenge_actif());
}

#[test]
fn a_challenge_blocks_every_move() {
    let mut challenge = ChallengePosition::new(Point { x: 3, y: 5 });
    for direction in [
        RelativeDirection::Front,
        RelativeDirection::Right,
        RelativeDirection::Back,
        RelativeDirection::Left,
    ] {
        let mut player = Player::new("Player1".to_string());
        player.set_is_challenge_actif(true);
        let reply = Action::process_direction(direction, &mut player, &challenge);
        assert_eq!(reply, JsonWrapper::ActionError(ActionError::SolveChallengeFirst));
        assert_eq!(player.get_position(), Point { x: 3, y: 3 });
        assert!(player.get_is_challenge_actif());
        let reply = Action::process(Action::MoveTo(direction), &mut player, &mut challenge);
        assert_eq!(reply, JsonWrapper::ActionError(ActionError::SolveChallengeFirst));
    }
}

#[test]
fn answers_to_the_challenge() {
    let mut player = Player::new("Player1".to_string());
    let mut challenge = ChallengePosition::new(Point { x: 3, y: 5 });
    assert_eq!(
        Action::process_challenge("0".to_string(), &mut player, &mut challenge),
        JsonWrapper::ActionError(ActionError::NoRunningChallenge)
    );
    player.set_is_challenge_actif(true);
    assert_eq!(
        Action::process_challenge("1".to_string(), &mut player, &mut challenge),
        JsonWrapper::ActionError(ActionError::InvalidChallengeSolution)
    );
    assert_eq!(
        Action::process_challenge("00".to_string(), &mut player, &mut challenge),
        JsonWrapper::ActionError(ActionError::InvalidChallengeSolution)
    );
    assert!(player.get_is_challenge_actif());
    assert!(!challenge.get_challenge_statut());
    assert_eq!(
        Action::process_challenge("0".to_string(), &mut player, &mut challenge),
        JsonWrapper::RadarView("QLwQLQQwaaaaaaG".to_string())
    );
    assert!(!player.get_is_challenge_actif());
    assert!(challenge.get_challenge_statut());
}

#[test]
fn challenge_checks() {
    let mut player = Player::new("Player1".to_string());
    let mut challenge = ChallengePosition::new(Point { x: 3, y: 5 });
    assert_eq!(challenge.get_challenge_answer(), "0");
    assert_eq!(*challenge.get_challenge_position(), Point { x: 3, y: 5 });
    assert!(!challenge.get_challenge_statut());
    assert_eq!(CHALLENGE_MODULO, 10);
    assert!(!check_is_challenge_available(&player));
    assert!(check_answer_is_correct(&challenge, "0"));
    assert!(!check_answer_is_correct(&challenge, ""));
    assert_eq!(
        check_all_condition_challenge("0".to_string(), &challenge, &player),
        Err(ActionError::NoRunningChallenge)
    );
    player.set_is_challenge_actif(true);
    assert!(check_is_challenge_available(&player));
    assert_eq!(
        check_all_condition_challenge("7".to_string(), &challenge, &player),
        Err(ActionError::InvalidChallengeSolution)
    );
    assert_eq!(check_all_condition_challenge("0".to_string(), &challenge, &player), Ok(()));
    assert!(check_is_challenge_position(&Point { x: 3, y: 5 }, &challenge));
    assert!(!check_is_challenge_position(&Point { x: 3, y: 3 }, &challenge));
    assert!(!check_is_challenge_position(&Point { x: 5, y: 3 }, &challenge));
    challenge.update_challenge_statut(true);
    assert!(!check_is_challenge_position(&Point { x: 3, y: 5 }, &challenge));
}

#[test]
fn answers_of_the_server() {
    assert_eq!(
        register_team_result(Ok((3, "abcdefghij".to_string()))),
        JsonWrapper::RegisterTeamResult(RegisterTeamResult::Accepted {
            expected_players: 3,
            registration_token: "abcdefghij".to_string()
        })
    );
    assert_eq!(
        register_team_result(Err(RegistrationError::AlreadyRegistered)),
        JsonWrapper::RegisterTeamResult(RegisterTeamResult::Refused(
            RegistrationError::AlreadyRegistered
        ))
    );
    assert_eq!(
        subscribe_player_result(Ok(Player::new("ann".to_string()))),
        JsonWrapper::SubscribePlayerResult(SubscribePlayerResult::Accepted)
    );
    assert_eq!(
        subscribe_player_result(Err(RegistrationError::InvalidName)),
        JsonWrapper::SubscribePlayerResult(SubscribePlayerResult::Refused(
            RegistrationError::InvalidName
        ))
    );
    let player = Player::new("ann".to_string());
    assert_eq!(
        action_result(Ok((player.duplicate(), true))),
        JsonWrapper::Challenge(Challenge::SecretSumModulo(10))
    );
    assert_eq!(
        action_result(Ok((player.duplicate(), false))),
        JsonWrapper::RadarView("QLwQLQQwaaaaaaG".to_string())
    );
    assert_eq!(
        action_result(Err(ActionError::PlayerMustBeRescued)),
        JsonWrapper::ActionError(ActionError::PlayerMustBeRescued)
    );
    let copy = player.duplicate();
    assert_eq!(copy.get_name(), "ann");
    assert_eq!(copy.get_position(), player.get_position());
}

#[test]
fn course_of_a_connection() {
    let mut manager = TeamManager::new();
    let mut player = Player::new("Player1".to_string());
    let mut challenge = ChallengePosition::new(Point { x: 3, y: 5 });

    let (state, frames) = handle_command(
        SessionState::Greeting,
        Command::RegisterTeam { name: "rust_warriors".to_string() },
        &mut manager,
        &mut player,
        &mut challenge,
    );
    assert_eq!(state, SessionState::Closed);
    assert_eq!(frames.len(), 1);
    let token = token_of(frames[0].clone());

    let (state, frames) = handle_command(
        SessionState::Greeting,
        Command::RegisterTeam { name: "rust_warriors".to_string() },
        &mut manager,
        &mut player,
        &mut challenge,
    );
    assert_eq!(state, SessionState::Greeting);
    assert_eq!(
        frames,
        vec![JsonWrapper::RegisterTeamResult(RegisterTeamResult::Refused(
            RegistrationError::AlreadyRegistered
        ))]
    );

    let (state, frames) = handle_command(
        SessionState::Greeting,
        Command::SubscribePlayer { name: "ann".to_string(), registration_token: "x".to_string() },
        &mut manager,
        &mut player,
        &mut challenge,
    );
    assert_eq!(state, SessionState::Greeting);
    assert_eq!(
        frames,
        vec![JsonWrapper::SubscribePlayerResult(SubscribePlayerResult::Refused(
            RegistrationError::InvalidRegistrationToken
        ))]
    );

    let (state, frames) = handle_command(
        SessionState::Greeting,
        Command::SubscribePlayer { name: "ann".to_string(), registration_token: token.clone() },
        &mut manager,
        &mut player,
        &mut challenge,
    );
    assert_eq!(state, SessionState::Playing);
    assert_eq!(
        frames,
        vec![
            JsonWrapper::SubscribePlayerResult(SubscribePlayerResult::Accepted),
            JsonWrapper::RadarView("QLwQLQQwaaaaaaG".to_string())
        ]
    );

    let (state, frames) = handle_command(
        SessionState::Playing,
        Command::Action(Action::MoveTo(RelativeDirection::Left)),
        &mut manager,
        &mut player,
        &mut challenge,
    );
    assert_eq!(state, SessionState::Playing);
    assert_eq!(frames, vec![JsonWrapper::ActionError(ActionError::CannotPassThroughWall)]);

    let (state, frames) = handle_command(
        SessionState::Playing,
        Command::Action(Action::MoveTo(RelativeDirection::Front)),
        &mut manager,
        &mut player,
        &mut challenge,
    );
    assert_eq!(state, SessionState::Playing);
    assert_eq!(frames, vec![JsonWrapper::RadarView("GgQvajAQ/W8aaaa".to_string())]);
}

#[test]
fn commands_out_of_turn_close_the_connection() {
    let mut manager = TeamManager::new();
    let mut player = Player::new("Player1".to_string());
    let mut challenge = ChallengePosition::new(Point { x: 3, y: 5 });
    let action = || Command::Action(Action::MoveTo(RelativeDirection::Front));
    let register = || Command::RegisterTeam { name: "blue".to_string() };
    let subscribe =
        || Command::SubscribePlayer { name: "ann".to_string(), registration_token: "t".to_string() };
    let out_of_turn = [
        (SessionState::Greeting, action()),
        (SessionState::AwaitingSubscribe, action()),
        (SessionState::AwaitingSubscribe, register()),
        (SessionState::Playing, register()),
        (SessionState::Playing, subscribe()),
        (SessionState::Closed, action()),
        (SessionState::Closed, register()),
        (SessionState::Closed, subscribe()),
    ];
    for (state, command) in out_of_turn {
        let (next, frames) =
            handle_command(state, command, &mut manager, &mut player, &mut challenge);
        assert_eq!(next, SessionState::Closed);
        assert!(frames.is_empty());
    }
    assert_eq!(manager.team_count(), 0);
    assert_eq!(player.get_position(), Point { x: 3, y: 3 });

    let (next, frames) = handle_command(
        SessionState::AwaitingSubscribe,
        subscribe(),
        &mut manager,
        &mut player,
        &mut challenge,
    );
    assert_eq!(next, SessionState::AwaitingSubscribe);
    assert_eq!(frames.len(), 1);
}

#[test]
fn spare_keys_count_up() {
    assert_eq!(spare_key_text(0), "0000000000");
    assert_eq!(spare_key_text(1), "0000000001");
    assert_eq!(spare_key_text(42), "0000000042");
    assert_eq!(spare_key_text(1234567890), "1234567890");
    assert_eq!(spare_key_text(SPARE_KEYS - 1), "9999999999");
    assert_eq!(spare_key_text(SPARE_KEYS), "0000000000");
    assert_eq!(spare_key_text(u64::MAX), "3709551615");
    assert_eq!(SPARE_KEYS, 10_000_000_000);
}

#[test]
fn spare_keys_serve_as_access_keys() {
    let mut manager = TeamManager::new();
    for number in 0..5u64 {
        let name = format!("team{number}");
        assert_eq!(
            manager.create_team_with_key(&name, spare_key_text(number)),
            Ok(spare_key_text(number))
        );
    }
    assert_eq!(manager.team_count(), 5);
    assert_eq!(
        manager.create_team_with_key(&"late".to_string(), spare_key_text(3)),
        Err(RegistrationError::InvalidRegistrationToken)
    );
    let key = manager.create_team(&"late".to_string()).unwrap();
    assert_eq!(manager.player_count(&key), Some(0));
    assert_eq!(manager.team_count(), 6);
}

#[test]
fn many_teams_get_keys_of_their_own() {
    let mut manager = TeamManager::new();
    let mut keys = Vec::new();
    for number in 0..200 {
        let key = manager.create_team(&format!("team{number}")).unwrap();
        assert!(!keys.contains(&key));
        keys.push(key);
    }
    assert_eq!(manager.team_count(), 200);
}

#[test]
fn cells_of_the_maze() {
    for x in -1..=7 {
        for y in -1..=7 {
            let expected = [1, 3, 5].contains(&x) && [1, 3, 5].contains(&y);
            assert_eq!(is_open_cell(Point { x, y }), expected, "{x} {y}");
        }
    }
    assert!(!is_open_cell(Point { x: i32::MAX, y: i32::MIN }));
}
