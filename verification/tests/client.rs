use maze_game::client::{Client, ClientError, Reaction, MAP_START};
use maze_game::wire::base64::encode_b64;
use maze_game::wire::error::ProtocolError;
use maze_game::wire::messages::{
    Action, ActionError, Challenge, Hint, JsonWrapper, RegisterTeam, RegisterTeamResult,
    RegistrationError, RelativeDirection, SubscribePlayer, SubscribePlayerResult,
};
use maze_game::wire::radar::encode_radar_view_binary;

fn radar_message(open: &[(usize, usize)]) -> JsonWrapper {
    let mut radar = [['#'; 7]; 7];
    for (row, col) in open {
        radar[*row][*col] = ' ';
    }
    JsonWrapper::RadarView(encode_b64(&encode_radar_view_binary(radar)))
}

fn answer(text: &str) -> Reaction {
    Reaction::Reply(JsonWrapper::Action(Action::SolveChallenge { answer: text.to_string() }))
}

#[test]
fn requests_of_the_client() {
    assert_eq!(
        Client::register_team("rust_warriors"),
        JsonWrapper::RegisterTeam(RegisterTeam { name: "rust_warriors".to_string() })
    );
    assert_eq!(
        Client::subscribe_player("player1", "abcdefghij"),
        JsonWrapper::SubscribePlayer(SubscribePlayer {
            name: "player1".to_string(),
            registration_token: "abcdefghij".to_string()
        })
    );
}

#[test]
fn answers_to_the_requests() {
    let accepted = JsonWrapper::RegisterTeamResult(RegisterTeamResult::Accepted {
        expected_players: 3,
        registration_token: "abcdefghij".to_string(),
    });
    assert_eq!(Client::registration_token(accepted.clone()), Ok("abcdefghij".to_string()));
    assert_eq!(
        Client::registration_token(JsonWrapper::RegisterTeamResult(RegisterTeamResult::Refused(
            RegistrationError::AlreadyRegistered
        ))),
        Err(ClientError::Refused(RegistrationError::AlreadyRegistered))
    );
    assert_eq!(
        Client::registration_token(JsonWrapper::Challenge(Challenge::SOS)),
        Err(ClientError::UnexpectedResponse)
    );
    assert_eq!(
        Client::subscription_result(JsonWrapper::SubscribePlayerResult(
            SubscribePlayerResult::Accepted
        )),
        Ok(())
    );
    assert_eq!(
        Client::subscription_result(JsonWrapper::SubscribePlayerResult(
            SubscribePlayerResult::Refused(RegistrationError::TooManyPlayers)
        )),
        Err(ClientError::Refused(RegistrationError::TooManyPlayers))
    );
    assert_eq!(Client::subscription_result(accepted), Err(ClientError::UnexpectedResponse));
}

#[test]
fn a_radar_view_is_answered_with_a_move() {
    let mut client = Client::new(3);
    assert!(client.is_ready());
    assert_eq!(
        client.react(radar_message(&[(3, 1)])),
        Reaction::Reply(JsonWrapper::Action(Action::MoveTo(RelativeDirection::Left)))
    );
    assert_eq!(client.navigator.current_position, (-1, 0));
    assert_eq!(
        client.react(radar_message(&[(1, 3), (3, 5), (5, 3), (3, 1)])),
        Reaction::Reply(JsonWrapper::Action(Action::MoveTo(RelativeDirection::Front)))
    );
    assert_eq!(client.navigator.current_position, (-1, -1));
}

#[test]
fn a_text_that_is_no_radar_view_ends_the_connection() {
    let mut client = Client::new(3);
    assert_eq!(
        client.react(JsonWrapper::RadarView("abcde".to_string())),
        Reaction::Abort(ProtocolError::BadBase64)
    );
    assert_eq!(
        client.react(JsonWrapper::RadarView("ab!d".to_string())),
        Reaction::Abort(ProtocolError::BadBase64)
    );
    assert_eq!(
        client.react(JsonWrapper::RadarView(encode_b64(&[0; 10]))),
        Reaction::Abort(ProtocolError::BadRadarLength)
    );
    assert_eq!(
        client.react(JsonWrapper::RadarView(String::new())),
        Reaction::Abort(ProtocolError::BadRadarLength)
    );
    assert_eq!(client.navigator.current_position, (0, 0));
    assert_eq!(client.navigator.last_move(), None);
}

#[test]
fn a_move_into_a_wall_is_taken_back() {
    let mut client = Client::new(3);
    assert_eq!(
        client.react(JsonWrapper::ActionError(ActionError::CannotPassThroughWall)),
        Reaction::Silent
    );
    assert_eq!(client.navigator.current_position, (0, 0));
    client.react(radar_message(&[(3, 5)]));
    assert_eq!(client.navigator.current_position, (1, 0));
    assert_eq!(
        client.react(JsonWrapper::ActionError(ActionError::CannotPassThroughWall)),
        Reaction::Silent
    );
    assert_eq!(client.navigator.current_position, (0, 0));
    assert!(client.navigator.is_banned(RelativeDirection::Right));
    assert_eq!(client.navigator.fail_count_of(RelativeDirection::Right), 1);
    assert!(!client.navigator.has_visited((1, 0)));
}

#[test]
fn a_sum_of_secrets_is_answered() {
    let mut client = Client::new(3);
    assert_eq!(client.react(JsonWrapper::Challenge(Challenge::SecretSumModulo(10))), answer("0"));
    assert_eq!(client.last_challenge, Some(Challenge::SecretSumModulo(10)));
    assert_eq!(client.react(JsonWrapper::Hint(Hint::Secret(1234567))), Reaction::Silent);
    assert_eq!(client.react(JsonWrapper::Challenge(Challenge::SecretSumModulo(10))), answer("7"));
    assert_eq!(
        client.react(JsonWrapper::Challenge(Challenge::SecretSumModulo(1000))),
        answer("567")
    );
    assert_eq!(
        client.react(JsonWrapper::Challenge(Challenge::SecretSumModulo(u64::MAX))),
        answer("1234567")
    );
    assert_eq!(client.react(JsonWrapper::Hint(Hint::Secret(u64::MAX))), Reaction::Silent);
    assert_eq!(client.react(JsonWrapper::Challenge(Challenge::SecretSumModulo(1000))), answer("615"));
    assert_eq!(client.react(JsonWrapper::Challenge(Challenge::SecretSumModulo(1))), answer("0"));
}

#[test]
fn a_sum_modulo_zero_has_no_answer() {
    let mut client = Client::new(3);
    assert_eq!(client.react(JsonWrapper::Challenge(Challenge::SecretSumModulo(0))), Reaction::Silent);
    assert_eq!(client.last_challenge, Some(Challenge::SecretSumModulo(0)));
    assert_eq!(
        client.react(JsonWrapper::ActionError(ActionError::InvalidChallengeSolution)),
        Reaction::Silent
    );
}

#[test]
fn an_answer_that_was_turned_down_is_given_once_more() {
    let mut client = Client::new(3);
    assert_eq!(
        client.react(JsonWrapper::ActionError(ActionError::InvalidChallengeSolution)),
        Reaction::Silent
    );
    client.react(JsonWrapper::Challenge(Challenge::SecretSumModulo(7)));
    client.react(JsonWrapper::Hint(Hint::Secret(23)));
    assert_eq!(
        client.react(JsonWrapper::ActionError(ActionError::InvalidChallengeSolution)),
        answer("2")
    );
    client.react(JsonWrapper::Challenge(Challenge::SOS));
    assert_eq!(
        client.react(JsonWrapper::ActionError(ActionError::InvalidChallengeSolution)),
        Reaction::Silent
    );
}

#[test]
fn a_call_for_help_is_met_with_a_rescue() {
    let mut client = Client::new(3);
    assert_eq!(client.react(JsonWrapper::Challenge(Challenge::SOS)), Reaction::Silent);
    assert_eq!(client.last_challenge, Some(Challenge::SOS));
    client.challenge_manager.initiate_sos(4).unwrap();
    assert_eq!(client.react(JsonWrapper::Challenge(Challenge::SOS)), Reaction::Silent);
    assert_eq!(client.challenge_manager.sos_active, None);
    client.challenge_manager.initiate_sos(0).unwrap();
    assert_eq!(client.react(JsonWrapper::Challenge(Challenge::SOS)), Reaction::Silent);
    assert_eq!(client.challenge_manager.sos_active, Some(0));
}

#[test]
fn other_messages_are_let_go() {
    let mut client = Client::new(3);
    let messages = [
        JsonWrapper::Hint(Hint::RelativeCompass { angle_bits: 90.0f32.to_bits() }),
        JsonWrapper::Hint(Hint::GridSize { columns: 7, rows: 7 }),
        JsonWrapper::Hint(Hint::SOSHelper),
        JsonWrapper::ActionError(ActionError::SolveChallengeFirst),
        JsonWrapper::ActionError(ActionError::NoRunningChallenge),
        JsonWrapper::ActionError(ActionError::CannotPassThroughOpponent),
        JsonWrapper::ActionError(ActionError::PlayerMustBeRescued),
        JsonWrapper::SubscribePlayerResult(SubscribePlayerResult::Accepted),
        JsonWrapper::Action(Action::MoveTo(RelativeDirection::Back)),
        Client::register_team("blue"),
    ];
    for message in messages {
        assert_eq!(client.react(message), Reaction::Silent);
    }
    assert_eq!(client.navigator.current_position, (0, 0));
    assert_eq!(client.last_challenge, None);
    assert_eq!(client.challenge_manager.solve_secret_sum_modulo(10, &[0]), 0);
    assert_eq!(client.score_manager.total_moves(), 0);
    assert_eq!(client.player_id, 0);
}

#[test]
fn a_client_at_the_end_of_its_range_is_not_ready() {
    let mut client = Client::new(3);
    client.navigator.current_position = (i32::MAX, 0);
    assert!(!client.is_ready());
    client.navigator.current_position = (0, i32::MIN);
    assert!(!client.is_ready());
    client.navigator.current_position = (i32::MAX - 1, i32::MIN + 1);
    assert!(client.is_ready());
    client.navigator.fail_count.set(RelativeDirection::Back, usize::MAX);
    assert!(!client.is_ready());
}

fn row_of_the_map(client: &Client, row: usize) -> String {
    client.global_map.render()[row].clone()
}

#[test]
fn the_map_follows_the_moves_that_went_through() {
    let mut client = Client::new(3);
    assert_eq!(MAP_START, (10, 10));
    assert_eq!(client.global_map.position(), (10, 10));
    assert_eq!(client.pending_delta, (0, 0));

    client.react(radar_message(&[(3, 3), (3, 4), (3, 5)]));
    assert_eq!(client.global_map.position(), (10, 10));
    assert!(client.global_map.is_visited(10, 10));
    assert_eq!(row_of_the_map(&client, 10), "##########   #######");
    assert_eq!(row_of_the_map(&client, 9), "####################");
    assert_eq!(client.pending_delta, (2, 0));

    client.react(radar_message(&[(3, 3), (4, 3), (5, 3)]));
    assert_eq!(client.global_map.position(), (12, 10));
    assert!(client.global_map.is_visited(12, 10));
    assert!(!client.global_map.is_visited(11, 10));
    assert_eq!(row_of_the_map(&client, 10), "##########   #######");
    assert_eq!(row_of_the_map(&client, 11), "###########   ######");
    assert_eq!(row_of_the_map(&client, 12), "############ #######");
    assert_eq!(client.pending_delta, (0, 2));
}

#[test]
fn the_map_stays_where_a_move_was_refused() {
    for error in [
        ActionError::CannotPassThroughWall,
        ActionError::SolveChallengeFirst,
        ActionError::CannotPassThroughOpponent,
        ActionError::PlayerMustBeRescued,
    ] {
        let mut client = Client::new(3);
        client.react(radar_message(&[(1, 3)]));
        assert_eq!(client.pending_delta, (0, -2));
        assert_eq!(client.react(JsonWrapper::ActionError(error)), Reaction::Silent);
        assert_eq!(client.pending_delta, (0, 0));
        client.react(radar_message(&[(3, 3)]));
        assert_eq!(client.global_map.position(), (10, 10));
    }
    for error in [ActionError::NoRunningChallenge, ActionError::InvalidChallengeSolution] {
        let mut client = Client::new(3);
        client.react(radar_message(&[(1, 3)]));
        client.react(JsonWrapper::ActionError(error));
        assert_eq!(client.pending_delta, (0, -2));
        client.react(radar_message(&[(3, 3)]));
        assert_eq!(client.global_map.position(), (10, 8));
    }
}

#[test]
fn the_map_is_left_alone_by_what_is_no_radar_view() {
    let mut client = Client::new(3);
    client.react(JsonWrapper::RadarView("abcde".to_string()));
    client.react(JsonWrapper::Challenge(Challenge::SecretSumModulo(10)));
    client.react(JsonWrapper::Hint(Hint::Secret(3)));
    assert_eq!(client.global_map.position(), (10, 10));
    assert!(!client.global_map.is_visited(10, 10));
    assert_eq!(row_of_the_map(&client, 10), "##########P#########");
}

#[test]
fn a_fresh_client_remembers_nothing() {
    let client = Client::new(4);
    assert_eq!(client.score_manager.team_size(), 4);
    assert_eq!(client.score_manager.total_moves(), 0);
    for player in 0..5 {
        assert_eq!(client.score_manager.moves_of(player), None);
    }
    assert_eq!(client.navigator.last_direction, None);
    assert_eq!(client.navigator.last_move(), None);
    assert!(client.navigator.visited_list().is_empty());
    assert_eq!(client.navigator.current_position, (0, 0));
    for direction in [
        RelativeDirection::Front,
        RelativeDirection::Right,
        RelativeDirection::Back,
        RelativeDirection::Left,
    ] {
        assert!(!client.navigator.is_banned(direction));
        assert_eq!(client.navigator.fail_count_of(direction), 0);
    }
    let rows = client.global_map.render();
    for (y, row) in rows.iter().enumerate() {
        let expected = if y == 10 { "##########P#########" } else { "####################" };
        assert_eq!(row, expected);
    }
    assert_eq!(client.last_challenge, None);
    assert_eq!(client.challenge_manager.sos_active, None);
    assert!(client.challenge_manager.secrets.is_empty());
    assert_eq!(client.pending_delta, (0, 0));
    assert_eq!(client.player_id, 0);
}

#[test]
fn the_score_sheet_is_left_alone_by_every_message() {
    let mut client = Client::new(3);
    client.score_manager.add_move(1);
    client.score_manager.add_move(1);
    client.score_manager.add_move(2);
    let messages = [
        radar_message(&[(3, 5)]),
        JsonWrapper::ActionError(ActionError::CannotPassThroughWall),
        JsonWrapper::Hint(Hint::Secret(9)),
        JsonWrapper::Hint(Hint::GridSize { columns: 7, rows: 7 }),
        JsonWrapper::Challenge(Challenge::SecretSumModulo(5)),
        JsonWrapper::ActionError(ActionError::InvalidChallengeSolution),
        JsonWrapper::Challenge(Challenge::SOS),
        JsonWrapper::RadarView("abcde".to_string()),
        Client::register_team("blue"),
    ];
    for message in messages {
        client.react(message);
        assert_eq!(client.score_manager.moves_of(1), Some(2));
        assert_eq!(client.score_manager.moves_of(2), Some(1));
        assert_eq!(client.score_manager.moves_of(3), None);
        assert_eq!(client.score_manager.total_moves(), 3);
        assert_eq!(client.score_manager.team_size(), 3);
    }
}
