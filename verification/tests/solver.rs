use maze_game::engine::maze::Maze;
use maze_game::solver::challenge::ChallengeManager;
use maze_game::solver::movement::{can_move, move_player, Player, Point};
use maze_game::wire::messages::{ActionError, Challenge, RelativeDirection};

#[test]
fn test_secret_sum_modulo() {
    let mut challenge_manager = ChallengeManager::new();
    challenge_manager.set_secret(1, 10);
    challenge_manager.set_secret(2, 20);
    challenge_manager.set_secret(3, 30);

    assert_eq!(challenge_manager.solve_secret_sum_modulo(10), 0);
    assert_eq!(challenge_manager.solve_secret_sum_modulo(7), 4);
}

#[test]
fn test_initiate_sos() {
    let mut challenge_manager = ChallengeManager::new();
    assert!(challenge_manager.initiate_sos(1).is_ok());
    assert_eq!(challenge_manager.sos_active, Some(1));
}

#[test]
fn test_double_sos_initiation_fails() {
    let mut challenge_manager = ChallengeManager::new();
    assert!(challenge_manager.initiate_sos(1).is_ok());
    assert!(challenge_manager.initiate_sos(2).is_err());
}

#[test]
fn test_resolve_sos_success() {
    let mut challenge_manager = ChallengeManager::new();
    challenge_manager.initiate_sos(1).unwrap();
    assert!(challenge_manager.resolve_sos(2).is_ok());
    assert_eq!(challenge_manager.sos_active, None);
}

#[test]
fn test_resolve_sos_without_active_challenge() {
    let mut challenge_manager = ChallengeManager::new();
    assert!(challenge_manager.resolve_sos(2).is_err());
}

#[test]
fn test_resolve_sos_by_self_fails() {
    let mut challenge_manager = ChallengeManager::new();
    challenge_manager.initiate_sos(1).unwrap();
    assert!(challenge_manager.resolve_sos(1).is_err());
}

#[test]
fn test_resolve_sos_clears_state() {
    let mut challenge_manager = ChallengeManager::new();
    challenge_manager.initiate_sos(3).unwrap();
    assert!(challenge_manager.resolve_sos(2).is_ok());
    assert!(challenge_manager.sos_active.is_none());
}

#[test]
fn sum_of_all_secrets() {
    let mut manager = ChallengeManager::new();
    assert_eq!(manager.solve_secret_sum_modulo(5), 0);
    manager.set_secret(7, u64::MAX);
    manager.set_secret(8, u64::MAX);
    manager.set_secret(9, 3);
    assert_eq!(manager.solve_secret_sum_modulo(10), 3);
    assert_eq!(manager.solve_secret_sum_modulo(1), 0);
    assert_eq!(manager.solve_secret_sum_modulo(u64::MAX), 3);
    manager.set_secret(9, 4);
    assert_eq!(manager.solve_secret_sum_modulo(10), 4);
    for modulo in 1..50u64 {
        assert!(manager.solve_secret_sum_modulo(modulo) < modulo);
    }
}

#[test]
fn sos_errors_of_the_solver() {
    let mut manager = ChallengeManager::new();
    assert_eq!(manager.resolve_sos(1), Err(ActionError::NoRunningChallenge));
    assert_eq!(manager.initiate_sos(1), Ok(Challenge::SOS));
    assert_eq!(manager.initiate_sos(1), Err(ActionError::NoRunningChallenge));
    assert_eq!(manager.resolve_sos(1), Err(ActionError::InvalidChallengeSolution));
    assert_eq!(manager.resolve_sos(2), Ok(()));
}

#[test]
fn test_player_creation() {
    let player = Player::new(2, 3);
    assert_eq!(player.get_position().x, 2);
    assert_eq!(player.get_position().y, 3);
}

#[test]
fn test_can_move_valid() {
    let maze = Maze::new(5, 5);
    let player = Player::new(2, 2);

    let result = can_move(&maze, &player, RelativeDirection::Front);
    assert!(result.is_ok());
    assert_eq!(result.unwrap(), Point { x: 2, y: 1 });
}

#[test]
fn test_can_move_into_wall() {
    let mut maze = Maze::new(5, 5);
    maze.set_wall(2, 1);

    let player = Player::new(2, 2);
    let result = can_move(&maze, &player, RelativeDirection::Front);

    assert!(result.is_err());
    assert_eq!(result.unwrap_err(), ActionError::CannotPassThroughWall);
}

#[test]
fn test_move_player_success() {
    let maze = Maze::new(5, 5);
    let mut player = Player::new(2, 2);

    let result = move_player(&maze, &mut player, RelativeDirection::Front);
    assert!(result.is_ok());
    assert_eq!(player.get_position().x, 2);
    assert_eq!(player.get_position().y, 1);
}

#[test]
fn test_move_player_into_wall() {
    let mut maze = Maze::new(5, 5);
    maze.set_wall(2, 1);

    let mut player = Player::new(2, 2);
    let result = move_player(&maze, &mut player, RelativeDirection::Front);

    assert!(result.is_err());
    assert_eq!(result.unwrap_err(), ActionError::CannotPassThroughWall);
    assert_eq!(player.get_position().x, 2);
    assert_eq!(player.get_position().y, 2);
}

#[test]
fn steps_in_every_direction() {
    let maze = Maze::new(5, 5);
    let player = Player::new(2, 2);
    assert_eq!(can_move(&maze, &player, RelativeDirection::Right), Ok(Point { x: 3, y: 2 }));
    assert_eq!(can_move(&maze, &player, RelativeDirection::Back), Ok(Point { x: 2, y: 3 }));
    assert_eq!(can_move(&maze, &player, RelativeDirection::Left), Ok(Point { x: 1, y: 2 }));
}

#[test]
fn steps_at_the_edge() {
    let maze = Maze::new(3, 3);
    let corner = Player::new(0, 0);
    assert_eq!(can_move(&maze, &corner, RelativeDirection::Front), Ok(Point { x: 0, y: 0 }));
    assert_eq!(can_move(&maze, &corner, RelativeDirection::Left), Ok(Point { x: 0, y: 0 }));
    let far = Player::new(2, 2);
    assert_eq!(
        can_move(&maze, &far, RelativeDirection::Right),
        Err(ActionError::CannotPassThroughWall)
    );
    assert_eq!(
        can_move(&maze, &far, RelativeDirection::Back),
        Err(ActionError::CannotPassThroughWall)
    );
    let lost = Player::new(usize::MAX, usize::MAX);
    assert_eq!(
        can_move(&maze, &lost, RelativeDirection::Right),
        Err(ActionError::CannotPassThroughWall)
    );
}
