use snake_core::direction::PlayerDirection;
use snake_core::food::Object;
use snake_core::game::{check_player_object, Game, Outcome};
use snake_core::grid::{next_block, Block};
use snake_core::intent::Intent;
use snake_core::snake::Player;

fn b(x: i32, y: i32) -> Block {
    Block { x, y }
}

fn game(grid: i32, body: &[Block], heading: PlayerDirection, food: Block) -> Game {
    Game::from_parts(grid, &body.to_vec(), heading, food).expect("valid state")
}

#[test]
fn single_cell_moves_down() {
    let mut g = game(5, &[b(2, 2)], PlayerDirection::Down, b(0, 0));
    assert_eq!(g.step(&vec![]), Outcome::Continued);
    assert_eq!(g.player().cells(), vec![b(2, 3)]);
    assert_eq!(g.food(), b(0, 0));
}

#[test]
fn eating_grows_onto_food() {
    let mut g = game(5, &[b(2, 2), b(2, 1)], PlayerDirection::Down, b(2, 3));
    assert_eq!(g.step(&vec![Intent::Move(PlayerDirection::Down)]), Outcome::Grew);
    assert_eq!(g.player().cells(), vec![b(2, 3), b(2, 2), b(2, 1)]);
    assert_eq!(g.player().get_size(), 3);
    let f = g.food();
    assert!(0 <= f.x && f.x < 5 && 0 <= f.y && f.y < 5);
}

#[test]
fn step_with_uses_fresh_food() {
    let mut g = game(5, &[b(2, 2), b(2, 1)], PlayerDirection::Down, b(2, 3));
    assert_eq!(g.step_with(&vec![], b(4, 4)), Outcome::Grew);
    assert_eq!(g.food(), b(4, 4));
    assert_eq!(g.player().cells(), vec![b(2, 3), b(2, 2), b(2, 1)]);
}

#[test]
fn repeated_move_acts_once() {
    let mut once = game(7, &[b(3, 3), b(3, 2)], PlayerDirection::Down, b(0, 0));
    let mut twice = game(7, &[b(3, 3), b(3, 2)], PlayerDirection::Down, b(0, 0));
    let left = Intent::Move(PlayerDirection::Left);
    assert_eq!(once.step(&vec![left]), twice.step(&vec![left, left]));
    assert_eq!(once.player().cells(), twice.player().cells());
    assert_eq!(once.player().cells(), vec![b(2, 3), b(3, 3)]);
    assert_eq!(twice.player().get_direction(), PlayerDirection::Left);
}

#[test]
fn last_move_of_batch_wins() {
    let mut g = game(7, &[b(3, 3), b(3, 2)], PlayerDirection::Down, b(0, 0));
    let batch = vec![
        Intent::Move(PlayerDirection::Left),
        Intent::Move(PlayerDirection::Right),
    ];
    assert_eq!(g.step(&batch), Outcome::Continued);
    assert_eq!(g.player().cells(), vec![b(4, 3), b(3, 3)]);
}

#[test]
fn reversal_refused_for_long_snake() {
    let mut g = game(7, &[b(3, 3), b(2, 3)], PlayerDirection::Right, b(0, 0));
    g.step(&vec![Intent::Move(PlayerDirection::Left)]);
    assert_eq!(g.player().get_direction(), PlayerDirection::Right);
    assert_eq!(g.player().cells(), vec![b(4, 3), b(3, 3)]);
}

#[test]
fn reversal_allowed_for_single_cell() {
    let mut g = game(7, &[b(3, 3)], PlayerDirection::Right, b(0, 0));
    g.step(&vec![Intent::Move(PlayerDirection::Left)]);
    assert_eq!(g.player().get_direction(), PlayerDirection::Left);
    assert_eq!(g.player().cells(), vec![b(2, 3)]);
}

#[test]
fn wraps_right_edge_to_zero() {
    let mut g = game(5, &[b(4, 1)], PlayerDirection::Right, b(0, 0));
    g.step(&vec![]);
    assert_eq!(g.player().cells(), vec![b(0, 1)]);
}

#[test]
fn wraps_left_edge_to_last() {
    let mut g = game(5, &[b(0, 1)], PlayerDirection::Left, b(3, 3));
    g.step(&vec![]);
    assert_eq!(g.player().cells(), vec![b(4, 1)]);
}

#[test]
fn wraps_rows() {
    assert_eq!(next_block(&b(2, 4), PlayerDirection::Down, 5), b(2, 0));
    assert_eq!(next_block(&b(2, 0), PlayerDirection::Up, 5), b(2, 4));
    assert_eq!(next_block(&b(2, 2), PlayerDirection::Up, 5), b(2, 1));
}

#[test]
fn running_into_body_loses() {
    let body = [b(2, 2), b(2, 3), b(3, 3), b(3, 2), b(3, 1)];
    let mut g = game(6, &body, PlayerDirection::Right, b(0, 0));
    assert_eq!(g.step(&vec![]), Outcome::Lost);
    assert!(g.player().check_eat_himself());
}

#[test]
fn following_the_tail_is_safe() {
    let body = [b(2, 2), b(2, 3), b(3, 3), b(3, 2)];
    let mut g = game(6, &body, PlayerDirection::Right, b(0, 0));
    assert_eq!(g.step(&vec![]), Outcome::Continued);
    assert_eq!(g.player().cells(), vec![b(3, 2), b(2, 2), b(2, 3), b(3, 3)]);
}

#[test]
fn from_parts_rejects_bad_states() {
    assert!(Game::from_parts(5, &vec![], PlayerDirection::Down, b(0, 0)).is_none());
    assert!(Game::from_parts(5, &vec![b(5, 0)], PlayerDirection::Down, b(0, 0)).is_none());
    assert!(Game::from_parts(5, &vec![b(0, -1)], PlayerDirection::Down, b(0, 0)).is_none());
    assert!(Game::from_parts(5, &vec![b(1, 1)], PlayerDirection::Down, b(0, 5)).is_none());
    assert!(Game::from_parts(0, &vec![b(0, 0)], PlayerDirection::Down, b(0, 0)).is_none());
    assert!(Game::from_parts(5, &vec![b(4, 4)], PlayerDirection::Down, b(0, 0)).is_some());
}

#[test]
fn new_game_starts_in_middle() {
    let g = Game::new(20);
    assert_eq!(g.player().cells(), vec![b(10, 10)]);
    assert_eq!(g.player().get_direction(), PlayerDirection::Down);
    let f = g.food();
    assert!(0 <= f.x && f.x < 20 && 0 <= f.y && f.y < 20);
}

#[test]
fn food_draws_stay_on_grid() {
    assert_eq!(Object::new(1).body, b(0, 0));
    for _ in 0..200 {
        let o = Object::new(3);
        assert!(0 <= o.body.x && o.body.x < 3 && 0 <= o.body.y && o.body.y < 3);
    }
}

#[test]
fn frame_shows_snake_and_food() {
    let g = game(3, &[b(1, 1), b(1, 0)], PlayerDirection::Down, b(2, 2));
    let rows = g.frame();
    let text: Vec<String> = rows.iter().map(|r| r.iter().collect()).collect();
    assert_eq!(text, vec![".0.", ".0.", "..*"]);
}

#[test]
fn player_moves_and_grows() {
    let mut p = Player::new(4);
    assert_eq!(p.cells(), vec![b(2, 2)]);
    p.forward(&PlayerDirection::Right);
    assert_eq!(p.cells(), vec![b(3, 2)]);
    p.grow(&b(3, 3));
    assert_eq!(p.cells(), vec![b(3, 3), b(3, 2)]);
    assert_eq!(p.get_size(), 2);
    assert!(p.occupies(&b(3, 2)));
    assert!(!p.occupies(&b(0, 0)));
    assert!(!p.check_eat_himself());
}

#[test]
fn food_ahead_is_detected() {
    let p = Player::new(4);
    assert!(check_player_object(&p, &Object::at(b(2, 3)), &PlayerDirection::Down));
    assert!(!check_player_object(&p, &Object::at(b(2, 3)), &PlayerDirection::Up));
    assert!(check_player_object(&p, &Object::at(b(2, 1)), &PlayerDirection::Up));
}

#[test]
fn opposite_directions() {
    assert_eq!(PlayerDirection::Up.opposite(), PlayerDirection::Down);
    assert_eq!(PlayerDirection::Down.opposite(), PlayerDirection::Up);
    assert_eq!(PlayerDirection::Left.opposite(), PlayerDirection::Right);
    assert_eq!(PlayerDirection::Right.opposite(), PlayerDirection::Left);
}
