use cube_snake::body::body_contains;
use cube_snake::food::{place_food, CELL_COUNT};
use cube_snake::game::{check_self_collision, GameState, REWARD};
use cube_snake::topology::{Direction, Face, GridPosition, GRID_SIZE};

fn pos(face: Face, x: usize, y: usize) -> GridPosition {
    GridPosition { face, x, y }
}

const FACES: [Face; 6] = [
    Face::Top,
    Face::Bottom,
    Face::Front,
    Face::Back,
    Face::Left,
    Face::Right,
];

/// A well-formed running state with the given body and food, score matching
/// the body's length as the invariant demands.
fn state(body: Vec<GridPosition>, dir: Direction, food: GridPosition) -> GameState {
    let score = REWARD * (body.len() as u32 - 3);
    GameState {
        body,
        current_dir: dir,
        pending_dir: dir,
        food,
        score,
        game_over: false,
        grow_pending: false,
    }
}

#[test]
fn new_game_starts_at_spawn() {
    let g = GameState::new();
    assert_eq!(g.body, vec![pos(Face::Top, 5, 5), pos(Face::Top, 5, 4), pos(Face::Top, 5, 3)]);
    assert_eq!(g.current_dir, Direction::Up);
    assert_eq!(g.pending_dir, Direction::Up);
    assert_eq!(g.score, 0);
    assert!(!g.game_over);
    assert!(!g.grow_pending);
    assert!(g.food.x < GRID_SIZE && g.food.y < GRID_SIZE);
    assert!(!body_contains(&g.body, g.food));
}

#[test]
fn reset_restores_spawn_state() {
    let mut g = GameState::new();
    g.tick();
    g.tick();
    g.reset();
    assert_eq!(g.body, vec![pos(Face::Top, 5, 5), pos(Face::Top, 5, 4), pos(Face::Top, 5, 3)]);
    assert_eq!(g.score, 0);
    assert!(!g.game_over);
    assert_eq!(g.current_dir, Direction::Up);
}

#[test]
fn opposite_pending_is_discarded() {
    let mut g = state(
        vec![pos(Face::Top, 5, 5), pos(Face::Top, 5, 4), pos(Face::Top, 5, 3)],
        Direction::Up,
        pos(Face::Bottom, 0, 0),
    );
    g.set_pending(Direction::Down);
    g.tick();
    assert_eq!(g.current_dir, Direction::Up);
    assert_eq!(g.body[0], pos(Face::Top, 5, 6));
}

#[test]
fn admissible_pending_is_applied() {
    let mut g = state(
        vec![pos(Face::Top, 5, 5), pos(Face::Top, 5, 4), pos(Face::Top, 5, 3)],
        Direction::Up,
        pos(Face::Bottom, 0, 0),
    );
    g.set_pending(Direction::Left);
    g.tick();
    assert_eq!(g.current_dir, Direction::Left);
    assert_eq!(g.body[0], pos(Face::Top, 4, 5));
}

#[test]
fn only_last_pending_before_tick_matters() {
    let mut g = state(
        vec![pos(Face::Top, 5, 5), pos(Face::Top, 5, 4), pos(Face::Top, 5, 3)],
        Direction::Up,
        pos(Face::Bottom, 0, 0),
    );
    g.set_pending(Direction::Down);
    g.set_pending(Direction::Right);
    g.tick();
    assert_eq!(g.current_dir, Direction::Right);
    assert_eq!(g.body[0], pos(Face::Top, 6, 5));
}

#[test]
fn crossing_a_rim_redirects_both_direction_slots() {
    let mut g = state(
        vec![pos(Face::Back, 3, 9), pos(Face::Back, 3, 8), pos(Face::Back, 3, 7)],
        Direction::Up,
        pos(Face::Bottom, 0, 0),
    );
    g.tick();
    // Leaving the back face upward keeps the offset, lands on the top
    // face's upper rim, and the local direction becomes Down.
    assert_eq!(g.body[0], pos(Face::Top, 3, 9));
    assert_eq!(g.current_dir, Direction::Down);
    assert_eq!(g.pending_dir, Direction::Down);
}

#[test]
fn body_shifts_rigidly_over_several_ticks() {
    let mut g = state(
        vec![pos(Face::Top, 5, 5), pos(Face::Top, 5, 4), pos(Face::Top, 5, 3)],
        Direction::Up,
        pos(Face::Bottom, 0, 0),
    );
    for _ in 0..4 {
        let before = g.body.clone();
        g.tick();
        assert_eq!(g.body.len(), before.len());
        for i in 1..g.body.len() {
            assert_eq!(g.body[i], before[i - 1]);
        }
    }
    assert_eq!(g.body[0], pos(Face::Top, 5, 9));
}

#[test]
fn consumption_scores_and_defers_growth() {
    let mut g = state(
        vec![pos(Face::Top, 5, 5), pos(Face::Top, 5, 4), pos(Face::Top, 5, 3)],
        Direction::Up,
        pos(Face::Top, 5, 6),
    );
    g.tick();
    assert_eq!(g.score, 10);
    assert!(g.grow_pending);
    assert_eq!(g.body.len(), 3, "growth is deferred to the next tick");
    assert!(!body_contains(&g.body, g.food), "new food avoids the body");
    // The next tick grows the body by exactly one segment, at the cell the
    // old tail held before the shift.
    let before = g.body.clone();
    g.food = pos(Face::Bottom, 0, 0);
    g.tick();
    assert_eq!(g.body.len(), 4);
    assert_eq!(g.body[3], before[2]);
    for i in 1..before.len() {
        assert_eq!(g.body[i], before[i - 1]);
    }
    assert!(!g.grow_pending);
}

#[test]
fn two_consumptions_score_twenty() {
    let mut g = state(
        vec![pos(Face::Top, 5, 5), pos(Face::Top, 5, 4), pos(Face::Top, 5, 3)],
        Direction::Up,
        pos(Face::Top, 5, 6),
    );
    assert_eq!(g.score, 0);
    g.tick();
    assert_eq!(g.score, 10);
    g.food = pos(Face::Top, 5, 7);
    g.tick();
    assert_eq!(g.score, 20);
}

#[test]
fn head_meeting_a_segment_sets_game_over() {
    // After the move the head lands on the cell the third segment shifts
    // into, with the body long enough for the check.
    let mut g = state(
        vec![
            pos(Face::Top, 5, 5),
            pos(Face::Top, 5, 6),
            pos(Face::Top, 6, 6),
            pos(Face::Top, 6, 5),
            pos(Face::Top, 6, 4),
        ],
        Direction::Up,
        pos(Face::Bottom, 0, 0),
    );
    g.tick();
    assert!(g.game_over);
}

#[test]
fn straight_body_does_not_collide() {
    let mut g = state(
        vec![
            pos(Face::Top, 5, 5),
            pos(Face::Top, 5, 4),
            pos(Face::Top, 5, 3),
            pos(Face::Top, 5, 2),
            pos(Face::Top, 5, 1),
        ],
        Direction::Up,
        pos(Face::Bottom, 0, 0),
    );
    g.tick();
    assert!(!g.game_over);
}

#[test]
fn short_body_skips_self_collision_check() {
    // Head overlapping a segment of a four-long body is below the check's
    // threshold and does not end the game.
    let body = vec![
        pos(Face::Top, 5, 5),
        pos(Face::Top, 5, 5),
        pos(Face::Top, 5, 4),
        pos(Face::Top, 5, 3),
    ];
    assert!(!check_self_collision(&body));
    let longer = vec![
        pos(Face::Top, 5, 5),
        pos(Face::Top, 5, 5),
        pos(Face::Top, 5, 4),
        pos(Face::Top, 5, 3),
        pos(Face::Top, 5, 2),
    ];
    assert!(check_self_collision(&longer));
}

#[test]
fn finished_game_is_frozen() {
    let mut g = state(
        vec![pos(Face::Top, 5, 5), pos(Face::Top, 5, 4), pos(Face::Top, 5, 3)],
        Direction::Up,
        pos(Face::Bottom, 0, 0),
    );
    g.game_over = true;
    let before = g.body.clone();
    g.set_pending(Direction::Left);
    g.tick();
    assert_eq!(g.body, before);
    assert_eq!(g.score, 0);
    assert!(g.game_over);
}

#[test]
fn snapshot_accessors_report_the_state() {
    let g = state(
        vec![pos(Face::Top, 5, 5), pos(Face::Top, 5, 4), pos(Face::Top, 5, 3)],
        Direction::Up,
        pos(Face::Bottom, 0, 0),
    );
    assert_eq!(g.head(), pos(Face::Top, 5, 5));
    assert_eq!(g.body_len(), 3);
    assert_eq!(g.segment(2), pos(Face::Top, 5, 3));
    assert!(g.occupies(pos(Face::Top, 5, 4)));
    assert!(!g.occupies(pos(Face::Front, 5, 4)));
}

#[test]
fn food_placement_avoids_half_full_occupancy() {
    // Cover three whole faces; placement must always land on the free half,
    // inside the grid.
    let mut exclude = Vec::new();
    for &face in &[Face::Top, Face::Front, Face::Left] {
        for x in 0..GRID_SIZE {
            for y in 0..GRID_SIZE {
                exclude.push(pos(face, x, y));
            }
        }
    }
    for _ in 0..10_000 {
        let p = place_food(&exclude).expect("free cells exist");
        assert!(p.x < GRID_SIZE && p.y < GRID_SIZE);
        assert!(!body_contains(&exclude, p));
    }
}

#[test]
fn food_placement_finds_the_single_free_cell() {
    let free = pos(Face::Right, 9, 9);
    let mut exclude = Vec::new();
    for &face in FACES.iter() {
        for x in 0..GRID_SIZE {
            for y in 0..GRID_SIZE {
                let p = pos(face, x, y);
                if p != free {
                    exclude.push(p);
                }
            }
        }
    }
    assert_eq!(exclude.len(), CELL_COUNT - 1);
    for _ in 0..30 {
        assert_eq!(place_food(&exclude), Some(free));
    }
}

#[test]
fn food_placement_reports_a_full_surface() {
    let mut exclude = Vec::new();
    for &face in FACES.iter() {
        for x in 0..GRID_SIZE {
            for y in 0..GRID_SIZE {
                exclude.push(pos(face, x, y));
            }
        }
    }
    assert_eq!(place_food(&exclude), None);
}
