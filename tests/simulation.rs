use booper::draw::{format_score, Draw, DrawCommand, EndScreen, PauseScreen};
use booper::field::{Block, ObstacleField};
use booper::game::Game;
use booper::player::Player;
use booper::run_state::{
    apply_pause_edge, collapse_edges, random_byte_from_bits, GameRunState, RunStateMachine,
};
use booper::Tick;

fn field_of(blocks: [Block; 8], offset: i32) -> ObstacleField {
    let mut buf: heapless::Vec<Block, 8> = heapless::Vec::new();
    for b in blocks.iter() {
        buf.push(*b).unwrap();
    }
    ObstacleField { blocks: buf, offset }
}

fn blocks_of(field: &ObstacleField) -> Vec<Block> {
    (0..8).map(|i| field.block(i)).collect()
}

#[test]
fn new_field_has_eight_default_blocks() {
    let field = ObstacleField::new();
    assert_eq!(field.blocks.len(), 8);
    assert_eq!(field.offset, 0);
    assert_eq!(blocks_of(&field), vec![(20, false); 8]);
}

#[test]
fn player_floor_holds() {
    let mut p = Player { position: -50, velocity: -200, acceleration: 0 };
    p.integrate();
    assert_eq!(p.position, -100);
    assert_eq!(p.velocity, -200);
}

#[test]
fn integrate_moves_then_accelerates() {
    let mut p = Player { position: 10, velocity: 3, acceleration: 1 };
    p.integrate();
    assert_eq!(p, Player { position: 13, velocity: 4, acceleration: 1 });
}

#[test]
fn boop_on_first_frame() {
    let mut g = Game::new();
    let over = g.tick(0, 0, false, true);
    assert!(!over);
    assert_eq!(g.player.position, 1);
    assert_eq!(g.player.acceleration, 1);
    // the impulse sets -4, then the same tick adds gravity once
    assert_eq!(g.player.velocity, -3);
}

#[test]
fn height_from_all_ones_byte() {
    let mut field = field_of([(20, false); 8], -19);
    field.advance(255, true);
    assert_eq!(field.block(7), (31, true));
    assert_eq!(field.offset, 0);
}

#[test]
fn height_from_low_bits_only() {
    let mut field = field_of([(20, false); 8], -19);
    field.advance(7, false);
    assert_eq!(field.block(7), (0, false));
}

#[test]
fn shift_moves_blocks_left() {
    let blocks = [(1, false), (2, true), (3, false), (4, true), (5, false), (6, false), (7, true), (8, false)];
    let mut field = field_of(blocks, -19);
    field.advance(80, true);
    assert_eq!(
        blocks_of(&field),
        vec![(2, true), (3, false), (4, true), (5, false), (6, false), (7, true), (8, false), (10, true)]
    );
}

#[test]
fn advance_without_shift_only_scrolls() {
    let blocks = [(1, false), (2, true), (3, false), (4, true), (5, false), (6, false), (7, true), (8, false)];
    let mut field = field_of(blocks, -3);
    field.advance(80, true);
    assert_eq!(field.offset, -4);
    assert_eq!(blocks_of(&field), blocks.to_vec());
}

#[test]
fn field_shape_kept_over_many_advances() {
    let mut field = ObstacleField::new();
    for k in 0..1000u32 {
        field.advance((k * 37 % 256) as u8, k % 3 == 0);
        assert_eq!(field.blocks.len(), 8);
        assert!(field.offset > -20 && field.offset <= 0);
    }
}

#[test]
fn game_over_exactly_past_threshold() {
    let mut g = Game::new();
    g.player.position = 34;
    assert!(!g.tick(0, 0, false, false));
    let mut g = Game::new();
    g.player.position = 35;
    assert!(g.tick(0, 0, false, false));
}

#[test]
fn game_over_tick_changes_nothing() {
    let mut g = Game::new();
    g.player = Player { position: 40, velocity: 3, acceleration: 1 };
    g.field.offset = -7;
    let before_blocks = blocks_of(&g.field);
    assert!(g.tick(5, 200, true, false));
    assert_eq!(g.player, Player { position: 40, velocity: 3, acceleration: 1 });
    assert_eq!(g.score, 0);
    assert_eq!(g.field.offset, -7);
    assert_eq!(blocks_of(&g.field), before_blocks);
}

#[test]
fn bonus_awarded_once() {
    let mut g = Game::new();
    g.field = field_of([(20, false), (20, true), (20, false), (20, false), (20, false), (20, false), (20, false), (20, false)], 0);
    g.player.position = 20;
    assert!(!g.tick(0, 0, false, false));
    assert_eq!(g.score, 10);
    assert_eq!(g.field.block(1), (20, false));
    assert!(!g.tick(1, 0, false, false));
    assert_eq!(g.score, 10);
}

#[test]
fn bonus_out_of_reach_stays() {
    let mut g = Game::new();
    g.field = field_of([(20, false), (20, true), (20, false), (20, false), (20, false), (20, false), (20, false), (20, false)], 0);
    g.player.position = 14;
    assert!(!g.tick(0, 0, false, false));
    assert_eq!(g.score, 0);
    assert_eq!(g.field.block(1), (20, true));
}

#[test]
fn pause_toggle_round_trip() {
    let mut m = RunStateMachine::new();
    for k in 0..5u8 {
        m.frame(false, k, false, k == 0);
    }
    let player = m.game.player;
    let blocks = blocks_of(&m.game.field);
    let offset = m.game.field.offset;
    let frames = m.frame_count;
    let plan = m.frame(true, 9, true, true);
    assert_eq!(m.state, GameRunState::Paused);
    assert!(!plan.clear_first);
    assert!(plan.wait_for_interrupt);
    assert_eq!(plan.commands, vec![DrawCommand::Text { text: b"PAUSED".to_vec(), x: 30, y: 10, large: true }]);
    m.frame(false, 9, true, true);
    assert_eq!(m.state, GameRunState::Paused);
    let plan = m.frame(true, 9, true, true);
    assert_eq!(m.state, GameRunState::Running);
    assert!(plan.clear_first);
    assert_eq!(m.game.player, player);
    assert_eq!(blocks_of(&m.game.field), blocks);
    assert_eq!(m.game.field.offset, offset);
    assert_eq!(m.frame_count, frames);
}

#[test]
fn game_over_absorbs_pause_edges() {
    let mut m = RunStateMachine::new();
    m.game.player.position = 50;
    let plan = m.frame(false, 0, false, false);
    assert_eq!(m.state, GameRunState::GameOver);
    assert!(plan.clear_first);
    for k in 0..6 {
        let plan = m.frame(k % 2 == 0, 0, false, true);
        assert_eq!(m.state, GameRunState::GameOver);
        assert!(plan.wait_for_interrupt);
        assert_eq!(plan.commands, vec![DrawCommand::Text { text: b"GAME OVER".to_vec(), x: 20, y: 10, large: true }]);
    }
    assert_eq!(m.game.player.position, 50);
}

#[test]
fn pause_edge_transitions() {
    assert_eq!(apply_pause_edge(GameRunState::Running, true), GameRunState::Paused);
    assert_eq!(apply_pause_edge(GameRunState::Paused, true), GameRunState::Running);
    assert_eq!(apply_pause_edge(GameRunState::GameOver, true), GameRunState::GameOver);
    assert_eq!(apply_pause_edge(GameRunState::Running, false), GameRunState::Running);
    assert_eq!(apply_pause_edge(GameRunState::Paused, false), GameRunState::Paused);
}

#[test]
fn queued_edges_collapse_to_last() {
    assert!(!collapse_edges(&vec![]));
    assert!(collapse_edges(&vec![true, true, true]));
    assert!(!collapse_edges(&vec![true, false]));
}

#[test]
fn random_byte_assembly() {
    assert_eq!(random_byte_from_bits(&[true; 8]), 255);
    assert_eq!(random_byte_from_bits(&[false; 8]), 0);
    assert_eq!(random_byte_from_bits(&[true, false, false, false, false, false, false, false]), 128);
    assert_eq!(random_byte_from_bits(&[false, false, false, false, false, true, false, true]), 5);
}

#[test]
fn score_formatting() {
    assert_eq!(format_score(0), b"0000".to_vec());
    assert_eq!(format_score(42), b"0042".to_vec());
    assert_eq!(format_score(9999), b"9999".to_vec());
    assert_eq!(format_score(10000), Vec::<u8>::new());
}

#[test]
fn new_game_frame() {
    let g = Game::new();
    let cmds = g.draw();
    assert_eq!(cmds.len(), 12);
    for i in 0..8 {
        assert_eq!(cmds[i], DrawCommand::Rect { x: 20 * i as i32, y: 44, width: 18, height: 20 });
    }
    assert_eq!(cmds[8], DrawCommand::Circle { x: 15, y: 5, diameter: 10, filled: false });
    assert_eq!(cmds[9], DrawCommand::Circle { x: 18, y: 8, diameter: 2, filled: true });
    assert_eq!(cmds[10], DrawCommand::Circle { x: 21, y: 8, diameter: 2, filled: true });
    assert_eq!(cmds[11], DrawCommand::Text { text: b"0000".to_vec(), x: 104, y: 9, large: false });
}

#[test]
fn bonus_drawn_above_block() {
    let mut g = Game::new();
    g.field = field_of([(20, false), (31, true), (20, false), (20, false), (20, false), (20, false), (20, false), (20, false)], -5);
    let cmds = g.draw();
    assert_eq!(cmds.len(), 13);
    assert_eq!(cmds[1], DrawCommand::Rect { x: 15, y: 33, width: 18, height: 31 });
    assert_eq!(cmds[2], DrawCommand::Bonus { x: 15, y: 15 });
}

#[test]
fn banners() {
    assert_eq!(PauseScreen::new().draw(), vec![DrawCommand::Text { text: b"PAUSED".to_vec(), x: 30, y: 10, large: true }]);
    assert_eq!(EndScreen::new().draw(), vec![DrawCommand::Text { text: b"GAME OVER".to_vec(), x: 20, y: 10, large: true }]);
}
