use pong::ball::Ball;
use pong::digits::decimal_string;
use pong::events::{Contact, GameEvents};
use pong::game::{FrameInput, GameState};
use pong::player::{Player, TintColor, Velocity};
use pong::score::{score, Score, ScoreText};

fn two_slots() -> Vec<ScoreText> {
    vec![
        ScoreText { owner: Player::Player1, value: decimal_string(0) },
        ScoreText { owner: Player::Player2, value: decimal_string(0) },
    ]
}

fn idle_input() -> FrameInput {
    FrameInput {
        p1_up: false,
        p1_down: false,
        p2_up: false,
        p2_down: false,
        space_just_pressed: false,
        dt_ms: 16,
    }
}

#[test]
fn decimal_rendering_matches_usual_notation() {
    assert_eq!(decimal_string(0), "0");
    assert_eq!(decimal_string(7), "7");
    assert_eq!(decimal_string(10), "10");
    assert_eq!(decimal_string(120), "120");
    assert_eq!(decimal_string(4294967295), "4294967295");
}

#[test]
fn one_goal_event_scores_one_point_and_updates_one_slot() {
    let mut tally = Score::new();
    let mut texts = two_slots();
    let events = vec![GameEvents::GainPoint(Player::Player1)];
    score(&events, &mut texts, &mut tally);
    assert_eq!(tally.get(Player::Player1), 1);
    assert_eq!(tally.get(Player::Player2), 0);
    assert_eq!(texts[0].value, "1");
    assert_eq!(texts[1].value, "0");
}

#[test]
fn gains_accumulate_per_player() {
    let mut tally = Score::new();
    let mut texts = two_slots();
    let events = vec![
        GameEvents::GainPoint(Player::Player2),
        GameEvents::GainPoint(Player::Player1),
        GameEvents::GainPoint(Player::Player2),
    ];
    score(&events, &mut texts, &mut tally);
    assert_eq!(tally.get(Player::Player1), 1);
    assert_eq!(tally.get(Player::Player2), 2);
    assert_eq!(texts[0].value, "1");
    assert_eq!(texts[1].value, "2");
}

#[test]
fn reset_events_score_nothing() {
    let mut tally = Score::new();
    let mut texts = two_slots();
    let events = vec![GameEvents::ResetBall(Player::Player1)];
    score(&events, &mut texts, &mut tally);
    assert_eq!(tally.get(Player::Player1), 0);
    assert_eq!(tally.get(Player::Player2), 0);
    assert_eq!(texts[0].value, "0");
}

#[test]
fn scores_never_decrease_over_many_events() {
    let mut tally = Score::new();
    let mut texts = two_slots();
    let mut previous = (0, 0);
    for _ in 0..20 {
        let events = vec![GameEvents::GainPoint(Player::Player2)];
        score(&events, &mut texts, &mut tally);
        let now = (tally.get(Player::Player1), tally.get(Player::Player2));
        assert!(now.0 >= previous.0 && now.1 >= previous.1);
        previous = now;
    }
    assert_eq!(previous, (0, 20));
}

#[test]
fn fresh_game_is_the_spawned_scene() {
    let g = GameState::new();
    assert_eq!(g.paddle1.y, 0);
    assert_eq!(g.paddle2.y, 0);
    assert_eq!(g.ball, Ball::new());
    assert_eq!(g.ball.velocity, Velocity { vx: 100, vy: 0 });
    assert_eq!(g.ball.tint, TintColor::White);
    assert_eq!(g.tally.get(Player::Player1), 0);
    assert_eq!(g.tally.get(Player::Player2), 0);
    assert_eq!(g.score_text[0].value, "0");
    assert_eq!(g.score_text[1].value, "0");
}

#[test]
fn a_goal_frame_scores_and_recenters_the_ball() {
    let mut g = GameState::new();
    g.ball.x = 600;
    g.ball.y = 12;
    let contacts = vec![Contact::Goal(Player::Player2)];
    g.step(idle_input(), &contacts);
    assert_eq!(g.tally.get(Player::Player2), 1);
    assert_eq!(g.tally.get(Player::Player1), 0);
    assert_eq!(g.ball.x, 0);
    assert_eq!(g.ball.y, 0);
    assert_eq!(g.ball.velocity, Velocity { vx: -100, vy: 0 });
    assert_eq!(g.score_text[1].value, "1");
    assert_eq!(g.score_text[0].value, "0");
}

#[test]
fn a_quiet_frame_changes_nothing_but_the_paddles() {
    let mut g = GameState::new();
    let mut input = idle_input();
    input.p1_up = true;
    input.dt_ms = 1000;
    let contacts: Vec<Contact> = Vec::new();
    g.step(input, &contacts);
    assert_eq!(g.paddle1.y, 100);
    assert_eq!(g.paddle2.y, 0);
    assert_eq!(g.ball, Ball::new());
    assert_eq!(g.tally.get(Player::Player1), 0);
    assert_eq!(g.score_text[0].value, "0");
}

#[test]
fn a_paddle_frame_tints_the_ball() {
    let mut g = GameState::new();
    let contacts = vec![Contact::Other, Contact::Paddle(Player::Player1)];
    g.step(idle_input(), &contacts);
    assert_eq!(g.ball.tint, TintColor::Red);
    assert_eq!(g.tally.get(Player::Player1), 0);
}

#[test]
fn a_manual_reset_frame_serves_for_someone_and_scores_nothing() {
    let mut g = GameState::new();
    g.ball.x = -300;
    let mut input = idle_input();
    input.space_just_pressed = true;
    let contacts = vec![Contact::Goal(Player::Player1)];
    g.step(input, &contacts);
    assert_eq!(g.ball.x, 0);
    assert_eq!(g.ball.y, 0);
    assert!(
        g.ball.velocity == Velocity { vx: 100, vy: 0 }
            || g.ball.velocity == Velocity { vx: -100, vy: 0 }
    );
    assert_eq!(g.tally.get(Player::Player1), 0);
    assert_eq!(g.tally.get(Player::Player2), 0);
}

#[test]
fn paddles_stay_in_bounds_across_many_frames() {
    let mut g = GameState::new();
    let contacts: Vec<Contact> = Vec::new();
    let mut input = idle_input();
    input.p1_up = true;
    input.p2_down = true;
    input.dt_ms = 250;
    for _ in 0..40 {
        g.step(input, &contacts);
        assert!((-285..=285).contains(&g.paddle1.y));
        assert!((-285..=285).contains(&g.paddle2.y));
    }
    assert_eq!(g.paddle1.y, 285);
    assert_eq!(g.paddle2.y, -285);
}
