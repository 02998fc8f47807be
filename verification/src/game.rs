//! The whole game state and the per-frame step that runs the gameplay
//! systems in the host engine's order: paddle movement, event detection,
//! ball tinting, ball reset, score update.

use vstd::prelude::*;

use crate::ball::{ball_hit, first_paddle_owner, last_server, reset_ball, Ball};
use crate::digits::{decimal_string, spec_decimal};
use crate::events::{detect_reset, goal_events, Contact, GameEvents};
use crate::paddle::{move_paddle, spec_move, Paddle};
use crate::player::Player;
use crate::score::{gains, is_first_for_owner, score, Score, ScoreText};

verus! {

/// The keys read during one frame, and the frame's elapsed time in
/// milliseconds.
#[derive(Clone, Copy, PartialEq, Eq, Structural, Debug)]
pub struct FrameInput {
    pub p1_up: bool,
    pub p1_down: bool,
    pub p2_up: bool,
    pub p2_down: bool,
    pub space_just_pressed: bool,
    pub dt_ms: u32,
}

/// Everything the gameplay rules read and write: one paddle per player,
/// the single ball, the score tally, and the two score display slots.
pub struct GameState {
    pub paddle1: Paddle,
    pub paddle2: Paddle,
    pub ball: Ball,
    pub tally: Score,
    pub score_text: Vec<ScoreText>,
}

/// How many points the named player gains in one frame: none on a manual
/// reset, otherwise one per goal-sensor contact naming that player.
pub open spec fn frame_gains(space_just_pressed: bool, contacts: Seq<Contact>, p: Player) -> nat {
    if space_just_pressed {
        0
    } else {
        gains(goal_events(contacts), p)
    }
}

proof fn lemma_gains_concat(a: Seq<GameEvents>, b: Seq<GameEvents>, p: Player)
    ensures
        gains(a + b, p) == gains(a, p) + gains(b, p),
    decreases b.len(),
{
    if b.len() == 0 {
        assert(a + b =~= a);
    } else {
        assert((a + b).drop_last() =~= a + b.drop_last());
        assert((a + b).last() == b.last());
        lemma_gains_concat(a, b.drop_last(), p);
    }
}

proof fn lemma_goal_gains_bound(s: Seq<Contact>, p: Player)
    ensures
        gains(goal_events(s), p) <= s.len(),
    decreases s.len(),
{
    if s.len() > 0 {
        lemma_goal_gains_bound(s.drop_last(), p);
        let tail = (match s.last() {
            Contact::Goal(q) => seq![GameEvents::ResetBall(q), GameEvents::GainPoint(q)],
            _ => Seq::<GameEvents>::empty(),
        });
        lemma_gains_concat(goal_events(s.drop_last()), tail, p);
        match s.last() {
            Contact::Goal(q) => {
                let two = seq![GameEvents::ResetBall(q), GameEvents::GainPoint(q)];
                let one = seq![GameEvents::ResetBall(q)];
                assert(gains(Seq::<GameEvents>::empty(), p) == 0);
                assert(one.drop_last() =~= Seq::<GameEvents>::empty());
                assert(one.last() == GameEvents::ResetBall(q));
                assert(gains(one, p) == 0);
                assert(two.drop_last() =~= one);
                assert(two.last() == GameEvents::GainPoint(q));
                assert(gains(two, p) <= 1);
            },
            _ => {
                assert(gains(tail, p) == 0);
            },
        }
    }
}

impl GameState {
    /// The whole-game invariant: both paddles within the field bounds,
    /// no negative score, and one display slot per player, left slot for
    /// the left player.
    pub open spec fn wf(self) -> bool {
        &&& self.paddle1.wf()
        &&& self.paddle2.wf()
        &&& self.tally.wf()
        &&& self.score_text@.len() == 2
        &&& self.score_text@[0].owner == Player::Player1
        &&& self.score_text@[1].owner == Player::Player2
    }

    /// The scene as spawned at startup: paddles centered, ball at the
    /// field center served toward the right and untinted, both counters
    /// at zero, both display slots showing the rendering of zero.
    pub fn new() -> (g: GameState)
        ensures
            g.wf(),
            g.paddle1.y == 0 && g.paddle2.y == 0,
            g.ball.x == 0 && g.ball.y == 0,
            g.ball.velocity == Player::Player1.spec_start_speed(),
            g.ball.tint == crate::player::TintColor::White,
            forall|p: Player| #[trigger] g.tally.spec_get(p) == 0,
            g.score_text@[0].value@ == spec_decimal(0),
            g.score_text@[1].value@ == spec_decimal(0),
    {
        let mut score_text: Vec<ScoreText> = Vec::new();
        score_text.push(ScoreText { owner: Player::Player1, value: decimal_string(0) });
        score_text.push(ScoreText { owner: Player::Player2, value: decimal_string(0) });
        GameState {
            paddle1: Paddle { y: 0 },
            paddle2: Paddle { y: 0 },
            ball: Ball::new(),
            tally: Score::new(),
            score_text,
        }
    }

    /// Run one frame of gameplay. The paddles move and stay clamped to
    /// the field; scores grow by exactly the frame's goals and never
    /// decrease; the ball takes the tint of the first paddle it overlaps;
    /// a goal or a manual reset recenters the ball with the server's
    /// preset velocity; and each display slot that gained shows its
    /// counter's new rendering.
    pub fn step(&mut self, input: FrameInput, contacts: &Vec<Contact>)
        requires
            old(self).wf(),
            old(self).tally.spec_get(Player::Player1) + contacts@.len() <= i32::MAX,
            old(self).tally.spec_get(Player::Player2) + contacts@.len() <= i32::MAX,
        ensures
            final(self).wf(),
            final(self).paddle1.y as int == spec_move(
                old(self).paddle1.y as int,
                input.p1_up,
                input.p1_down,
                input.dt_ms,
            ),
            final(self).paddle2.y as int == spec_move(
                old(self).paddle2.y as int,
                input.p2_up,
                input.p2_down,
                input.dt_ms,
            ),
            forall|p: Player| #[trigger] final(self).tally.spec_get(p)
                == old(self).tally.spec_get(p) + frame_gains(
                    input.space_just_pressed,
                    contacts@,
                    p,
                ),
            forall|p: Player| #[trigger] final(self).tally.spec_get(p)
                >= old(self).tally.spec_get(p),
            final(self).ball.tint == (match first_paddle_owner(contacts@) {
                Some(p) => p.spec_get_color(),
                None => old(self).ball.tint,
            }),
            input.space_just_pressed ==> final(self).ball.x == 0 && final(self).ball.y == 0 && (
            final(self).ball.velocity == Player::Player1.spec_start_speed()
                || final(self).ball.velocity == Player::Player2.spec_start_speed()),
            !input.space_just_pressed ==> (match last_server(goal_events(contacts@)) {
                Some(p) => final(self).ball.x == 0 && final(self).ball.y == 0
                    && final(self).ball.velocity == p.spec_start_speed(),
                None => final(self).ball.x == old(self).ball.x && final(self).ball.y
                    == old(self).ball.y && final(self).ball.velocity == old(self).ball.velocity,
            }),
            final(self).score_text@.len() == 2,
            forall|i: int|
                0 <= i < 2 ==> (#[trigger] final(self).score_text@[i]).owner
                    == old(self).score_text@[i].owner,
            forall|i: int|
                0 <= i < 2 ==> (#[trigger] final(self).score_text@[i]).value@ == (if frame_gains(
                    input.space_just_pressed,
                    contacts@,
                    old(self).score_text@[i].owner,
                ) > 0 {
                    spec_decimal(
                        (old(self).tally.spec_get(old(self).score_text@[i].owner) + frame_gains(
                            input.space_just_pressed,
                            contacts@,
                            old(self).score_text@[i].owner,
                        )) as nat,
                    )
                } else {
                    old(self).score_text@[i].value@
                }),
    {
        move_paddle(&mut self.paddle1, input.p1_up, input.p1_down, input.dt_ms);
        move_paddle(&mut self.paddle2, input.p2_up, input.p2_down, input.dt_ms);
        let events = detect_reset(input.space_just_pressed, contacts);
        proof {
            if input.space_just_pressed {
                assert(events@.drop_last() =~= Seq::<GameEvents>::empty());
                assert(events@.last() == events@[0]);
                assert forall|p: Player| gains(events@, p) == 0 by {
                    assert(gains(Seq::<GameEvents>::empty(), p) == 0);
                    assert(events@[0] != GameEvents::GainPoint(p));
                }
            } else {
                assert forall|p: Player| #[trigger] gains(events@, p) <= contacts@.len() by {
                    lemma_goal_gains_bound(contacts@, p);
                }
            }
        }
        ball_hit(&mut self.ball, contacts);
        reset_ball(&mut self.ball, &events);
        score(&events, &mut self.score_text, &mut self.tally);
        proof {
            assert(is_first_for_owner(old(self).score_text@, 0));
            assert(is_first_for_owner(old(self).score_text@, 1));
        }
    }
}

} // verus!
