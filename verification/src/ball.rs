//! Ball state, paddle-contact tinting, and the ball reset that follows a
//! goal or a manual reset.

use vstd::prelude::*;

use crate::events::{Contact, GameEvents};
use crate::player::{Player, TintColor, Velocity};

verus! {

/// The single moving entity: its center position, its linear velocity,
/// and the tint of its sprite.
#[derive(Clone, Copy, PartialEq, Eq, Structural, Debug)]
pub struct Ball {
    pub x: i32,
    pub y: i32,
    pub velocity: Velocity,
    pub tint: TintColor,
}

impl Ball {
    /// A freshly spawned ball: at the field center, served toward the
    /// right at the preset speed, untinted.
    pub fn new() -> (b: Ball)
        ensures
            b.x == 0 && b.y == 0,
            b.velocity == Player::Player1.spec_start_speed(),
            b.tint == TintColor::White,
    {
        Ball { x: 0, y: 0, velocity: Velocity { vx: 100, vy: 0 }, tint: TintColor::White }
    }
}

/// The owner of the first paddle in the overlap set, if any paddle is in it.
pub open spec fn first_paddle_owner(s: Seq<Contact>) -> Option<Player>
    decreases s.len(),
{
    if s.len() == 0 {
        None
    } else {
        match s[0] {
            Contact::Paddle(p) => Some(p),
            _ => first_paddle_owner(s.skip(1)),
        }
    }
}

proof fn lemma_first_paddle_skip(s: Seq<Contact>, i: int)
    requires
        0 <= i <= s.len(),
        forall|k: int| 0 <= k < i ==> !((#[trigger] s[k]) is Paddle),
    ensures
        first_paddle_owner(s.skip(i)) == first_paddle_owner(s),
    decreases i,
{
    if i > 0 {
        lemma_first_paddle_skip(s, i - 1);
        assert(s.skip(i - 1).len() == s.len() - (i - 1));
        assert(s.skip(i - 1)[0] == s[i - 1]);
        assert(!(s[i - 1] is Paddle));
        assert(s.skip(i - 1).skip(1) =~= s.skip(i));
        assert(first_paddle_owner(s.skip(i - 1)) == first_paddle_owner(s.skip(i - 1).skip(1)));
    } else {
        assert(s.skip(0) =~= s);
    }
}

/// Tint the ball with the color of the first paddle found in its overlap
/// set; with no paddle in it, the tint is unchanged. Position and
/// velocity are never touched here.
pub fn ball_hit(ball: &mut Ball, contacts: &Vec<Contact>)
    ensures
        final(ball).tint == (match first_paddle_owner(contacts@) {
            Some(p) => p.spec_get_color(),
            None => old(ball).tint,
        }),
        final(ball).x == old(ball).x,
        final(ball).y == old(ball).y,
        final(ball).velocity == old(ball).velocity,
{
    let mut i: usize = 0;
    while i < contacts.len()
        invariant
            i <= contacts@.len(),
            forall|k: int| 0 <= k < i ==> !((#[trigger] contacts@[k]) is Paddle),
            *ball == *old(ball),
        decreases contacts@.len() - i,
    {
        match contacts[i] {
            Contact::Paddle(p) => {
                ball.tint = p.get_color();
                proof {
                    lemma_first_paddle_skip(contacts@, i as int);
                    assert(contacts@.skip(i as int)[0] == contacts@[i as int]);
                }
                return;
            },
            _ => {},
        }
        i = i + 1;
    }
    proof {
        lemma_first_paddle_skip(contacts@, contacts@.len() as int);
    }
}

/// The server named by the last reset event in the frame's event list,
/// if the list holds any reset event.
pub open spec fn last_server(s: Seq<GameEvents>) -> Option<Player>
    decreases s.len(),
{
    if s.len() == 0 {
        None
    } else {
        match s.last() {
            GameEvents::ResetBall(p) => Some(p),
            GameEvents::GainPoint(_) => last_server(s.drop_last()),
        }
    }
}

/// Apply the frame's reset events to the ball: each reset event teleports
/// it to the field center and gives it the named server's preset serve
/// velocity, so the last reset event in the list decides. The tint is
/// never touched here.
pub fn reset_ball(ball: &mut Ball, events: &Vec<GameEvents>)
    ensures
        match last_server(events@) {
            Some(p) => final(ball).x == 0 && final(ball).y == 0 && final(ball).velocity
                == p.spec_start_speed() && final(ball).tint == old(ball).tint,
            None => *final(ball) == *old(ball),
        },
{
    let mut i: usize = 0;
    while i < events.len()
        invariant
            i <= events@.len(),
            match last_server(events@.take(i as int)) {
                Some(p) => ball.x == 0 && ball.y == 0 && ball.velocity == p.spec_start_speed()
                    && ball.tint == old(ball).tint,
                None => *ball == *old(ball),
            },
        decreases events@.len() - i,
    {
        match events[i] {
            GameEvents::ResetBall(p) => {
                ball.x = 0;
                ball.y = 0;
                ball.velocity = p.start_speed();
            },
            GameEvents::GainPoint(_) => {},
        }
        proof {
            assert(events@.take(i + 1).drop_last() =~= events@.take(i as int));
            assert(events@.take(i + 1).last() == events@[i as int]);
        }
        i = i + 1;
    }
    proof {
        assert(events@.take(events@.len() as int) =~= events@);
    }
}

} // verus!
