//! Game events and the per-frame detection pass that emits them from the
//! ball's current overlap set, or from a manual reset key press.

use vstd::prelude::*;

use crate::player::Player;
use crate::rng::random_bool;

verus! {

/// The events the gameplay systems exchange within one frame.
#[derive(Clone, Copy, PartialEq, Eq, Structural, Debug)]
pub enum GameEvents {
    /// Teleport the ball to the field center and serve for the named player.
    ResetBall(Player),
    /// Increment the named player's score.
    GainPoint(Player),
}

/// One entity the physics engine reports as overlapping the ball this
/// frame. A goal sensor carries the player who scores when the ball
/// reaches it (the player opposite that side's paddle).
#[derive(Clone, Copy, PartialEq, Eq, Structural, Debug)]
pub enum Contact {
    /// The paddle owned by the named player.
    Paddle(Player),
    /// The goal sensor whose named player scores on contact.
    Goal(Player),
    /// A wall or any other entity.
    Other,
}

/// The events emitted for one overlap set: for each goal-sensor contact,
/// in order, a reset event and a point-gain event for the sensor's player.
pub open spec fn goal_events(s: Seq<Contact>) -> Seq<GameEvents>
    decreases s.len(),
{
    if s.len() == 0 {
        Seq::empty()
    } else {
        goal_events(s.drop_last()) + (match s.last() {
            Contact::Goal(p) => seq![GameEvents::ResetBall(p), GameEvents::GainPoint(p)],
            _ => Seq::<GameEvents>::empty(),
        })
    }
}

/// The single event emitted when the named player is chosen to serve.
pub fn serve_event(server: Player) -> (events: Vec<GameEvents>)
    ensures
        events@ == seq![GameEvents::ResetBall(server)],
{
    let mut events: Vec<GameEvents> = Vec::new();
    events.push(GameEvents::ResetBall(server));
    proof {
        assert(events@ =~= seq![GameEvents::ResetBall(server)]);
    }
    events
}

/// One detection pass. A just-pressed reset key wins: it emits a single
/// reset event for a randomly chosen server and nothing else. Otherwise
/// each goal-sensor contact emits a reset event and a point-gain event
/// for the sensor's player, in contact order.
pub fn detect_reset(space_just_pressed: bool, contacts: &Vec<Contact>) -> (events: Vec<GameEvents>)
    ensures
        space_just_pressed ==> events@.len() == 1 && (events@[0] is ResetBall),
        !space_just_pressed ==> events@ == goal_events(contacts@),
{
    if space_just_pressed {
        let heads = random_bool();
        let server = if heads {
            Player::Player1
        } else {
            Player::Player2
        };
        return serve_event(server);
    }
    let mut events: Vec<GameEvents> = Vec::new();
    let mut i: usize = 0;
    while i < contacts.len()
        invariant
            i <= contacts@.len(),
            events@ == goal_events(contacts@.take(i as int)),
        decreases contacts@.len() - i,
    {
        match contacts[i] {
            Contact::Goal(p) => {
                events.push(GameEvents::ResetBall(p));
                events.push(GameEvents::GainPoint(p));
            },
            _ => {},
        }
        proof {
            assert(contacts@.take(i + 1).drop_last() =~= contacts@.take(i as int));
            assert(contacts@.take(i + 1).last() == contacts@[i as int]);
            assert(events@ =~= goal_events(contacts@.take(i + 1)));
        }
        i = i + 1;
    }
    proof {
        assert(contacts@.take(contacts@.len() as int) =~= contacts@);
    }
    events
}

} // verus!
