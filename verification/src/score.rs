//! The score tally, the on-screen score texts, and the system that drains
//! the frame's point-gain events into both.

use vstd::prelude::*;

use crate::digits::{decimal_string, spec_decimal};
use crate::events::GameEvents;
use crate::player::Player;

verus! {

/// One score counter per player. Counters start at zero, never go
/// negative, and never decrease.
#[derive(Clone, Copy, PartialEq, Eq, Structural, Debug)]
pub struct Score {
    pub player1: i32,
    pub player2: i32,
}

impl Score {
    /// The counter of one player, as a mathematical integer.
    pub open spec fn spec_get(self, p: Player) -> int {
        match p {
            Player::Player1 => self.player1 as int,
            Player::Player2 => self.player2 as int,
        }
    }

    /// The score invariant: no counter is ever negative.
    pub open spec fn wf(self) -> bool {
        self.player1 >= 0 && self.player2 >= 0
    }

    /// A fresh tally: both counters at zero.
    pub fn new() -> (s: Score)
        ensures
            s.wf(),
            forall|p: Player| #[trigger] s.spec_get(p) == 0,
    {
        Score { player1: 0, player2: 0 }
    }

    /// Read one player's counter.
    pub fn get(&self, p: Player) -> (n: i32)
        ensures
            n as int == self.spec_get(p),
    {
        match p {
            Player::Player1 => self.player1,
            Player::Player2 => self.player2,
        }
    }

    /// Add one point to the named player's counter; the other counter is
    /// untouched.
    pub fn add_point(&mut self, p: Player)
        requires
            old(self).spec_get(p) < i32::MAX,
        ensures
            final(self).spec_get(p) == old(self).spec_get(p) + 1,
            forall|q: Player| q != p ==> #[trigger] final(self).spec_get(q) == old(self).spec_get(
                q,
            ),
            old(self).wf() ==> final(self).wf(),
    {
        match p {
            Player::Player1 => {
                self.player1 = self.player1 + 1;
            },
            Player::Player2 => {
                self.player2 = self.player2 + 1;
            },
        }
    }
}

/// One slot of the score display: the owning player and the text shown.
#[derive(Debug)]
pub struct ScoreText {
    pub owner: Player,
    pub value: String,
}

/// How many points the named player gains from one event list.
pub open spec fn gains(s: Seq<GameEvents>, p: Player) -> nat
    decreases s.len(),
{
    if s.len() == 0 {
        0
    } else {
        gains(s.drop_last(), p) + (if s.last() == GameEvents::GainPoint(p) {
            1nat
        } else {
            0nat
        })
    }
}

/// Whether index `i` is the first slot of its owner in the display list:
/// the slot a linear scan for that owner finds.
pub open spec fn is_first_for_owner(s: Seq<ScoreText>, i: int) -> bool {
    0 <= i < s.len() && (forall|j: int| 0 <= j < i ==> (#[trigger] s[j]).owner != s[i].owner)
}

proof fn lemma_gains_take_step(s: Seq<GameEvents>, p: Player, k: int)
    requires
        0 <= k < s.len(),
    ensures
        gains(s.take(k + 1), p) == gains(s.take(k), p) + (if s[k] == GameEvents::GainPoint(p) {
            1nat
        } else {
            0nat
        }),
{
    assert(s.take(k + 1).drop_last() =~= s.take(k));
    assert(s.take(k + 1).last() == s[k]);
}

proof fn lemma_gains_take_le(s: Seq<GameEvents>, p: Player, k: int)
    requires
        0 <= k <= s.len(),
    ensures
        gains(s.take(k), p) <= gains(s, p),
    decreases s.len() - k,
{
    if k == s.len() {
        assert(s.take(k) =~= s);
    } else {
        lemma_gains_take_step(s, p, k);
        lemma_gains_take_le(s, p, k + 1);
    }
}

fn first_index_of_owner(score_text: &Vec<ScoreText>, p: Player) -> (r: Option<usize>)
    ensures
        match r {
            Some(j) => j < score_text@.len() && score_text@[j as int].owner == p
                && is_first_for_owner(score_text@, j as int),
            None => forall|i: int|
                0 <= i < score_text@.len() ==> (#[trigger] score_text@[i]).owner != p,
        },
{
    let mut j: usize = 0;
    while j < score_text.len()
        invariant
            j <= score_text@.len(),
            forall|k: int| 0 <= k < j ==> (#[trigger] score_text@[k]).owner != p,
        decreases score_text@.len() - j,
    {
        if score_text[j].owner == p {
            return Some(j);
        }
        j = j + 1;
    }
    None
}

/// Drain one frame's events into the tally and the display. Each
/// point-gain event adds one point to the named player's counter and
/// rewrites that player's first display slot with the counter's new
/// decimal rendering; reset events and the other player's state are
/// untouched. So after the whole list, each counter has grown by exactly
/// that player's number of point-gain events, and each owning slot shows
/// its final counter.
pub fn score(events: &Vec<GameEvents>, score_text: &mut Vec<ScoreText>, tally: &mut Score)
    requires
        old(tally).wf(),
        old(tally).spec_get(Player::Player1) + gains(events@, Player::Player1) <= i32::MAX,
        old(tally).spec_get(Player::Player2) + gains(events@, Player::Player2) <= i32::MAX,
    ensures
        final(tally).wf(),
        forall|p: Player| #[trigger] final(tally).spec_get(p) == old(tally).spec_get(p) + gains(
            events@,
            p,
        ),
        forall|p: Player| #[trigger] final(tally).spec_get(p) >= old(tally).spec_get(p),
        final(score_text)@.len() == old(score_text)@.len(),
        forall|i: int|
            0 <= i < old(score_text)@.len() ==> (#[trigger] final(score_text)@[i]).owner == old(
                score_text,
            )@[i].owner,
        forall|i: int|
            0 <= i < old(score_text)@.len() ==> (#[trigger] final(score_text)@[i]).value@ == (
            if is_first_for_owner(old(score_text)@, i) && gains(
                events@,
                old(score_text)@[i].owner,
            ) > 0 {
                spec_decimal(
                    (old(tally).spec_get(old(score_text)@[i].owner) + gains(
                        events@,
                        old(score_text)@[i].owner,
                    )) as nat,
                )
            } else {
                old(score_text)@[i].value@
            }),
{
    let ghost orig_texts: Seq<ScoreText> = score_text@;
    let ghost orig_tally: Score = *tally;
    let mut k: usize = 0;
    while k < events.len()
        invariant
            k <= events@.len(),
            *old(tally) == orig_tally,
            old(score_text)@ == orig_texts,
            orig_tally.wf(),
            orig_tally.spec_get(Player::Player1) + gains(events@, Player::Player1) <= i32::MAX,
            orig_tally.spec_get(Player::Player2) + gains(events@, Player::Player2) <= i32::MAX,
            tally.wf(),
            forall|p: Player| #[trigger] tally.spec_get(p) == orig_tally.spec_get(p) + gains(
                events@.take(k as int),
                p,
            ),
            score_text@.len() == orig_texts.len(),
            forall|i: int|
                0 <= i < orig_texts.len() ==> (#[trigger] score_text@[i]).owner
                    == orig_texts[i].owner,
            forall|i: int|
                0 <= i < orig_texts.len() ==> (#[trigger] score_text@[i]).value@ == (
                if is_first_for_owner(orig_texts, i) && gains(
                    events@.take(k as int),
                    orig_texts[i].owner,
                ) > 0 {
                    spec_decimal(
                        (orig_tally.spec_get(orig_texts[i].owner) + gains(
                            events@.take(k as int),
                            orig_texts[i].owner,
                        )) as nat,
                    )
                } else {
                    orig_texts[i].value@
                }),
        decreases events@.len() - k,
    {
        match events[k] {
            GameEvents::GainPoint(p) => {
                proof {
                    lemma_gains_take_step(events@, p, k as int);
                    lemma_gains_take_le(events@, p, k as int + 1);
                    assert forall|q: Player| q != p implies gains(events@.take(k as int + 1), q)
                        == gains(events@.take(k as int), q) by {
                        lemma_gains_take_step(events@, q, k as int);
                    }
                }
                tally.add_point(p);
                let val = tally.get(p);
                let rendered = decimal_string(val as u32);
                let ghost rendered_view: Seq<char> = rendered@;
                proof {
                    assert(val >= 0);
                    assert(rendered_view == spec_decimal(
                        (orig_tally.spec_get(p) + gains(events@.take(k as int + 1), p)) as nat,
                    ));
                }
                let ghost pre: Seq<ScoreText> = score_text@;
                match first_index_of_owner(score_text, p) {
                    Some(j) => {
                        let owner = score_text[j].owner;
                        score_text.set(j, ScoreText { owner, value: rendered });
                        proof {
                            assert(is_first_for_owner(pre, j as int));
                            assert forall|jj: int| 0 <= jj < j implies orig_texts[jj].owner
                                != orig_texts[j as int].owner by {
                                assert(pre[jj].owner == orig_texts[jj].owner);
                                assert(pre[j as int].owner == orig_texts[j as int].owner);
                            }
                            assert(is_first_for_owner(orig_texts, j as int));
                            assert(orig_texts[j as int].owner == p);
                            assert(score_text@[j as int].value@ == rendered_view);
                            assert(forall|i: int|
                                0 <= i < pre.len() && i != j ==> score_text@[i] == #[trigger] pre[i]);
                        }
                    },
                    None => {},
                }
            },
            GameEvents::ResetBall(_) => {
                proof {
                    assert forall|q: Player|
                        gains(events@.take(k as int + 1), q) == gains(
                            events@.take(k as int),
                            q,
                        ) by {
                        lemma_gains_take_step(events@, q, k as int);
                    }
                }
            },
        }
        k = k + 1;
    }
    proof {
        assert(events@.take(events@.len() as int) =~= events@);
    }
}

} // verus!
