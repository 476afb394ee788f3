use vstd::prelude::*;

use crate::actor::{create_bullet, spec_bullet, spec_sub_life, Actor};
use crate::actor_type::ActorType;
use crate::pattern::Volley;
use crate::timer::{count_down, spec_count_down, HALF_SECOND_MICROS};

verus! {

/// Time a group waits after a volley before it may fire again.
pub const SHOT_CADENCE_MICROS: i64 = HALF_SECOND_MICROS;

/// The volley that a group led by an actor of this tag fires, if any.
pub open spec fn spec_volley_of(tag: ActorType) -> Option<Volley> {
    match tag {
        ActorType::Player => Some(Volley::PlayerCone),
        ActorType::Enemy => Some(Volley::EnemyRing),
        _ => None,
    }
}

/// Shots one tick older: each has one tick less to live.
pub open spec fn spec_aged<B>(shots: Seq<Actor<B>>) -> Seq<Actor<B>> {
    shots.map_values(|s: Actor<B>| s.with_life(spec_sub_life(s.life, 1)))
}

/// The shots that survive a clean-up, in order: those inside the window
/// (`inside[k]` for the `k`-th) with ticks left to live.
pub open spec fn spec_kept<B>(shots: Seq<Actor<B>>, inside: Seq<bool>) -> Seq<Actor<B>>
    decreases shots.len(),
{
    if shots.len() == 0 {
        Seq::empty()
    } else {
        let rest = spec_kept(shots.drop_last(), inside.take(shots.len() - 1));
        if inside[shots.len() - 1] && shots.last().life > 0 {
            rest.push(shots.last())
        } else {
            rest
        }
    }
}

/// After a clean-up every shot left has ticks to live and was inside the
/// window; in particular a shot whose last tick has just run out is gone,
/// wherever it is.
pub proof fn lemma_kept_are_live<B>(shots: Seq<Actor<B>>, inside: Seq<bool>)
    requires
        inside.len() == shots.len(),
    ensures
        forall|k: int|
            0 <= k < spec_kept(shots, inside).len() ==> (#[trigger] spec_kept(shots, inside)[k]).life > 0,
        forall|k: int|
            0 <= k < spec_kept(shots, inside).len() ==> exists|j: int|
                0 <= j < shots.len() && inside[j] && shots[j] == #[trigger] spec_kept(shots, inside)[k],
        spec_kept(shots, inside).len() <= shots.len(),
    decreases shots.len(),
{
    if shots.len() > 0 {
        let n = shots.len() - 1;
        lemma_kept_are_live(shots.drop_last(), inside.take(n));
        let rest = spec_kept(shots.drop_last(), inside.take(n));
        assert forall|k: int| 0 <= k < rest.len() implies exists|j: int|
            0 <= j < shots.len() && inside[j] && shots[j] == #[trigger] rest[k] by {
            let j = choose|j: int|
                0 <= j < shots.drop_last().len() && inside.take(n)[j] && shots.drop_last()[j]
                    == rest[k];
            assert(shots[j] == rest[k]);
        }
        if inside[n] && shots.last().life > 0 {
            assert(spec_kept(shots, inside) == rest.push(shots.last()));
            assert forall|k: int| 0 <= k < rest.len() + 1 implies exists|j: int|
                0 <= j < shots.len() && inside[j] && shots[j] == #[trigger] rest.push(
                    shots.last(),
                )[k] by {
                if k == rest.len() {
                    assert(shots[n] == rest.push(shots.last())[k]);
                } else {
                    assert(rest.push(shots.last())[k] == rest[k]);
                }
            }
        }
    }
}

/// A shot with one tick left to live, once a tick has run, is dropped by the
/// next clean-up even if it is still inside the window.
pub proof fn lemma_last_tick_pruned<B>(shots: Seq<Actor<B>>, inside: Seq<bool>, k: int)
    requires
        inside.len() == shots.len(),
        0 <= k < shots.len(),
        shots[k].life == 1,
    ensures
        spec_aged(shots)[k].life == 0,
        !spec_kept(spec_aged(shots), inside).contains(spec_aged(shots)[k]),
{
    lemma_kept_are_live(spec_aged(shots), inside);
}

/// Bullets around the given bodies, in order.
pub open spec fn spec_bullets<B>(bodies: Seq<B>) -> Seq<Actor<B>> {
    bodies.map_values(|b: B| spec_bullet(b))
}

/// One actor, the shots it has fired that are still flying, and the
/// countdown until it may fire again (microseconds; it may fire once the
/// countdown is below zero).
#[derive(Debug)]
pub struct ActorState<B> {
    pub actor: Actor<B>,
    pub shots: Vec<Actor<B>>,
    pub shot_timeout: i64,
}

impl<B> ActorState<B> {
    /// Whether this is a group around `actor` that has not done anything yet.
    pub open spec fn is_fresh(self, actor: Actor<B>) -> bool {
        &&& self.actor == actor
        &&& self.shots@ == Seq::<Actor<B>>::empty()
        &&& self.shot_timeout == 0
    }

    /// A group around `actor`, with no shots and ready to fire after its
    /// first tick.
    pub fn new(actor: Actor<B>) -> (r: Self)
        ensures
            r.is_fresh(actor),
    {
        ActorState { actor, shots: Vec::new(), shot_timeout: 0 }
    }

    pub fn get_actor(&self) -> (r: &Actor<B>)
        ensures
            *r == self.actor,
    {
        &self.actor
    }

    pub fn get_mut_actor(&mut self) -> (r: &mut Actor<B>)
        ensures
            *r == old(self).actor,
            final(self).actor == *final(r),
            final(self).shots@ == old(self).shots@,
            final(self).shot_timeout == old(self).shot_timeout,
    {
        &mut self.actor
    }

    pub fn get_shots(&self) -> (r: &Vec<Actor<B>>)
        ensures
            r@ == self.shots@,
    {
        &self.shots
    }

    pub fn get_mut_shots(&mut self) -> (r: &mut Vec<Actor<B>>)
        ensures
            r@ == old(self).shots@,
            final(self).shots@ == final(r)@,
            final(self).actor == old(self).actor,
            final(self).shot_timeout == old(self).shot_timeout,
    {
        &mut self.shots
    }

    pub fn get_shot_timeout(&self) -> (r: i64)
        ensures
            r == self.shot_timeout,
    {
        self.shot_timeout
    }

    /// The volley this group fires: the player's forward cone, an enemy's
    /// ring, nothing for any other tag.
    pub fn volley(&self) -> (r: Option<Volley>)
        ensures
            r == spec_volley_of(self.actor.tag),
    {
        match self.actor.get_tag() {
            ActorType::Player => Some(Volley::PlayerCone),
            ActorType::Enemy => Some(Volley::EnemyRing),
            _ => None,
        }
    }

    /// The volley to fire now, if `requested` and the cadence allows it.
    pub fn wants_fire(&self, requested: bool) -> (r: Option<Volley>)
        ensures
            r == if requested && self.shot_timeout < 0 {
                spec_volley_of(self.actor.tag)
            } else {
                None
            },
    {
        if requested && self.shot_timeout < 0 {
            self.volley()
        } else {
            None
        }
    }

    /// Fires a volley whose bullets sit around `bodies`, one body for each
    /// bullet of `volley()` in its order: a player (five-bullet cone) or an
    /// enemy (seven-bullet ring) restarts its cadence and adds the bullets
    /// after its other shots; any other group does nothing.
    pub fn fire_shot(&mut self, bodies: Vec<B>)
        requires
            spec_volley_of(old(self).actor.tag) is Some ==> bodies@.len() == spec_volley_of(
                old(self).actor.tag,
            )->0.spec_count(),
        ensures
            final(self).actor == old(self).actor,
            spec_volley_of(old(self).actor.tag) is Some ==> {
                &&& final(self).shot_timeout == SHOT_CADENCE_MICROS
                &&& final(self).shots@ == old(self).shots@ + spec_bullets(bodies@)
            },
            spec_volley_of(old(self).actor.tag) is None ==> {
                &&& final(self).shot_timeout == old(self).shot_timeout
                &&& final(self).shots@ == old(self).shots@
            },
    {
        if self.volley().is_some() {
            self.shot_timeout = SHOT_CADENCE_MICROS;
            let mut bodies = bodies;
            let mut fresh: Vec<Actor<B>> = Vec::new();
            let ghost all = bodies@;
            while bodies.len() > 0
                invariant
                    fresh@ + spec_bullets(bodies@) == spec_bullets(all),
                decreases bodies@.len(),
            {
                let ghost before = bodies@;
                let b = bodies.remove(0);
                assert(spec_bullets(before) =~= seq![spec_bullet(b)] + spec_bullets(bodies@));
                fresh.push(create_bullet(b));
                assert(fresh@ + spec_bullets(bodies@) =~= spec_bullets(all));
            }
            assert(fresh@ =~= spec_bullets(all)) by {
                assert(spec_bullets(bodies@) =~= Seq::<Actor<B>>::empty());
                assert(fresh@ + spec_bullets(bodies@) =~= fresh@);
            }
            self.shots.append(&mut fresh);
        }
    }

    /// Resolves a run of projectiles against this group's actor, in order.
    pub fn handle_hits(&mut self, overlaps: &Vec<bool>)
        ensures
            final(self).actor == old(self).actor.after_hits(overlaps@),
            final(self).shots@ == old(self).shots@,
            final(self).shot_timeout == old(self).shot_timeout,
    {
        self.actor.handle_actor_collisions(overlaps);
    }

    /// Lets `amount` microseconds pass on the firing cadence.
    pub fn dec_shot_timeout(&mut self, amount: i64)
        ensures
            final(self).shot_timeout == spec_count_down(old(self).shot_timeout, amount),
            final(self).actor == old(self).actor,
            final(self).shots@ == old(self).shots@,
    {
        self.shot_timeout = count_down(self.shot_timeout, amount);
    }

    /// The counting half of a tick of `seconds` microseconds: every shot has
    /// one tick less to live, and the firing cadence and the actor's
    /// invulnerability run down. Moving the bodies is the caller's part.
    pub fn update(&mut self, seconds: i64)
        ensures
            final(self).shots@ == spec_aged(old(self).shots@),
            final(self).shot_timeout == spec_count_down(old(self).shot_timeout, seconds),
            final(self).actor == old(self).actor.with_collision_timeout(
                spec_count_down(old(self).actor.collision_timeout, seconds),
            ),
    {
        let mut i: usize = 0;
        while i < self.shots.len()
            invariant
                i <= self.shots@.len(),
                self.shots@.len() == old(self).shots@.len(),
                self.actor == old(self).actor,
                self.shot_timeout == old(self).shot_timeout,
                forall|j: int|
                    0 <= j < i ==> self.shots@[j] == spec_aged(old(self).shots@)[j],
                forall|j: int| i <= j < self.shots@.len() ==> self.shots@[j] == old(self).shots@[j],
            decreases self.shots@.len() - i,
        {
            self.shots[i].dec_life(1);
            i = i + 1;
        }
        assert(self.shots@ =~= spec_aged(old(self).shots@));
        self.dec_shot_timeout(seconds);
        self.actor.dec_collision_timeout(seconds);
    }

    /// Drops the shots that have left the window (`inside[k]` is false for
    /// the `k`-th) or have no ticks left to live; the others keep their order.
    pub fn clear_dead_stuff(&mut self, inside: &Vec<bool>)
        requires
            inside@.len() == old(self).shots@.len(),
        ensures
            final(self).shots@ == spec_kept(old(self).shots@, inside@),
            final(self).actor == old(self).actor,
            final(self).shot_timeout == old(self).shot_timeout,
    {
        let ghost all = self.shots@;
        let n = self.shots.len();
        let mut rest: Vec<Actor<B>> = Vec::new();
        core::mem::swap(&mut self.shots, &mut rest);
        let mut k: usize = 0;
        while rest.len() > 0
            invariant
                k <= all.len(),
                n == all.len(),
                inside@.len() == all.len(),
                rest@ == all.skip(k as int),
                self.shots@ == spec_kept(all.take(k as int), inside@.take(k as int)),
                self.actor == old(self).actor,
                self.shot_timeout == old(self).shot_timeout,
            decreases rest@.len(),
        {
            assert(rest@.len() == all.len() - k);
            let s = rest.remove(0);
            assert(s == all[k as int]);
            assert(rest@ =~= all.skip(k as int + 1));
            assert(all.take(k as int + 1).drop_last() =~= all.take(k as int));
            assert(inside@.take(k as int + 1).take(k as int) =~= inside@.take(k as int));
            if inside[k] && s.get_life() > 0 {
                self.shots.push(s);
            }
            k = k + 1;
        }
        assert(all.take(k as int) =~= all);
        assert(inside@.take(k as int) =~= inside@);
    }
}

} // verus!
