use vstd::prelude::*;

use crate::actor_type::ActorType;
use crate::timer::{
    count_down, restart, spec_count_down, spec_restart, HALF_SECOND_MICROS, NEVER_MICROS,
};

verus! {

/// Hit points a new player starts with.
pub const PLAYER_LIFE: i32 = 10;

/// Ticks a new bullet lives: as many as the counter holds.
pub const BULLET_LIFE: i32 = i32::MAX;

/// `l - amount`, held within the range of `i32`.
pub open spec fn spec_sub_life(l: i32, amount: i32) -> i32 {
    let d = l - amount;
    if d < i32::MIN {
        i32::MIN
    } else if d > i32::MAX {
        i32::MAX
    } else {
        d as i32
    }
}

/// One simulated entity: its tag, its geometric body `B` (opaque here), a
/// counter that is hit points for players and enemies and ticks left to live
/// for bullets, and an invulnerability countdown in microseconds with the
/// value it restarts at after a hit.
///
/// Damage lands only while the countdown is below zero. A new actor starts
/// at zero, and a countdown at zero still runs, so a new actor can be hit
/// from its second tick on.
#[derive(Clone, Copy, Debug)]
pub struct Actor<B> {
    pub tag: ActorType,
    pub body: B,
    pub life: i32,
    pub collision_timeout: i64,
    pub max_collision_timeout: i64,
}

impl<B> Actor<B> {
    /// The same actor with another counter value.
    pub open spec fn with_life(self, life: i32) -> Self {
        Actor { life, ..self }
    }

    /// The same actor with another invulnerability countdown.
    pub open spec fn with_collision_timeout(self, t: i64) -> Self {
        Actor { collision_timeout: t, ..self }
    }

    /// Whether a projectile whose hit-box overlaps this actor's does damage.
    pub open spec fn spec_vulnerable(&self) -> bool {
        self.collision_timeout < 0
    }

    /// The actor after one projectile has been checked against it.
    pub open spec fn after_hit(self, overlapping: bool) -> Self {
        if overlapping && self.spec_vulnerable() {
            self.with_collision_timeout(self.max_collision_timeout).with_life(
                spec_sub_life(self.life, 1),
            )
        } else {
            self
        }
    }

    /// The actor after projectiles have been checked against it one by one,
    /// `overlaps[k]` telling whether the `k`-th meets it.
    pub open spec fn after_hits(self, overlaps: Seq<bool>) -> Self
        decreases overlaps.len(),
    {
        if overlaps.len() == 0 {
            self
        } else {
            self.after_hits(overlaps.drop_last()).after_hit(overlaps.last())
        }
    }

    /// Checking two runs of projectiles is checking the one run after the other.
    pub proof fn lemma_after_hits_append(self, a: Seq<bool>, b: Seq<bool>)
        ensures
            self.after_hits(a + b) == self.after_hits(a).after_hits(b),
        decreases b.len(),
    {
        if b.len() == 0 {
            assert(a + b =~= a);
        } else {
            assert((a + b).drop_last() =~= a + b.drop_last());
            self.lemma_after_hits_append(a, b.drop_last());
        }
    }

    /// A vulnerable actor that a projectile overlaps loses exactly one hit
    /// point (the counter not being at its lowest already) and its countdown
    /// is set to its restart value; when that value is not negative, a second
    /// projectile checked right after, overlapping or not, changes nothing.
    pub proof fn lemma_hit_then_invulnerable(self, second: bool)
        requires
            self.spec_vulnerable(),
            self.life > i32::MIN,
        ensures
            self.after_hit(true).life == self.life - 1,
            self.after_hit(true).collision_timeout == self.max_collision_timeout,
            self.max_collision_timeout >= 0 ==> self.after_hit(true).after_hit(second)
                == self.after_hit(true),
    {
    }

    /// A new actor, its invulnerability countdown at zero.
    pub fn new(tag: ActorType, body: B, life: i32, max_collision_timeout: i64) -> (r: Self)
        ensures
            r.tag == tag,
            r.body == body,
            r.life == life,
            r.collision_timeout == 0,
            r.max_collision_timeout == max_collision_timeout,
    {
        Actor { tag, body, life, collision_timeout: 0, max_collision_timeout }
    }

    pub fn get_tag(&self) -> (r: ActorType)
        ensures
            r == self.tag,
    {
        self.tag
    }

    pub fn get_body(&self) -> (r: &B)
        ensures
            *r == self.body,
    {
        &self.body
    }

    /// The body, for the caller to move.
    pub fn get_mut_body(&mut self) -> (r: &mut B)
        ensures
            *r == old(self).body,
            *final(self) == (Actor { body: *final(r), ..*old(self) }),
    {
        &mut self.body
    }

    pub fn get_life(&self) -> (r: i32)
        ensures
            r == self.life,
    {
        self.life
    }

    pub fn get_collision_timeout(&self) -> (r: i64)
        ensures
            r == self.collision_timeout,
    {
        self.collision_timeout
    }

    pub fn get_max_collision_timeout(&self) -> (r: i64)
        ensures
            r == self.max_collision_timeout,
    {
        self.max_collision_timeout
    }

    /// Takes `amount` off the counter, whatever its sign; the counter has no
    /// floor of its own and stops only at the bounds of `i32`.
    pub fn dec_life(&mut self, amount: i32)
        ensures
            *final(self) == old(self).with_life(spec_sub_life(old(self).life, amount)),
    {
        let d: i64 = self.life as i64 - amount as i64;
        if d < i32::MIN as i64 {
            self.life = i32::MIN;
        } else if d > i32::MAX as i64 {
            self.life = i32::MAX;
        } else {
            self.life = d as i32;
        }
    }

    /// Lets `amount` microseconds pass on the invulnerability countdown.
    pub fn dec_collision_timeout(&mut self, amount: i64)
        ensures
            *final(self) == old(self).with_collision_timeout(
                spec_count_down(old(self).collision_timeout, amount),
            ),
    {
        self.collision_timeout = count_down(self.collision_timeout, amount);
    }

    /// Restarts the invulnerability countdown at `amount` microseconds.
    pub fn set_collision_timeout(&mut self, amount: i64)
        ensures
            *final(self) == old(self).with_collision_timeout(
                spec_restart(old(self).collision_timeout, amount),
            ),
    {
        self.collision_timeout = restart(self.collision_timeout, amount);
    }

    /// Resolves one projectile against this actor. `overlapping` is whether
    /// the two hit-boxes meet: the projectile lies closer than half the norm
    /// of this actor's half-extents plus the norm of its own. A hit while
    /// vulnerable costs one hit point and sets the invulnerability countdown
    /// to the restart value, whatever its sign; anything else changes nothing.
    pub fn handle_actor_collision(&mut self, overlapping: bool)
        ensures
            *final(self) == old(self).after_hit(overlapping),
    {
        if overlapping && self.collision_timeout < 0 {
            self.collision_timeout = self.max_collision_timeout;
            self.dec_life(1);
        }
    }

    /// Resolves a run of projectiles against this actor in order,
    /// `overlaps[k]` telling whether the `k`-th meets it.
    pub fn handle_actor_collisions(&mut self, overlaps: &Vec<bool>)
        ensures
            *final(self) == old(self).after_hits(overlaps@),
    {
        let mut k: usize = 0;
        while k < overlaps.len()
            invariant
                k <= overlaps@.len(),
                *self == old(self).after_hits(overlaps@.take(k as int)),
            decreases overlaps@.len() - k,
        {
            assert(overlaps@.take(k as int + 1).drop_last() =~= overlaps@.take(k as int));
            self.handle_actor_collision(overlaps[k]);
            k = k + 1;
        }
        assert(overlaps@.take(k as int) =~= overlaps@);
    }
}

/// The player's actor around `body`.
pub fn create_player<B>(body: B) -> (r: Actor<B>)
    ensures
        r.tag == ActorType::Player,
        r.body == body,
        r.life == PLAYER_LIFE,
        r.collision_timeout == 0,
        r.max_collision_timeout == HALF_SECOND_MICROS,
{
    Actor::new(ActorType::Player, body, PLAYER_LIFE, HALF_SECOND_MICROS)
}

/// The bullet that `create_bullet` makes around `body`.
pub open spec fn spec_bullet<B>(body: B) -> Actor<B> {
    Actor {
        tag: ActorType::Bullet,
        body,
        life: BULLET_LIFE,
        collision_timeout: 0,
        max_collision_timeout: NEVER_MICROS,
    }
}

/// A bullet around `body`. It lives as long as its counter allows; it is
/// never a defender, so its restart value is simply the longest there is.
pub fn create_bullet<B>(body: B) -> (r: Actor<B>)
    ensures
        r == spec_bullet(body),
{
    Actor::new(ActorType::Bullet, body, BULLET_LIFE, NEVER_MICROS)
}

} // verus!
