use vstd::prelude::*;

use crate::actor::Actor;
use crate::actor_state::{spec_aged, spec_kept, ActorState};
use crate::timer::spec_count_down;

verus! {

/// The runs of a sequence of runs, one after another.
pub open spec fn spec_joined(runs: Seq<Seq<bool>>) -> Seq<bool>
    decreases runs.len(),
{
    if runs.len() == 0 {
        Seq::empty()
    } else {
        spec_joined(runs.drop_last()) + runs.last()
    }
}

/// The actors of the given groups, in order.
pub open spec fn spec_actors<B>(groups: Seq<ActorState<B>>) -> Seq<Actor<B>> {
    groups.map_values(|g: ActorState<B>| g.actor)
}

/// Positions, in order, of the actors that have hit points left.
pub open spec fn spec_alive_indices<B>(actors: Seq<Actor<B>>) -> Seq<int>
    decreases actors.len(),
{
    if actors.len() == 0 {
        Seq::empty()
    } else if actors.last().life > 0 {
        spec_alive_indices(actors.drop_last()).push(actors.len() - 1)
    } else {
        spec_alive_indices(actors.drop_last())
    }
}

/// Every position listed is a position of an actor that is still in play.
pub proof fn lemma_alive_indices<B>(actors: Seq<Actor<B>>)
    ensures
        forall|m: int|
            0 <= m < spec_alive_indices(actors).len() ==> {
                &&& 0 <= #[trigger] spec_alive_indices(actors)[m] < actors.len()
                &&& actors[spec_alive_indices(actors)[m]].life > 0
            },
    decreases actors.len(),
{
    if actors.len() > 0 {
        lemma_alive_indices(actors.drop_last());
    }
}

/// An actor after the counting half of a tick of `dt` microseconds and then
/// the projectiles `hits` checked against it.
pub open spec fn spec_ticked<B>(a: Actor<B>, dt: i64, hits: Seq<bool>) -> Actor<B> {
    a.with_collision_timeout(spec_count_down(a.collision_timeout, dt)).after_hits(hits)
}

/// Shots in flight over all the given groups.
pub open spec fn spec_shot_total<B>(groups: Seq<ActorState<B>>) -> int
    decreases groups.len(),
{
    if groups.len() == 0 {
        0
    } else {
        spec_shot_total(groups.drop_last()) + groups.last().shots@.len()
    }
}

/// `n`, or `usize::MAX` if it is larger.
pub open spec fn spec_capped(n: int) -> int {
    if n > usize::MAX {
        usize::MAX as int
    } else {
        n
    }
}

/// The whole simulation: the player's group and the enemy groups.
#[derive(Debug)]
pub struct MainState<B> {
    pub player_state: ActorState<B>,
    pub enemies_state: Vec<ActorState<B>>,
}

impl<B> MainState<B> {
    /// A simulation with the given player and no enemies yet.
    pub fn new(player: Actor<B>) -> (r: Self)
        ensures
            r.player_state.is_fresh(player),
            r.enemies_state@ == Seq::<ActorState<B>>::empty(),
    {
        MainState { player_state: ActorState::new(player), enemies_state: Vec::new() }
    }

    pub fn get_player_state(&self) -> (r: &ActorState<B>)
        ensures
            *r == self.player_state,
    {
        &self.player_state
    }

    pub fn get_mut_player_state(&mut self) -> (r: &mut ActorState<B>)
        ensures
            *r == old(self).player_state,
            final(self).player_state == *final(r),
            final(self).enemies_state@ == old(self).enemies_state@,
    {
        &mut self.player_state
    }

    pub fn get_enemies_state(&self) -> (r: &Vec<ActorState<B>>)
        ensures
            r@ == self.enemies_state@,
    {
        &self.enemies_state
    }

    pub fn get_mut_enemies_state(&mut self) -> (r: &mut Vec<ActorState<B>>)
        ensures
            r@ == old(self).enemies_state@,
            final(self).enemies_state@ == final(r)@,
            final(self).player_state == old(self).player_state,
    {
        &mut self.enemies_state
    }

    /// Puts each of `enemies` in play, in order, as a new group.
    pub fn add_enemies(&mut self, enemies: Vec<Actor<B>>)
        ensures
            final(self).player_state == old(self).player_state,
            final(self).enemies_state@.len() == old(self).enemies_state@.len()
                + enemies@.len(),
            forall|k: int|
                0 <= k < old(self).enemies_state@.len() ==> final(self).enemies_state@[k]
                    == old(self).enemies_state@[k],
            forall|j: int|
                0 <= j < enemies@.len() ==> (#[trigger] final(self).enemies_state@[old(
                    self).enemies_state@.len() + j]).is_fresh(enemies@[j]),
    {
        let ghost start = self.enemies_state@;
        let ghost all = enemies@;
        let mut rest = enemies;
        let mut j: usize = 0;
        let n = rest.len();
        while rest.len() > 0
            invariant
                j <= n,
                n == all.len(),
                rest@ == all.skip(j as int),
                self.player_state == old(self).player_state,
                self.enemies_state@.len() == start.len() + j,
                forall|k: int| 0 <= k < start.len() ==> self.enemies_state@[k] == start[k],
                forall|i: int|
                    0 <= i < j ==> (#[trigger] self.enemies_state@[start.len() + i]).is_fresh(
                        all[i],
                    ),
            decreases rest@.len(),
        {
            assert(rest@.len() == n - j);
            let e = rest.remove(0);
            assert(e == all[j as int]);
            assert(rest@ =~= all.skip(j as int + 1));
            self.enemies_state.push(ActorState::new(e));
            j = j + 1;
        }
        assert(rest@.len() == n - j);
    }

    /// Commits a loaded catalog: every enemy comes into play, in order, or,
    /// when loading failed, none does and the error is handed back.
    pub fn load_enemies<E>(&mut self, loaded: Result<Vec<Actor<B>>, E>) -> (r: Result<(), E>)
        ensures
            loaded is Err ==> {
                &&& r == Err::<(), E>(loaded->Err_0)
                &&& final(self).player_state == old(self).player_state
                &&& final(self).enemies_state@ == old(self).enemies_state@
            },
            loaded is Ok ==> {
                &&& r is Ok
                &&& final(self).player_state == old(self).player_state
                &&& final(self).enemies_state@.len() == old(self).enemies_state@.len()
                    + loaded->Ok_0@.len()
                &&& forall|k: int|
                    0 <= k < old(self).enemies_state@.len() ==> final(self).enemies_state@[k]
                        == old(self).enemies_state@[k]
                &&& forall|j: int|
                    0 <= j < loaded->Ok_0@.len() ==> (#[trigger] final(self).enemies_state@[old(
                        self).enemies_state@.len() + j]).is_fresh(loaded->Ok_0@[j])
            },
    {
        match loaded {
            Ok(enemies) => {
                self.add_enemies(enemies);
                Ok(())
            },
            Err(e) => Err(e),
        }
    }

    /// The counting half of a tick of `seconds` microseconds, for every group.
    pub fn update(&mut self, seconds: i64)
        ensures
            final(self).enemies_state@.len() == old(self).enemies_state@.len(),
            forall|k: int|
                #![trigger final(self).enemies_state@[k]]
                0 <= k < old(self).enemies_state@.len() ==> {
                    let (a, b) = (old(self).enemies_state@[k], final(self).enemies_state@[k]);
                    &&& b.shots@ == spec_aged(a.shots@)
                    &&& b.shot_timeout == spec_count_down(a.shot_timeout, seconds)
                    &&& b.actor == a.actor.with_collision_timeout(
                        spec_count_down(a.actor.collision_timeout, seconds),
                    )
                },
            ({
                let (a, b) = (old(self).player_state, final(self).player_state);
                &&& b.shots@ == spec_aged(a.shots@)
                &&& b.shot_timeout == spec_count_down(a.shot_timeout, seconds)
                &&& b.actor == a.actor.with_collision_timeout(
                    spec_count_down(a.actor.collision_timeout, seconds),
                )
            }),
    {
        self.player_state.update(seconds);
        let ghost player = self.player_state;
        let mut k: usize = 0;
        while k < self.enemies_state.len()
            invariant
                k <= self.enemies_state@.len(),
                self.enemies_state@.len() == old(self).enemies_state@.len(),
                self.player_state == player,
                forall|i: int|
                    k <= i < self.enemies_state@.len() ==> self.enemies_state@[i]
                        == old(self).enemies_state@[i],
                forall|i: int|
                    #![trigger self.enemies_state@[i]]
                    0 <= i < k ==> {
                        let (a, b) = (old(self).enemies_state@[i], self.enemies_state@[i]);
                        &&& b.shots@ == spec_aged(a.shots@)
                        &&& b.shot_timeout == spec_count_down(a.shot_timeout, seconds)
                        &&& b.actor == a.actor.with_collision_timeout(
                            spec_count_down(a.actor.collision_timeout, seconds),
                        )
                    },
            decreases self.enemies_state@.len() - k,
        {
            self.enemies_state[k].update(seconds);
            k = k + 1;
        }
    }

    /// Resolves every shot against the actors of the other side: for each
    /// enemy group in order, its shots against the player (`player_hits[k]`
    /// tells which of enemy `k`'s shots meet the player), then the player's
    /// shots against that enemy (`enemy_hits[k]`). Shots, cadences and the
    /// bodies stay as they are.
    pub fn handle_collisions(&mut self, player_hits: &Vec<Vec<bool>>, enemy_hits: &Vec<Vec<bool>>)
        requires
            player_hits@.len() == old(self).enemies_state@.len(),
            enemy_hits@.len() == old(self).enemies_state@.len(),
        ensures
            final(self).player_state.actor == old(
                self,
            ).player_state.actor.after_hits(
                spec_joined(player_hits@.map_values(|v: Vec<bool>| v@)),
            ),
            final(self).player_state.shots@ == old(self).player_state.shots@,
            final(self).player_state.shot_timeout == old(
                self,
            ).player_state.shot_timeout,
            final(self).enemies_state@.len() == old(self).enemies_state@.len(),
            forall|k: int|
                #![trigger final(self).enemies_state@[k]]
                0 <= k < old(self).enemies_state@.len() ==> {
                    &&& final(self).enemies_state@[k].actor == old(
                        self,
                    ).enemies_state@[k].actor.after_hits(enemy_hits@[k]@)
                    &&& final(self).enemies_state@[k].shots@ == old(
                        self,
                    ).enemies_state@[k].shots@
                    &&& final(self).enemies_state@[k].shot_timeout == old(
                        self,
                    ).enemies_state@[k].shot_timeout
                },
    {
        let ghost runs = player_hits@.map_values(|v: Vec<bool>| v@);
        let ghost player_before = self.player_state;
        let mut k: usize = 0;
        while k < self.enemies_state.len()
            invariant
                k <= self.enemies_state@.len(),
                self.enemies_state@.len() == old(self).enemies_state@.len(),
                player_hits@.len() == self.enemies_state@.len(),
                enemy_hits@.len() == self.enemies_state@.len(),
                runs == player_hits@.map_values(|v: Vec<bool>| v@),
                player_before == old(self).player_state,
                self.player_state.actor == player_before.actor.after_hits(
                    spec_joined(runs.take(k as int)),
                ),
                self.player_state.shots@ == player_before.shots@,
                self.player_state.shot_timeout == player_before.shot_timeout,
                forall|i: int|
                    k <= i < self.enemies_state@.len() ==> self.enemies_state@[i]
                        == old(self).enemies_state@[i],
                forall|i: int|
                    #![trigger self.enemies_state@[i]]
                    0 <= i < k ==> {
                        &&& self.enemies_state@[i].actor == old(
                            self,
                        ).enemies_state@[i].actor.after_hits(enemy_hits@[i]@)
                        &&& self.enemies_state@[i].shots@ == old(
                            self,
                        ).enemies_state@[i].shots@
                        &&& self.enemies_state@[i].shot_timeout == old(
                            self,
                        ).enemies_state@[i].shot_timeout
                    },
            decreases self.enemies_state@.len() - k,
        {
            proof {
                assert(runs.take(k as int + 1).drop_last() =~= runs.take(k as int));
                assert(spec_joined(runs.take(k as int + 1)) == spec_joined(runs.take(k as int))
                    + player_hits@[k as int]@);
                player_before.actor.lemma_after_hits_append(
                    spec_joined(runs.take(k as int)),
                    player_hits@[k as int]@,
                );
            }
            self.player_state.handle_hits(&player_hits[k]);
            self.enemies_state[k].handle_hits(&enemy_hits[k]);
            k = k + 1;
        }
        assert(runs.take(k as int) =~= runs);
    }

    /// Drops the shots of every group that have left the window or have no
    /// ticks left (`player_inside` for the player's shots, `enemies_inside[k]`
    /// for enemy `k`'s), then every enemy group whose actor has no hit points
    /// left, its shots with it.
    pub fn clear_dead_stuff(&mut self, player_inside: &Vec<bool>, enemies_inside: &Vec<Vec<bool>>)
        requires
            player_inside@.len() == old(self).player_state.shots@.len(),
            enemies_inside@.len() == old(self).enemies_state@.len(),
            forall|k: int|
                0 <= k < enemies_inside@.len() ==> (#[trigger] enemies_inside@[k])@.len() == old(
                    self,
                ).enemies_state@[k].shots@.len(),
        ensures
            final(self).player_state.actor == old(self).player_state.actor,
            final(self).player_state.shots@ == spec_kept(
                old(self).player_state.shots@,
                player_inside@,
            ),
            final(self).player_state.shot_timeout == old(
                self,
            ).player_state.shot_timeout,
            final(self).enemies_state@.len() == spec_alive_indices(spec_actors(old(self).enemies_state@)).len(),
            forall|m: int|
                #![trigger final(self).enemies_state@[m]]
                0 <= m < final(self).enemies_state@.len() ==> {
                    let k = spec_alive_indices(spec_actors(old(self).enemies_state@))[m];
                    let (a, b) = (old(self).enemies_state@[k], final(self).enemies_state@[m]);
                    &&& b.actor == a.actor
                    &&& b.shot_timeout == a.shot_timeout
                    &&& b.shots@ == spec_kept(a.shots@, enemies_inside@[k]@)
                },
    {
        self.player_state.clear_dead_stuff(player_inside);
        let ghost player = self.player_state;
        let ghost start = self.enemies_state@;
        let n = self.enemies_state.len();
        let mut rest: Vec<ActorState<B>> = Vec::new();
        core::mem::swap(&mut self.enemies_state, &mut rest);
        let mut k: usize = 0;
        while rest.len() > 0
            invariant
                k <= n,
                n == start.len(),
                enemies_inside@.len() == n,
                forall|i: int|
                    0 <= i < n ==> (#[trigger] enemies_inside@[i])@.len()
                        == start[i].shots@.len(),
                rest@ == start.skip(k as int),
                self.enemies_state@.len() == spec_alive_indices(spec_actors(start.take(k as int))).len(),
                forall|m: int|
                    #![trigger self.enemies_state@[m]]
                    0 <= m < self.enemies_state@.len() ==> {
                        let i = spec_alive_indices(spec_actors(start.take(k as int)))[m];
                        &&& 0 <= i < k
                        &&& self.enemies_state@[m].actor == start[i].actor
                        &&& self.enemies_state@[m].shot_timeout == start[i].shot_timeout
                        &&& self.enemies_state@[m].shots@ == spec_kept(
                            start[i].shots@,
                            enemies_inside@[i]@,
                        )
                    },
                self.player_state == player,
            decreases rest@.len(),
        {
            assert(rest@.len() == n - k);
            let mut g = rest.remove(0);
            assert(g == start[k as int]);
            assert(rest@ =~= start.skip(k as int + 1));
            proof {
                assert(start.take(k as int + 1).drop_last() =~= start.take(k as int));
                assert(spec_actors(start.take(k as int + 1)).drop_last() =~= spec_actors(
                    start.take(k as int),
                ));
                lemma_alive_indices(spec_actors(start.take(k as int)));
            }
            g.clear_dead_stuff(&enemies_inside[k]);
            if g.get_actor().get_life() > 0 {
                self.enemies_state.push(g);
            }
            k = k + 1;
        }
        assert(rest@.len() == n - k);
        assert(start.take(k as int) =~= start);
    }

    /// How many shots are in flight, over the player's group and every enemy
    /// group (capped at `usize::MAX`).
    pub fn shot_count(&self) -> (r: usize)
        ensures
            r == spec_capped(self.player_state.shots@.len() + spec_shot_total(self.enemies_state@)),
    {
        let mut total: usize = self.player_state.shots.len();
        let mut k: usize = 0;
        while k < self.enemies_state.len()
            invariant
                k <= self.enemies_state@.len(),
                total == spec_capped(
                    self.player_state.shots@.len() + spec_shot_total(
                        self.enemies_state@.take(k as int),
                    ),
                ),
            decreases self.enemies_state@.len() - k,
        {
            proof {
                assert(self.enemies_state@.take(k as int + 1).drop_last() =~= self.enemies_state@.take(
                    k as int,
                ));
            }
            total = total.saturating_add(self.enemies_state[k].shots.len());
            k = k + 1;
        }
        assert(self.enemies_state@.take(k as int) =~= self.enemies_state@);
        total
    }

    /// Ends a pass of the simulation once the bodies have moved and the
    /// firing is done: the counting half of the tick, hit resolution, the
    /// clean-up, then the game-over signal, raised when the player has no hit
    /// points left. The flags mean what they mean for `handle_collisions` and
    /// `clear_dead_stuff`; counting never changes how many shots a group has.
    pub fn finish_tick(
        &mut self,
        seconds: i64,
        player_hits: &Vec<Vec<bool>>,
        enemy_hits: &Vec<Vec<bool>>,
        player_inside: &Vec<bool>,
        enemies_inside: &Vec<Vec<bool>>,
    ) -> (over: bool)
        requires
            player_hits@.len() == old(self).enemies_state@.len(),
            enemy_hits@.len() == old(self).enemies_state@.len(),
            player_inside@.len() == old(self).player_state.shots@.len(),
            enemies_inside@.len() == old(self).enemies_state@.len(),
            forall|k: int|
                0 <= k < enemies_inside@.len() ==> (#[trigger] enemies_inside@[k])@.len() == old(
                    self,
                ).enemies_state@[k].shots@.len(),
        ensures
            over == (final(self).player_state.actor.life <= 0),
            final(self).player_state.actor == spec_ticked(
                old(self).player_state.actor,
                seconds,
                spec_joined(player_hits@.map_values(|v: Vec<bool>| v@)),
            ),
            final(self).player_state.shots@ == spec_kept(
                spec_aged(old(self).player_state.shots@),
                player_inside@,
            ),
            final(self).player_state.shot_timeout == spec_count_down(
                old(self).player_state.shot_timeout,
                seconds,
            ),
            ({
                let ticked = Seq::new(
                    old(self).enemies_state@.len(),
                    |k: int| spec_ticked(old(self).enemies_state@[k].actor, seconds, enemy_hits@[k]@),
                );
                &&& final(self).enemies_state@.len() == spec_alive_indices(ticked).len()
                &&& forall|m: int|
                    #![trigger final(self).enemies_state@[m]]
                    0 <= m < final(self).enemies_state@.len() ==> {
                        let k = spec_alive_indices(ticked)[m];
                        let (a, b) = (old(self).enemies_state@[k], final(self).enemies_state@[m]);
                        &&& b.actor == ticked[k]
                        &&& b.shot_timeout == spec_count_down(a.shot_timeout, seconds)
                        &&& b.shots@ == spec_kept(spec_aged(a.shots@), enemies_inside@[k]@)
                    }
            }),
    {
        let ghost start = self.enemies_state@;
        self.update(seconds);
        let ghost counted = self.enemies_state@;
        self.handle_collisions(player_hits, enemy_hits);
        let ghost hit = self.enemies_state@;
        proof {
            assert forall|k: int| 0 <= k < enemies_inside@.len() implies (
            #[trigger] enemies_inside@[k])@.len() == hit[k].shots@.len() by {
                assert(counted[k] == counted[k]);
                assert(hit[k] == hit[k]);
            }
        }
        self.clear_dead_stuff(player_inside, enemies_inside);
        proof {
            let ticked = Seq::new(
                old(self).enemies_state@.len(),
                |k: int| spec_ticked(old(self).enemies_state@[k].actor, seconds, enemy_hits@[k]@),
            );
            assert forall|k: int| 0 <= k < start.len() implies spec_actors(hit)[k] == ticked[k] by {
                assert(counted[k] == counted[k]);
                assert(hit[k] == hit[k]);
            }
            assert(spec_actors(hit) =~= ticked);
            assert forall|m: int| 0 <= m < self.enemies_state@.len() implies {
                let k = spec_alive_indices(ticked)[m];
                &&& 0 <= k < start.len()
                &&& (#[trigger] self.enemies_state@[m]).actor == ticked[k]
                &&& self.enemies_state@[m].shot_timeout == spec_count_down(
                    start[k].shot_timeout,
                    seconds,
                )
                &&& self.enemies_state@[m].shots@ == spec_kept(
                    spec_aged(start[k].shots@),
                    enemies_inside@[k]@,
                )
            } by {
                let k = spec_alive_indices(ticked)[m];
                lemma_alive_indices(ticked);
                assert(self.enemies_state@[m] == self.enemies_state@[m]);
                assert(counted[k] == counted[k]);
                assert(hit[k] == hit[k]);
            }
        }
        self.is_game_over()
    }

    /// Whether the game is over: the player has no hit points left.
    pub fn is_game_over(&self) -> (r: bool)
        ensures
            r == (self.player_state.actor.life <= 0),
    {
        self.player_state.get_actor().get_life() <= 0
    }
}

} // verus!
