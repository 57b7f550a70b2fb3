//! The advanced session: normal and elite enemies that fire back, health and
//! TNT supply boxes, and a countdown that every event moves.
use crate::dice::{roll_between, roll_ratio, seeded};
use crate::geometry::{box_contains, in_box, Point};
use crate::timing::{intro_prompt, prompt_spec, since, since_spec, MAX_CLOCK_MS, PROMPT_MS};
use crate::{FrameReport, Screen, Sound, Visual};
use rand::rngs::StdRng;
use vstd::prelude::*;

verus! {

/// Largest value of the countdown, in seconds.
pub const COUNTDOWN_MAX: i64 = 60;

/// The countdown when a round starts.
pub const COUNTDOWN_START: i64 = 30;

/// Seconds a health box adds to the countdown.
pub const HEALTH_BONUS: i64 = 20;

/// Seconds a TNT box takes from the countdown.
pub const TNT_COST: i64 = 5;

/// How long an enemy shows its firing pose.
pub const FIRE_MS: u64 = 500;

/// How long a dying enemy, or a hit box, stays.
pub const DYING_MS: u64 = 500;

/// How long an untouched supply box stays.
pub const BOX_ALIVE_MS: u64 = 3000;

/// Active play needed before elites may spawn.
pub const ELITE_AFTER_MS: u64 = 30000;

/// Time since the round started before supply boxes may spawn.
pub const SUPPLY_AFTER_MS: u64 = 10000;

/// Delay before a newly spawned enemy first fires.
pub const FIRST_FIRE_MS: u64 = 1000;

/// Width of an enemy's hit box, in hundredths of a unit.
pub const ENEMY_W: i64 = 7500;

/// Height of an enemy's hit box (75 x 55 / 35 units), in hundredths of a unit.
pub const ENEMY_H: i64 = 11786;

/// Side of a supply box's hit box, in hundredths of a unit.
pub const BOX_SIDE: i64 = 6000;

#[derive(Clone, Copy, Debug, PartialEq, Eq, Structural)]
pub enum EnemyKind {
    Normal,
    Elite,
}

#[derive(Clone, Copy, Debug, PartialEq, Eq, Structural)]
pub enum EnemyState {
    /// Waits for the moment it fires next.
    Alive { next_fire: u64 },
    /// Holds the moment it started firing.
    Firing { fire_start: u64 },
    /// Holds the moment it started dying.
    Dying(u64),
}

#[derive(Clone, Copy, Debug, PartialEq, Eq, Structural)]
pub struct Enemy {
    pub x: i64,
    pub y: i64,
    /// Which of the two looks it has, 1 or 2.
    pub variant: u8,
    pub state: EnemyState,
    pub kind: EnemyKind,
    pub hitpoints: u32,
    pub spawn_time: u64,
}

#[derive(Clone, Copy, Debug, PartialEq, Eq, Structural)]
pub enum SupplyKind {
    Health,
    Tnt,
}

#[derive(Clone, Copy, Debug, PartialEq, Eq, Structural)]
pub enum SupplyState {
    Active,
    /// A health box that was hit, with the moment it was hit.
    Damaged(u64),
    /// A TNT box that was hit, with the moment it was hit.
    Exploding(u64),
}

#[derive(Clone, Copy, Debug, PartialEq, Eq, Structural)]
pub struct SupplyBox {
    pub x: i64,
    pub y: i64,
    pub kind: SupplyKind,
    pub state: SupplyState,
    pub spawn_time: u64,
}

/// Seconds of countdown an enemy of `kind` takes when it fires.
pub open spec fn damage(kind: EnemyKind) -> i64 {
    match kind {
        EnemyKind::Normal => 1,
        EnemyKind::Elite => 3,
    }
}

/// Points for shooting an enemy of `kind` dead.
pub open spec fn kill_score(kind: EnemyKind) -> u64 {
    match kind {
        EnemyKind::Normal => 1,
        EnemyKind::Elite => 5,
    }
}

/// `v` brought into the countdown's range.
pub open spec fn clamp_countdown(v: int) -> int {
    if v < 0 {
        0
    } else if v > COUNTDOWN_MAX {
        COUNTDOWN_MAX as int
    } else {
        v
    }
}

/// `a + b` for scores, held at the largest `u64`.
pub open spec fn add_score(a: u64, b: int) -> int {
    if a + b <= u64::MAX {
        a + b
    } else {
        u64::MAX as int
    }
}

/// Whether `e` is dying.
pub open spec fn is_dying(e: Enemy) -> bool {
    e.state is Dying
}

/// Whether `e` fires in a frame at `now`.
pub open spec fn fires_now(e: Enemy, now: u64) -> bool {
    match e.state {
        EnemyState::Alive { next_fire } => now >= next_fire,
        _ => false,
    }
}

/// `e` after a frame at `now`, re-armed with `delay` if its firing pose
/// ends: an alive enemy whose deadline has come starts firing, a firing one
/// is alive again after half a second, a dying one is left to its clock.
pub open spec fn advanced(e: Enemy, now: u64, delay: u64) -> Enemy {
    match e.state {
        EnemyState::Alive { next_fire } => if now >= next_fire {
            Enemy { state: EnemyState::Firing { fire_start: now }, ..e }
        } else {
            e
        },
        EnemyState::Firing { fire_start } => if since_spec(now, fire_start) >= FIRE_MS {
            Enemy { state: EnemyState::Alive { next_fire: (now + delay) as u64 }, ..e }
        } else {
            e
        },
        EnemyState::Dying(_) => e,
    }
}

/// `b` is `a` after a frame at `now`, re-armed with some delay from 0.7 s to
/// 1.2 s.
pub open spec fn stepped(a: Enemy, b: Enemy, now: u64) -> bool {
    exists|d: u64| 700 <= d <= 1200 && b == advanced(a, now, d)
}

/// The damage of each enemy of `s` that fires at `now`, in order.
pub open spec fn fire_events(s: Seq<Enemy>, now: u64) -> Seq<i64>
    decreases s.len(),
{
    if s.len() == 0 {
        Seq::empty()
    } else {
        let rest = fire_events(s.drop_last(), now);
        if fires_now(s.last(), now) {
            rest.push(damage(s.last().kind))
        } else {
            rest
        }
    }
}

/// The sum of `ds`.
pub open spec fn total(ds: Seq<i64>) -> int
    decreases ds.len(),
{
    if ds.len() == 0 {
        0
    } else {
        total(ds.drop_last()) + ds.last()
    }
}

/// Whether `e` is still on the field at `now`.
pub open spec fn enemy_keeps(e: Enemy, now: u64) -> bool {
    match e.state {
        EnemyState::Dying(t0) => since_spec(now, t0) < DYING_MS,
        _ => true,
    }
}

/// `enemy_keeps` at a fixed moment, as a predicate.
pub open spec fn enemy_keeps_at(now: u64) -> spec_fn(Enemy) -> bool {
    |e: Enemy| enemy_keeps(e, now)
}

/// Whether `b` is still on the field at `now`.
pub open spec fn box_keeps(b: SupplyBox, now: u64) -> bool {
    match b.state {
        SupplyState::Active => since_spec(now, b.spawn_time) < BOX_ALIVE_MS,
        SupplyState::Damaged(t) => since_spec(now, t) < DYING_MS,
        SupplyState::Exploding(t) => since_spec(now, t) < DYING_MS,
    }
}

/// `box_keeps` at a fixed moment, as a predicate.
pub open spec fn box_keeps_at(now: u64) -> spec_fn(SupplyBox) -> bool {
    |b: SupplyBox| box_keeps(b, now)
}

/// The sprite for `e` at `now`.
pub open spec fn enemy_visual(e: Enemy, now: u64) -> Visual {
    match (e.kind, e.state) {
        (EnemyKind::Normal, EnemyState::Alive { .. }) => Visual::Enemy(e.variant),
        (EnemyKind::Normal, EnemyState::Firing { .. }) => Visual::EnemyFire,
        (EnemyKind::Normal, EnemyState::Dying(t0)) => Visual::EnemyDeath(
            if since_spec(now, t0) < DYING_MS / 2 { 1 } else { 2 },
        ),
        (EnemyKind::Elite, EnemyState::Alive { .. }) => Visual::Elite(e.variant),
        (EnemyKind::Elite, EnemyState::Firing { .. }) => Visual::EliteFire,
        (EnemyKind::Elite, EnemyState::Dying(t0)) => Visual::EliteDeath(
            if since_spec(now, t0) < DYING_MS / 2 { 1 } else { 2 },
        ),
    }
}

/// The sprite for `b` at `now`.
pub open spec fn box_visual(b: SupplyBox, now: u64) -> Visual {
    match (b.kind, b.state) {
        (SupplyKind::Health, SupplyState::Active) => Visual::BoxHealth,
        (SupplyKind::Tnt, SupplyState::Active) => Visual::BoxTnt,
        (SupplyKind::Health, SupplyState::Damaged(t)) => if since_spec(now, t) < DYING_MS / 2 {
            Visual::BoxDamaged
        } else {
            Visual::BoxDestroyed
        },
        (SupplyKind::Tnt, SupplyState::Exploding(t)) => if since_spec(now, t) < DYING_MS / 2 {
            Visual::BoxExplosion
        } else {
            Visual::BoxDestroyed
        },
        _ => Visual::BoxDestroyed,
    }
}

impl Enemy {
    /// An elite at `(x, y)` with look `variant`, born at `now`: three
    /// hitpoints, first firing one second later.
    pub fn new_elite(now: u64, x: i64, y: i64, variant: u8) -> (r: Enemy)
        requires
            now <= MAX_CLOCK_MS,
        ensures
            r == (Enemy {
                x,
                y,
                variant,
                state: EnemyState::Alive { next_fire: (now + FIRST_FIRE_MS) as u64 },
                kind: EnemyKind::Elite,
                hitpoints: 3,
                spawn_time: now,
            }),
    {
        Enemy {
            x,
            y,
            variant,
            state: EnemyState::Alive { next_fire: now + FIRST_FIRE_MS },
            kind: EnemyKind::Elite,
            hitpoints: 3,
            spawn_time: now,
        }
    }

    /// One shot at this enemy at `now`. A dying enemy is not touched. Else it
    /// loses a hitpoint, and when none is left it starts dying; the result
    /// says whether this shot killed it.
    pub fn take_hit(&mut self, now: u64) -> (died: bool)
        ensures
            is_dying(*old(self)) ==> !died && *final(self) == *old(self),
            !is_dying(*old(self)) && old(self).hitpoints > 1 ==> !died && *final(self) == (Enemy {
                hitpoints: (old(self).hitpoints - 1) as u32,
                ..*old(self)
            }),
            !is_dying(*old(self)) && old(self).hitpoints <= 1 ==> died && *final(self) == (Enemy {
                hitpoints: 0,
                state: EnemyState::Dying(now),
                ..*old(self)
            }),
            final(self).hitpoints <= old(self).hitpoints,
            died <==> (!is_dying(*old(self)) && final(self).hitpoints == 0),
            *final(self) == hit_result(*old(self), now),
            died == hit_kills(*old(self)),
    {
        if let EnemyState::Dying(_) = self.state {
            return false;
        }
        if self.hitpoints > 1 {
            self.hitpoints = self.hitpoints - 1;
            false
        } else {
            self.hitpoints = 0;
            self.state = EnemyState::Dying(now);
            true
        }
    }

    /// Moves this enemy through one frame at `now`, using `delay` as the
    /// wait before its next shot if its firing pose ends. Returns the damage
    /// it deals, zero unless it fires in this frame.
    pub fn advance(&mut self, now: u64, delay: u64) -> (dealt: i64)
        requires
            now <= MAX_CLOCK_MS,
            delay <= 1200,
        ensures
            *final(self) == advanced(*old(self), now, delay),
            dealt == if fires_now(*old(self), now) { damage(old(self).kind) } else { 0 },
    {
        match self.state {
            EnemyState::Alive { next_fire } => {
                if now >= next_fire {
                    self.state = EnemyState::Firing { fire_start: now };
                    match self.kind {
                        EnemyKind::Normal => 1,
                        EnemyKind::Elite => 3,
                    }
                } else {
                    0
                }
            },
            EnemyState::Firing { fire_start } => {
                if since(now, fire_start) >= FIRE_MS {
                    self.state = EnemyState::Alive { next_fire: now + delay };
                }
                0
            },
            EnemyState::Dying(_) => 0,
        }
    }

    /// The sprite to draw for this enemy at `now`.
    pub fn visual(&self, now: u64) -> (r: Visual)
        ensures
            r == enemy_visual(*self, now),
    {
        let phase: u8 = match self.state {
            EnemyState::Dying(t0) => if since(now, t0) < DYING_MS / 2 { 1 } else { 2 },
            _ => 1,
        };
        match (self.kind, self.state) {
            (EnemyKind::Normal, EnemyState::Alive { .. }) => Visual::Enemy(self.variant),
            (EnemyKind::Normal, EnemyState::Firing { .. }) => Visual::EnemyFire,
            (EnemyKind::Normal, EnemyState::Dying(_)) => Visual::EnemyDeath(phase),
            (EnemyKind::Elite, EnemyState::Alive { .. }) => Visual::Elite(self.variant),
            (EnemyKind::Elite, EnemyState::Firing { .. }) => Visual::EliteFire,
            (EnemyKind::Elite, EnemyState::Dying(_)) => Visual::EliteDeath(phase),
        }
    }
}

impl SupplyBox {
    /// The sprite to draw for this box at `now`.
    pub fn visual(&self, now: u64) -> (r: Visual)
        ensures
            r == box_visual(*self, now),
    {
        match (self.kind, self.state) {
            (SupplyKind::Health, SupplyState::Active) => Visual::BoxHealth,
            (SupplyKind::Tnt, SupplyState::Active) => Visual::BoxTnt,
            (SupplyKind::Health, SupplyState::Damaged(t)) => if since(now, t) < DYING_MS / 2 {
                Visual::BoxDamaged
            } else {
                Visual::BoxDestroyed
            },
            (SupplyKind::Tnt, SupplyState::Exploding(t)) => if since(now, t) < DYING_MS / 2 {
                Visual::BoxExplosion
            } else {
                Visual::BoxDestroyed
            },
            _ => Visual::BoxDestroyed,
        }
    }
}

/// Whether a click at `p` lands on `e`.
pub open spec fn hits(e: Enemy, p: Point) -> bool {
    in_box(e.x, e.y, ENEMY_W, ENEMY_H, p)
}

/// `i` is the first enemy of `s` that is not dying and that a click at `p`
/// lands on.
pub open spec fn is_enemy_target(s: Seq<Enemy>, p: Point, i: int) -> bool {
    &&& 0 <= i < s.len()
    &&& hits(s[i], p) && !is_dying(s[i])
    &&& forall|j: int| 0 <= j < i ==> !(hits(#[trigger] s[j], p) && !is_dying(s[j]))
}

/// `e`, not dying, after one shot at `now`.
pub open spec fn after_hit(e: Enemy, now: u64) -> Enemy {
    if e.hitpoints > 1 {
        Enemy { hitpoints: (e.hitpoints - 1) as u32, ..e }
    } else {
        Enemy { hitpoints: 0, state: EnemyState::Dying(now), ..e }
    }
}

/// The enemies `s` after a click at `p` at `now`: the first enemy it lands
/// on that is not dying takes a shot.
pub open spec fn shot_enemies(s: Seq<Enemy>, p: Point, now: u64) -> Seq<Enemy> {
    if exists|i: int| is_enemy_target(s, p, i) {
        let i = choose|i: int| is_enemy_target(s, p, i);
        s.update(i, after_hit(s[i], now))
    } else {
        s
    }
}

/// The kind of the enemy that a click at `p` kills, if it kills one.
pub open spec fn shot_kill(s: Seq<Enemy>, p: Point) -> Option<EnemyKind> {
    if exists|i: int| is_enemy_target(s, p, i) {
        let i = choose|i: int| is_enemy_target(s, p, i);
        if s[i].hitpoints <= 1 {
            Some(s[i].kind)
        } else {
            None
        }
    } else {
        None
    }
}

/// `i` is the first active box of `bs` that a click at `p` lands on.
pub open spec fn is_box_target(bs: Seq<SupplyBox>, p: Point, i: int) -> bool {
    &&& 0 <= i < bs.len()
    &&& bs[i].state == SupplyState::Active && in_box(bs[i].x, bs[i].y, BOX_SIDE, BOX_SIDE, p)
    &&& forall|j: int|
        0 <= j < i ==> !(#[trigger] bs[j].state == SupplyState::Active && in_box(
            bs[j].x,
            bs[j].y,
            BOX_SIDE,
            BOX_SIDE,
            p,
        ))
}

/// `e` after a TNT blast at `now`: an alive or firing enemy starts dying.
pub open spec fn blasted(e: Enemy, now: u64) -> Enemy {
    if is_dying(e) {
        e
    } else {
        Enemy { state: EnemyState::Dying(now), ..e }
    }
}

/// How many enemies of `s` of kind `kind` are alive or firing.
pub open spec fn standing(s: Seq<Enemy>, kind: EnemyKind) -> int
    decreases s.len(),
{
    if s.len() == 0 {
        0
    } else {
        standing(s.drop_last(), kind) + if !is_dying(s.last()) && s.last().kind == kind {
            1int
        } else {
            0
        }
    }
}

/// The points a TNT blast earns over `s`.
pub open spec fn blast_points(s: Seq<Enemy>) -> int {
    3 * standing(s, EnemyKind::Normal) + 15 * standing(s, EnemyKind::Elite)
}

/// The sound of an enemy firing for `d`.
pub open spec fn fire_sound(d: i64) -> Sound {
    if d == 3 {
        Sound::EliteFire
    } else {
        Sound::EnemyFire
    }
}

/// The countdown after one more second of active play, if one ended.
pub open spec fn ticked(v: int, crossed: bool) -> int {
    if crossed {
        clamp_countdown(v - 1)
    } else {
        v
    }
}

/// The countdown `v` after the enemies' shots `ds`.
pub open spec fn after_fire(v: int, ds: Seq<i64>) -> int {
    if v - total(ds) < 0 {
        0
    } else {
        v - total(ds)
    }
}

/// `a + b`, held at the largest `u64`.
pub open spec fn add_time(a: u64, b: u64) -> u64 {
    if a + b <= u64::MAX {
        (a + b) as u64
    } else {
        u64::MAX
    }
}

/// Prefix sums of enemy shots only grow.
proof fn lemma_total_prefix(ds: Seq<i64>, i: int)
    requires
        0 <= i < ds.len(),
    ensures
        total(ds.subrange(0, i + 1)) == total(ds.subrange(0, i)) + ds[i],
{
    assert(ds.subrange(0, i + 1).drop_last() == ds.subrange(0, i));
}

/// Enemies that do not fire add no shots to the end of a frame's events.
proof fn lemma_fire_events_quiet_tail(s: Seq<Enemy>, t: Seq<Enemy>, now: u64)
    requires
        forall|k: int| 0 <= k < t.len() ==> !fires_now(#[trigger] t[k], now),
    ensures
        fire_events(s + t, now) == fire_events(s, now),
    decreases t.len(),
{
    if t.len() == 0 {
        assert(s + t == s);
    } else {
        assert((s + t).drop_last() == s + t.drop_last());
        assert(!fires_now(t[t.len() - 1], now));
        lemma_fire_events_quiet_tail(s, t.drop_last(), now);
    }
}

pub struct AdvancedApp {
    pub score: u64,
    pub enemies: Vec<Enemy>,
    pub supply_boxes: Vec<SupplyBox>,
    pub next_enemy_spawn_time: u64,
    pub next_elite_spawn_time: u64,
    pub next_supply_time: u64,
    /// Active play so far, in ms: intro and game over do not count.
    pub game_time: u64,
    /// The clock reading of the previous frame.
    pub last_update: u64,
    /// The countdown, in seconds.
    pub visible_time: i64,
    pub start_time: u64,
    pub game_over: bool,
    pub show_intro: bool,
    pub intro_start: u64,
    /// The random source for spawns and sounds.
    pub rng: StdRng,
}

/// `a` and `b` agree on the round's clock and phase.
pub open spec fn same_clock(a: AdvancedApp, b: AdvancedApp) -> bool {
    &&& a.game_time == b.game_time
    &&& a.last_update == b.last_update
    &&& a.start_time == b.start_time
    &&& a.game_over == b.game_over
    &&& a.show_intro == b.show_intro
    &&& a.intro_start == b.intro_start
}

/// `a` is a session whose intro starts at `now`, before any frame.
pub open spec fn fresh_session(a: AdvancedApp, now: u64) -> bool {
    &&& a.score == 0
    &&& a.enemies@.len() == 0
    &&& a.supply_boxes@.len() == 0
    &&& now + 500 <= a.next_enemy_spawn_time <= now + 1000
    &&& a.next_elite_spawn_time == now + ELITE_AFTER_MS
    &&& now + 5000 <= a.next_supply_time <= now + 8000
    &&& a.game_time == 0
    &&& a.last_update == now
    &&& a.visible_time == COUNTDOWN_START
    &&& a.start_time == now
    &&& !a.game_over
    &&& a.show_intro
    &&& a.intro_start == now
}

impl AdvancedApp {
    /// The countdown is within its range.
    pub open spec fn countdown_ok(&self) -> bool {
        0 <= self.visible_time <= COUNTDOWN_MAX
    }

    /// A session whose intro starts at `now`, drawing its randomness from a
    /// generator seeded with `seed`.
    pub fn new(now: u64, seed: u64) -> (r: Self)
        requires
            now <= MAX_CLOCK_MS,
        ensures
            fresh_session(r, now),
            r.countdown_ok(),
    {
        let mut rng = seeded(seed);
        let spawn_delay = roll_between(&mut rng, 500, 1000);
        let supply_delay = roll_between(&mut rng, 5000, 8000);
        AdvancedApp {
            score: 0,
            enemies: Vec::new(),
            supply_boxes: Vec::new(),
            next_enemy_spawn_time: now + spawn_delay,
            next_elite_spawn_time: now + ELITE_AFTER_MS,
            next_supply_time: now + supply_delay,
            game_time: 0,
            last_update: now,
            visible_time: COUNTDOWN_START,
            start_time: now,
            game_over: false,
            show_intro: true,
            intro_start: now,
            rng,
        }
    }

    /// Adds a normal enemy at `(x, y)` with look `variant`, born at `now`:
    /// one hitpoint, first firing one second later.
    pub fn spawn_enemy(&mut self, now: u64, x: i64, y: i64, variant: u8)
        requires
            now <= MAX_CLOCK_MS,
        ensures
            final(self).enemies@ == old(self).enemies@.push(
                Enemy {
                    x,
                    y,
                    variant,
                    state: EnemyState::Alive { next_fire: (now + FIRST_FIRE_MS) as u64 },
                    kind: EnemyKind::Normal,
                    hitpoints: 1,
                    spawn_time: now,
                },
            ),
            final(self).supply_boxes@ == old(self).supply_boxes@,
            final(self).score == old(self).score,
            final(self).visible_time == old(self).visible_time,
            final(self).next_enemy_spawn_time == old(self).next_enemy_spawn_time,
            final(self).next_elite_spawn_time == old(self).next_elite_spawn_time,
            final(self).next_supply_time == old(self).next_supply_time,
            same_clock(*old(self), *final(self)),
    {
        self.enemies.push(
            Enemy {
                x,
                y,
                variant,
                state: EnemyState::Alive { next_fire: now + FIRST_FIRE_MS },
                kind: EnemyKind::Normal,
                hitpoints: 1,
                spawn_time: now,
            },
        );
    }

    /// Adds an elite at a random place of the field with a random look, and
    /// schedules the next one from four to eight seconds later.
    pub fn spawn_elite(&mut self, now: u64)
        requires
            now <= MAX_CLOCK_MS,
        ensures
            final(self).enemies@.len() == old(self).enemies@.len() + 1,
            final(self).enemies@.drop_last() == old(self).enemies@,
            ({
                let e = final(self).enemies@.last();
                &&& e.kind == EnemyKind::Elite
                &&& e.hitpoints == 3
                &&& e.spawn_time == now
                &&& e.state == EnemyState::Alive { next_fire: (now + FIRST_FIRE_MS) as u64 }
                &&& 0 <= e.x < 75000 && 0 <= e.y < 50000 && 1 <= e.variant <= 2
            }),
            now + 4000 <= final(self).next_elite_spawn_time <= now + 8000,
            final(self).supply_boxes@ == old(self).supply_boxes@,
            final(self).score == old(self).score,
            final(self).visible_time == old(self).visible_time,
            final(self).next_enemy_spawn_time == old(self).next_enemy_spawn_time,
            final(self).next_supply_time == old(self).next_supply_time,
            same_clock(*old(self), *final(self)),
    {
        let x = roll_between(&mut self.rng, 0, 74999);
        let y = roll_between(&mut self.rng, 0, 49999);
        let variant = roll_between(&mut self.rng, 1, 2);
        let elite = Enemy::new_elite(now, x as i64, y as i64, variant as u8);
        self.enemies.push(elite);
        let delay = roll_between(&mut self.rng, 4000, 8000);
        self.next_elite_spawn_time = now + delay;
        assert(self.enemies@.drop_last() == old(self).enemies@);
    }

    /// Adds an active supply box of `kind` at `(x, y)`, dropped at `now`.
    pub fn spawn_supply_box(&mut self, now: u64, kind: SupplyKind, x: i64, y: i64)
        ensures
            final(self).supply_boxes@ == old(self).supply_boxes@.push(
                SupplyBox { x, y, kind, state: SupplyState::Active, spawn_time: now },
            ),
            final(self).enemies@ == old(self).enemies@,
            final(self).score == old(self).score,
            final(self).visible_time == old(self).visible_time,
            final(self).next_enemy_spawn_time == old(self).next_enemy_spawn_time,
            final(self).next_elite_spawn_time == old(self).next_elite_spawn_time,
            final(self).next_supply_time == old(self).next_supply_time,
            same_clock(*old(self), *final(self)),
    {
        self.supply_boxes.push(SupplyBox { x, y, kind, state: SupplyState::Active, spawn_time: now });
    }
}

impl AdvancedApp {
    /// Moves every enemy through one frame at `now`, drawing the wait before
    /// the next shot of each enemy whose firing pose ends. Returns the damage
    /// of each shot fired, in the enemies' order.
    pub fn advance_enemies(&mut self, now: u64) -> (shots: Vec<i64>)
        requires
            now <= MAX_CLOCK_MS,
        ensures
            final(self).enemies@.len() == old(self).enemies@.len(),
            forall|i: int| 0 <= i < old(self).enemies@.len()
                ==> stepped(old(self).enemies@[i], #[trigger] final(self).enemies@[i], now),
            shots@ == fire_events(old(self).enemies@, now),
            final(self).supply_boxes@ == old(self).supply_boxes@,
            final(self).score == old(self).score,
            final(self).visible_time == old(self).visible_time,
            final(self).next_enemy_spawn_time == old(self).next_enemy_spawn_time,
            final(self).next_elite_spawn_time == old(self).next_elite_spawn_time,
            final(self).next_supply_time == old(self).next_supply_time,
            same_clock(*old(self), *final(self)),
    {
        let ghost s = self.enemies@;
        let mut shots: Vec<i64> = Vec::new();
        let mut i: usize = 0;
        while i < self.enemies.len()
            invariant
                self.enemies@.len() == s.len(),
                i <= s.len(),
                now <= MAX_CLOCK_MS,
                forall|j: int| 0 <= j < i ==> stepped(s[j], #[trigger] self.enemies@[j], now),
                forall|j: int| i <= j < s.len() ==> #[trigger] self.enemies@[j] == s[j],
                shots@ == fire_events(s.subrange(0, i as int), now),
                self.supply_boxes@ == old(self).supply_boxes@,
                self.score == old(self).score,
                self.visible_time == old(self).visible_time,
                self.next_enemy_spawn_time == old(self).next_enemy_spawn_time,
                self.next_elite_spawn_time == old(self).next_elite_spawn_time,
                self.next_supply_time == old(self).next_supply_time,
                same_clock(*old(self), *self),
            decreases s.len() - i,
        {
            let mut e = self.enemies[i];
            let delay = roll_between(&mut self.rng, 700, 1200);
            let dealt = e.advance(now, delay);
            assert(700 <= delay <= 1200 && e == advanced(s[i as int], now, delay));
            self.enemies.set(i, e);
            assert(s.subrange(0, i + 1).drop_last() == s.subrange(0, i as int));
            assert(s.subrange(0, i + 1).last() == s[i as int]);
            if dealt != 0 {
                shots.push(dealt);
            }
            i += 1;
        }
        assert(s.subrange(0, s.len() as int) == s);
        shots
    }

    /// Drops what has had its time on the field at `now`: dying enemies after
    /// half a second, untouched boxes after three seconds, hit boxes after
    /// half a second.
    pub fn remove_expired(&mut self, now: u64)
        ensures
            final(self).enemies@ == old(self).enemies@.filter(enemy_keeps_at(now)),
            final(self).supply_boxes@ == old(self).supply_boxes@.filter(box_keeps_at(now)),
            final(self).score == old(self).score,
            final(self).visible_time == old(self).visible_time,
            final(self).next_enemy_spawn_time == old(self).next_enemy_spawn_time,
            final(self).next_elite_spawn_time == old(self).next_elite_spawn_time,
            final(self).next_supply_time == old(self).next_supply_time,
            same_clock(*old(self), *final(self)),
    {
        let ghost s = self.enemies@;
        let mut kept: Vec<Enemy> = Vec::new();
        let mut i: usize = 0;
        while i < self.enemies.len()
            invariant
                self.enemies@ == s,
                i <= s.len(),
                kept@ == s.subrange(0, i as int).filter(enemy_keeps_at(now)),
                same_clock(*old(self), *self),
            decreases s.len() - i,
        {
            let e = self.enemies[i];
            let keep = match e.state {
                EnemyState::Dying(t0) => since(now, t0) < DYING_MS,
                _ => true,
            };
            proof {
                reveal(Seq::filter);
                let sub = s.subrange(0, i + 1);
                assert(sub.drop_last() == s.subrange(0, i as int));
                assert(sub.last() == e);
                assert(enemy_keeps_at(now)(e) == keep);
            }
            if keep {
                kept.push(e);
            }
            i += 1;
        }
        assert(s.subrange(0, s.len() as int) == s);
        self.enemies = kept;

        let ghost bs = self.supply_boxes@;
        let mut kept_boxes: Vec<SupplyBox> = Vec::new();
        let mut k: usize = 0;
        while k < self.supply_boxes.len()
            invariant
                self.supply_boxes@ == bs,
                k <= bs.len(),
                kept_boxes@ == bs.subrange(0, k as int).filter(box_keeps_at(now)),
                same_clock(*old(self), *self),
            decreases bs.len() - k,
        {
            let b = self.supply_boxes[k];
            let keep = match b.state {
                SupplyState::Active => since(now, b.spawn_time) < BOX_ALIVE_MS,
                SupplyState::Damaged(t) => since(now, t) < DYING_MS,
                SupplyState::Exploding(t) => since(now, t) < DYING_MS,
            };
            proof {
                reveal(Seq::filter);
                let sub = bs.subrange(0, k + 1);
                assert(sub.drop_last() == bs.subrange(0, k as int));
                assert(sub.last() == b);
                assert(box_keeps_at(now)(b) == keep);
            }
            if keep {
                kept_boxes.push(b);
            }
            k += 1;
        }
        assert(bs.subrange(0, bs.len() as int) == bs);
        self.supply_boxes = kept_boxes;
    }

    /// Takes the enemies' shots `shots` off the countdown, one by one, and
    /// asks for each shot's sound.
    pub fn suffer_fire(&mut self, shots: &Vec<i64>) -> (sounds: Vec<Sound>)
        requires
            old(self).countdown_ok(),
            forall|k: int| 0 <= k < shots@.len() ==> 1 <= #[trigger] shots@[k] <= 3,
        ensures
            final(self).visible_time == after_fire(old(self).visible_time as int, shots@),
            final(self).countdown_ok(),
            sounds@.len() == shots@.len(),
            forall|k: int| 0 <= k < shots@.len() ==> #[trigger] sounds@[k] == fire_sound(shots@[k]),
            final(self).enemies@ == old(self).enemies@,
            final(self).supply_boxes@ == old(self).supply_boxes@,
            final(self).score == old(self).score,
            final(self).next_enemy_spawn_time == old(self).next_enemy_spawn_time,
            final(self).next_elite_spawn_time == old(self).next_elite_spawn_time,
            final(self).next_supply_time == old(self).next_supply_time,
            same_clock(*old(self), *final(self)),
    {
        let ghost v0 = self.visible_time as int;
        let mut sounds: Vec<Sound> = Vec::new();
        let mut k: usize = 0;
        while k < shots.len()
            invariant
                k <= shots@.len(),
                forall|j: int| 0 <= j < shots@.len() ==> 1 <= #[trigger] shots@[j] <= 3,
                0 <= v0 <= COUNTDOWN_MAX,
                total(shots@.subrange(0, k as int)) >= 0,
                self.visible_time == after_fire(v0, shots@.subrange(0, k as int)),
                sounds@.len() == k,
                forall|j: int| 0 <= j < k ==> #[trigger] sounds@[j] == fire_sound(shots@[j]),
                self.enemies@ == old(self).enemies@,
                self.supply_boxes@ == old(self).supply_boxes@,
                self.score == old(self).score,
                self.next_enemy_spawn_time == old(self).next_enemy_spawn_time,
                self.next_elite_spawn_time == old(self).next_elite_spawn_time,
                self.next_supply_time == old(self).next_supply_time,
                same_clock(*old(self), *self),
            decreases shots@.len() - k,
        {
            let d = shots[k];
            proof {
                lemma_total_prefix(shots@, k as int);
            }
            if d == 3 {
                sounds.push(Sound::EliteFire);
            } else {
                sounds.push(Sound::EnemyFire);
            }
            let v = self.visible_time - d;
            self.visible_time = if v < 0 {
                0
            } else if v > COUNTDOWN_MAX {
                COUNTDOWN_MAX
            } else {
                v
            };
            k += 1;
        }
        assert(shots@.subrange(0, shots@.len() as int) == shots@);
        sounds
    }
}

impl AdvancedApp {
    /// A click at `p` at `now` shoots the first enemy whose box holds it and
    /// that is not dying. A kill scores one point for a normal enemy and five
    /// for an elite; the result is the kind of the enemy killed, if any.
    pub fn handle_click_on_enemy(&mut self, p: Point, now: u64) -> (killed: Option<EnemyKind>)
        ensures
            final(self).enemies@ == shot_enemies(old(self).enemies@, p, now),
            killed == shot_kill(old(self).enemies@, p),
            final(self).score == match killed {
                Some(kind) => add_score(old(self).score, kill_score(kind) as int),
                None => old(self).score as int,
            },
            final(self).supply_boxes@ == old(self).supply_boxes@,
            final(self).visible_time == old(self).visible_time,
            final(self).next_enemy_spawn_time == old(self).next_enemy_spawn_time,
            final(self).next_elite_spawn_time == old(self).next_elite_spawn_time,
            final(self).next_supply_time == old(self).next_supply_time,
            same_clock(*old(self), *final(self)),
    {
        let ghost s = self.enemies@;
        let mut i: usize = 0;
        while i < self.enemies.len()
            invariant
                self.enemies@ == s,
                i <= s.len(),
                forall|j: int| 0 <= j < i ==> !(hits(#[trigger] s[j], p) && !is_dying(s[j])),
                s == old(self).enemies@,
                self.score == old(self).score,
                self.supply_boxes@ == old(self).supply_boxes@,
                self.visible_time == old(self).visible_time,
                self.next_enemy_spawn_time == old(self).next_enemy_spawn_time,
                self.next_elite_spawn_time == old(self).next_elite_spawn_time,
                self.next_supply_time == old(self).next_supply_time,
                same_clock(*old(self), *self),
            decreases s.len() - i,
        {
            let mut e = self.enemies[i];
            let dying = match e.state {
                EnemyState::Dying(_) => true,
                _ => false,
            };
            if box_contains(e.x, e.y, ENEMY_W, ENEMY_H, p) && !dying {
                assert(is_enemy_target(s, p, i as int));
                proof {
                    let c = choose|c: int| is_enemy_target(s, p, c);
                    assert(c == i as int) by {
                        if c < i {
                        } else if c > i {
                            assert(!(hits(s[i as int], p) && !is_dying(s[i as int])));
                        }
                    }
                }
                let died = e.take_hit(now);
                self.enemies.set(i, e);
                if died {
                    let bonus: u64 = match e.kind {
                        EnemyKind::Normal => 1,
                        EnemyKind::Elite => 5,
                    };
                    self.score = self.score.saturating_add(bonus);
                    return Some(e.kind);
                }
                return None;
            }
            i += 1;
        }
        None
    }

    /// A TNT blast at `now`: every enemy that is alive or firing starts
    /// dying, for three points each normal enemy and fifteen each elite.
    pub fn explode_tnt(&mut self, now: u64)
        ensures
            final(self).enemies@.len() == old(self).enemies@.len(),
            forall|i: int| 0 <= i < old(self).enemies@.len()
                ==> #[trigger] final(self).enemies@[i] == blasted(old(self).enemies@[i], now),
            final(self).score == add_score(old(self).score, blast_points(old(self).enemies@)),
            final(self).score >= old(self).score,
            final(self).supply_boxes@ == old(self).supply_boxes@,
            final(self).visible_time == old(self).visible_time,
            final(self).next_enemy_spawn_time == old(self).next_enemy_spawn_time,
            final(self).next_elite_spawn_time == old(self).next_elite_spawn_time,
            final(self).next_supply_time == old(self).next_supply_time,
            same_clock(*old(self), *final(self)),
    {
        let ghost s = self.enemies@;
        let ghost score0 = self.score;
        let mut i: usize = 0;
        while i < self.enemies.len()
            invariant
                self.enemies@.len() == s.len(),
                i <= s.len(),
                forall|j: int| 0 <= j < i ==> #[trigger] self.enemies@[j] == blasted(s[j], now),
                forall|j: int| i <= j < s.len() ==> #[trigger] self.enemies@[j] == s[j],
                standing(s.subrange(0, i as int), EnemyKind::Normal) >= 0,
                standing(s.subrange(0, i as int), EnemyKind::Elite) >= 0,
                self.score == add_score(score0, blast_points(s.subrange(0, i as int))),
                self.supply_boxes@ == old(self).supply_boxes@,
                self.visible_time == old(self).visible_time,
                self.next_enemy_spawn_time == old(self).next_enemy_spawn_time,
                self.next_elite_spawn_time == old(self).next_elite_spawn_time,
                self.next_supply_time == old(self).next_supply_time,
                same_clock(*old(self), *self),
            decreases s.len() - i,
        {
            let e = self.enemies[i];
            assert(s.subrange(0, i + 1).drop_last() == s.subrange(0, i as int));
            assert(s.subrange(0, i + 1).last() == s[i as int]);
            match e.state {
                EnemyState::Dying(_) => {},
                _ => {
                    self.enemies.set(i, Enemy { state: EnemyState::Dying(now), ..e });
                    let bonus: u64 = match e.kind {
                        EnemyKind::Normal => 3,
                        EnemyKind::Elite => 15,
                    };
                    self.score = self.score.saturating_add(bonus);
                },
            }
            i += 1;
        }
        assert(s.subrange(0, s.len() as int) == s);
    }

    /// A click at `p` at `now` on the first active supply box whose box holds
    /// it. A health box is damaged and adds twenty seconds to the countdown;
    /// a TNT box explodes, takes five seconds and blasts the enemies. The
    /// result is the kind of the box hit, if any.
    pub fn click_supply(&mut self, p: Point, now: u64) -> (hit: Option<SupplyKind>)
        requires
            old(self).countdown_ok(),
        ensures
            final(self).countdown_ok(),
            final(self).next_enemy_spawn_time == old(self).next_enemy_spawn_time,
            final(self).next_elite_spawn_time == old(self).next_elite_spawn_time,
            final(self).next_supply_time == old(self).next_supply_time,
            same_clock(*old(self), *final(self)),
            final(self).score >= old(self).score,
            !(exists|i: int| is_box_target(old(self).supply_boxes@, p, i)) ==> {
                &&& hit.is_none()
                &&& final(self).supply_boxes@ == old(self).supply_boxes@
                &&& final(self).enemies@ == old(self).enemies@
                &&& final(self).score == old(self).score
                &&& final(self).visible_time == old(self).visible_time
            },
            forall|i: int| is_box_target(old(self).supply_boxes@, p, i) ==> {
                let b = old(self).supply_boxes@[i];
                &&& hit == Some(b.kind)
                &&& b.kind == SupplyKind::Health ==> {
                    &&& final(self).supply_boxes@ == old(self).supply_boxes@.update(
                        i,
                        SupplyBox { state: SupplyState::Damaged(now), ..b },
                    )
                    &&& final(self).visible_time == clamp_countdown(old(self).visible_time + HEALTH_BONUS)
                    &&& final(self).enemies@ == old(self).enemies@
                    &&& final(self).score == old(self).score
                }
                &&& b.kind == SupplyKind::Tnt ==> {
                    &&& final(self).supply_boxes@ == old(self).supply_boxes@.update(
                        i,
                        SupplyBox { state: SupplyState::Exploding(now), ..b },
                    )
                    &&& final(self).visible_time == clamp_countdown(old(self).visible_time - TNT_COST)
                    &&& final(self).enemies@.len() == old(self).enemies@.len()
                    &&& forall|j: int| 0 <= j < old(self).enemies@.len()
                        ==> #[trigger] final(self).enemies@[j] == blasted(old(self).enemies@[j], now)
                    &&& final(self).score == add_score(old(self).score, blast_points(old(self).enemies@))
                }
            },
    {
        let ghost bs = self.supply_boxes@;
        let mut i: usize = 0;
        while i < self.supply_boxes.len()
            invariant
                self.supply_boxes@ == bs,
                i <= bs.len(),
                forall|j: int|
                    0 <= j < i ==> !(#[trigger] bs[j].state == SupplyState::Active && in_box(
                        bs[j].x,
                        bs[j].y,
                        BOX_SIDE,
                        BOX_SIDE,
                        p,
                    )),
                bs == old(self).supply_boxes@,
                self.countdown_ok(),
                self.enemies@ == old(self).enemies@,
                self.score == old(self).score,
                self.visible_time == old(self).visible_time,
                self.next_enemy_spawn_time == old(self).next_enemy_spawn_time,
                self.next_elite_spawn_time == old(self).next_elite_spawn_time,
                self.next_supply_time == old(self).next_supply_time,
                same_clock(*old(self), *self),
            decreases bs.len() - i,
        {
            let b = self.supply_boxes[i];
            if b.state == SupplyState::Active && box_contains(b.x, b.y, BOX_SIDE, BOX_SIDE, p) {
                assert(is_box_target(bs, p, i as int));
                assert forall|c: int| is_box_target(bs, p, c) implies c == i as int by {
                    if c > i {
                        assert(!(bs[i as int].state == SupplyState::Active && in_box(
                            bs[i as int].x,
                            bs[i as int].y,
                            BOX_SIDE,
                            BOX_SIDE,
                            p,
                        )));
                    }
                }
                match b.kind {
                    SupplyKind::Health => {
                        self.supply_boxes.set(i, SupplyBox { state: SupplyState::Damaged(now), ..b });
                        let v = self.visible_time + HEALTH_BONUS;
                        self.visible_time = if v > COUNTDOWN_MAX { COUNTDOWN_MAX } else { v };
                        return Some(SupplyKind::Health);
                    },
                    SupplyKind::Tnt => {
                        self.supply_boxes.set(i, SupplyBox { state: SupplyState::Exploding(now), ..b });
                        let v = self.visible_time - TNT_COST;
                        self.visible_time = if v < 0 { 0 } else { v };
                        self.explode_tnt(now);
                        return Some(SupplyKind::Tnt);
                    },
                }
            }
            i += 1;
        }
        None
    }
}

/// The sound of a kill of an enemy of `kind`: the rare one when `special`,
/// else ordinary sound `index`.
pub open spec fn death_sound_spec(kind: EnemyKind, special: bool, index: u8) -> Sound {
    match (kind, special) {
        (EnemyKind::Normal, true) => Sound::EnemyDeathSpecial,
        (EnemyKind::Normal, false) => Sound::EnemyDeath(index),
        (EnemyKind::Elite, true) => Sound::EliteDeathSpecial,
        (EnemyKind::Elite, false) => Sound::EliteDeath(index),
    }
}

/// The sound of a kill of an enemy of `kind`.
pub fn death_sound(kind: EnemyKind, special: bool, index: u8) -> (r: Sound)
    ensures
        r == death_sound_spec(kind, special, index),
{
    match (kind, special) {
        (EnemyKind::Normal, true) => Sound::EnemyDeathSpecial,
        (EnemyKind::Normal, false) => Sound::EnemyDeath(index),
        (EnemyKind::Elite, true) => Sound::EliteDeathSpecial,
        (EnemyKind::Elite, false) => Sound::EliteDeath(index),
    }
}

/// A normal enemy as the spawner makes it at `now`.
pub open spec fn fresh_normal(e: Enemy, now: u64) -> bool {
    &&& e.kind == EnemyKind::Normal
    &&& e.hitpoints == 1
    &&& e.spawn_time == now
    &&& e.state == EnemyState::Alive { next_fire: (now + FIRST_FIRE_MS) as u64 }
    &&& 0 <= e.x < 75000 && 0 <= e.y < 50000 && 1 <= e.variant <= 2
}

/// An elite as the spawner makes it at `now`.
pub open spec fn fresh_elite(e: Enemy, now: u64) -> bool {
    &&& e.kind == EnemyKind::Elite
    &&& e.hitpoints == 3
    &&& e.spawn_time == now
    &&& e.state == EnemyState::Alive { next_fire: (now + FIRST_FIRE_MS) as u64 }
    &&& 0 <= e.x < 75000 && 0 <= e.y < 50000 && 1 <= e.variant <= 2
}

/// `born` are the enemies spawned at `now`: a normal one when `normal` is
/// due, then an elite when `elite` is due.
pub open spec fn born_ok(born: Seq<Enemy>, now: u64, normal: bool, elite: bool) -> bool {
    &&& born.len() == (if normal { 1int } else { 0 }) + (if elite { 1int } else { 0 })
    &&& normal ==> fresh_normal(born[0], now)
    &&& elite ==> fresh_elite(born.last(), now)
}

/// `nb` are the supply boxes dropped at `now`: one active box, health or
/// TNT, when `due`.
pub open spec fn box_born_ok(nb: Seq<SupplyBox>, now: u64, due: bool) -> bool {
    &&& nb.len() == if due { 1int } else { 0 }
    &&& due ==> {
        &&& nb[0].state == SupplyState::Active
        &&& nb[0].spawn_time == now
        &&& 0 <= nb[0].x < 70000 && 0 <= nb[0].y < 45000
    }
}

/// `b` is `a` with every enemy moved through a frame at `now`.
pub open spec fn all_stepped(a: Seq<Enemy>, b: Seq<Enemy>, now: u64) -> bool {
    &&& a.len() == b.len()
    &&& forall|i: int| 0 <= i < a.len() ==> stepped(a[i], #[trigger] b[i], now)
}

/// The sound of each of the shots `ds`.
pub open spec fn fire_sounds(ds: Seq<i64>) -> Seq<Sound> {
    Seq::new(ds.len(), |k: int| fire_sound(ds[k]))
}

/// The kind of the box a click at `p` hits, if any.
pub open spec fn box_target_kind(bs: Seq<SupplyBox>, p: Point) -> Option<SupplyKind> {
    if exists|i: int| is_box_target(bs, p, i) {
        Some(bs[choose|i: int| is_box_target(bs, p, i)].kind)
    } else {
        None
    }
}

/// `b` after a click: a health box is damaged, a TNT box explodes.
pub open spec fn hit_box(b: SupplyBox, now: u64) -> SupplyBox {
    match b.kind {
        SupplyKind::Health => SupplyBox { state: SupplyState::Damaged(now), ..b },
        SupplyKind::Tnt => SupplyBox { state: SupplyState::Exploding(now), ..b },
    }
}

/// The boxes `bs` after a click at `p` at `now`.
pub open spec fn clicked_boxes(bs: Seq<SupplyBox>, p: Point, now: u64) -> Seq<SupplyBox> {
    if exists|i: int| is_box_target(bs, p, i) {
        let i = choose|i: int| is_box_target(bs, p, i);
        bs.update(i, hit_box(bs[i], now))
    } else {
        bs
    }
}

/// The enemies `es` after a TNT blast at `now`.
pub open spec fn blast_all(es: Seq<Enemy>, now: u64) -> Seq<Enemy> {
    Seq::new(es.len(), |i: int| blasted(es[i], now))
}

/// The enemies `es` after a click at `p` at `now` among the boxes `bs`: the
/// enemy shot, then the blast if a TNT box was hit.
pub open spec fn clicked_enemies(es: Seq<Enemy>, bs: Seq<SupplyBox>, p: Point, now: u64) -> Seq<Enemy> {
    if box_target_kind(bs, p) == Some(SupplyKind::Tnt) {
        blast_all(shot_enemies(es, p, now), now)
    } else {
        shot_enemies(es, p, now)
    }
}

/// The countdown `v` after a click at `p` among the boxes `bs`.
pub open spec fn clicked_countdown(v: int, bs: Seq<SupplyBox>, p: Point) -> int {
    match box_target_kind(bs, p) {
        Some(SupplyKind::Health) => clamp_countdown(v + HEALTH_BONUS),
        Some(SupplyKind::Tnt) => clamp_countdown(v - TNT_COST),
        None => v,
    }
}

/// The score after a click at `p` at `now`: the kill, then the blast.
pub open spec fn clicked_score(score: u64, es: Seq<Enemy>, bs: Seq<SupplyBox>, p: Point, now: u64) -> int {
    let s1 = match shot_kill(es, p) {
        Some(kind) => add_score(score, kill_score(kind) as int),
        None => score as int,
    };
    if box_target_kind(bs, p) == Some(SupplyKind::Tnt) {
        add_score(s1 as u64, blast_points(shot_enemies(es, p, now)))
    } else {
        s1
    }
}

/// Whether `s` is a death sound for an enemy of `kind`.
pub open spec fn is_death_sound(kind: EnemyKind, s: Sound) -> bool {
    match kind {
        EnemyKind::Normal => s == Sound::EnemyDeathSpecial || (s matches Sound::EnemyDeath(k) && 1 <= k <= 3),
        EnemyKind::Elite => s == Sound::EliteDeathSpecial || (s matches Sound::EliteDeath(k) && 1 <= k <= 2),
    }
}

/// Whether `s` is the sound of hitting a box of `kind`.
pub open spec fn is_box_sound(kind: SupplyKind, s: Sound) -> bool {
    match kind {
        SupplyKind::Health => s matches Sound::SupplyDamage(k) && 1 <= k <= 3,
        SupplyKind::Tnt => s == Sound::SupplyExplosion || s == Sound::SupplyExplosionSpecial,
    }
}

/// The sounds of a click: the gunshot, a death sound if it killed, a box
/// sound if it hit a box.
pub open spec fn click_sounds_ok(ss: Seq<Sound>, kill: Option<EnemyKind>, hit: Option<SupplyKind>) -> bool {
    &&& ss.len() == 1 + (if kill is Some { 1int } else { 0 }) + (if hit is Some { 1int } else { 0 })
    &&& ss[0] == Sound::Gunshot
    &&& kill matches Some(k) ==> is_death_sound(k, ss[1])
    &&& hit matches Some(h) ==> is_box_sound(h, ss.last())
}

/// `fin` and `sounds` are the outcome of a frame's `click` at `now` on the
/// enemies `es` and boxes `bs`, with countdown `v`, score `score` and the
/// sounds `pre` asked before the click; `crossed` says whether a second of
/// play ended.
pub open spec fn click_outcome(
    fin: AdvancedApp,
    sounds: Seq<Sound>,
    es: Seq<Enemy>,
    bs: Seq<SupplyBox>,
    v: int,
    score: u64,
    pre: Seq<Sound>,
    click: Option<Point>,
    now: u64,
    crossed: bool,
) -> bool {
    match click {
        None => {
            &&& fin.enemies@ == es
            &&& fin.supply_boxes@ == bs
            &&& fin.score == score
            &&& fin.visible_time == ticked(v, crossed)
            &&& sounds == pre
        },
        Some(p) => {
            &&& fin.enemies@ == clicked_enemies(es, bs, p, now)
            &&& fin.supply_boxes@ == clicked_boxes(bs, p, now)
            &&& fin.score == clicked_score(score, es, bs, p, now)
            &&& fin.visible_time == ticked(clicked_countdown(v, bs, p), crossed)
            &&& sounds.len() > pre.len()
            &&& sounds.subrange(0, pre.len() as int) == pre
            &&& click_sounds_ok(
                sounds.subrange(pre.len() as int, sounds.len() as int),
                shot_kill(es, p),
                box_target_kind(bs, p),
            )
        },
    }
}

/// `es` and `bs` are the enemies and boxes after the part of a playing frame
/// at `now` from `old` that comes before the click, with the spawns `born`
/// and `nb` and the stepped enemies `st`.
pub open spec fn phase_outcome(
    old: AdvancedApp,
    es: Seq<Enemy>,
    bs: Seq<SupplyBox>,
    born: Seq<Enemy>,
    nb: Seq<SupplyBox>,
    st: Seq<Enemy>,
    now: u64,
) -> bool {
    &&& born_ok(
        born,
        now,
        now >= old.next_enemy_spawn_time,
        now >= old.next_elite_spawn_time && old.game_time >= ELITE_AFTER_MS,
    )
    &&& box_born_ok(
        nb,
        now,
        now >= old.next_supply_time && since_spec(now, old.start_time) >= SUPPLY_AFTER_MS,
    )
    &&& all_stepped(old.enemies@ + born, st, now)
    &&& es == st.filter(enemy_keeps_at(now))
    &&& bs == (old.supply_boxes@ + nb).filter(box_keeps_at(now))
}

/// `fin` and `sounds` are the outcome of a playing frame at `now` from `old`,
/// with the spawns `born` and `nb` and the stepped enemies `st`.
pub open spec fn playing_outcome(
    old: AdvancedApp,
    fin: AdvancedApp,
    sounds: Seq<Sound>,
    born: Seq<Enemy>,
    nb: Seq<SupplyBox>,
    st: Seq<Enemy>,
    click: Option<Point>,
    now: u64,
) -> bool {
    let crossed = fin.game_time / 1000 > old.game_time / 1000;
    &&& born_ok(
        born,
        now,
        now >= old.next_enemy_spawn_time,
        now >= old.next_elite_spawn_time && fin.game_time >= ELITE_AFTER_MS,
    )
    &&& box_born_ok(
        nb,
        now,
        now >= old.next_supply_time && since_spec(now, old.start_time) >= SUPPLY_AFTER_MS,
    )
    &&& all_stepped(old.enemies@ + born, st, now)
    &&& click_outcome(
        fin,
        sounds,
        st.filter(enemy_keeps_at(now)),
        (old.supply_boxes@ + nb).filter(box_keeps_at(now)),
        after_fire(old.visible_time as int, fire_events(old.enemies@, now)),
        old.score,
        fire_sounds(fire_events(old.enemies@, now)),
        click,
        now,
        crossed,
    )
}

impl AdvancedApp {
    /// The part of a playing frame before the click: spawns that are due,
    /// every enemy moved and firing, expired entities gone, and the shots
    /// taken off the countdown.
    pub fn play_phase(&mut self, now: u64) -> (sounds: Vec<Sound>)
        requires
            now <= MAX_CLOCK_MS,
            old(self).countdown_ok(),
        ensures
            final(self).countdown_ok(),
            same_clock(*old(self), *final(self)),
            final(self).score == old(self).score,
            final(self).visible_time == after_fire(old(self).visible_time as int, fire_events(old(self).enemies@, now)),
            sounds@ == fire_sounds(fire_events(old(self).enemies@, now)),
            exists|w: (Seq<Enemy>, Seq<SupplyBox>, Seq<Enemy>)|
                #[trigger] phase_outcome(*old(self), final(self).enemies@, final(self).supply_boxes@, w.0, w.1, w.2, now),
            now >= old(self).next_enemy_spawn_time ==> now + 500 <= final(self).next_enemy_spawn_time <= now + 1000,
            now < old(self).next_enemy_spawn_time ==> final(self).next_enemy_spawn_time == old(self).next_enemy_spawn_time,
            now >= old(self).next_elite_spawn_time && old(self).game_time >= ELITE_AFTER_MS
                ==> now + 4000 <= final(self).next_elite_spawn_time <= now + 8000,
            !(now >= old(self).next_elite_spawn_time && old(self).game_time >= ELITE_AFTER_MS)
                ==> final(self).next_elite_spawn_time == old(self).next_elite_spawn_time,
            now >= old(self).next_supply_time && since_spec(now, old(self).start_time) >= SUPPLY_AFTER_MS
                ==> now + 5000 <= final(self).next_supply_time <= now + 8000,
            !(now >= old(self).next_supply_time && since_spec(now, old(self).start_time) >= SUPPLY_AFTER_MS)
                ==> final(self).next_supply_time == old(self).next_supply_time,
    {
        let ghost before = self.enemies@;
        let ghost boxes_before = self.supply_boxes@;
        if now >= self.next_enemy_spawn_time {
            let x = roll_between(&mut self.rng, 0, 74999);
            let y = roll_between(&mut self.rng, 0, 49999);
            let variant = roll_between(&mut self.rng, 1, 2);
            self.spawn_enemy(now, x as i64, y as i64, variant as u8);
            let delay = roll_between(&mut self.rng, 500, 1000);
            self.next_enemy_spawn_time = now + delay;
            assert(fresh_normal(self.enemies@[before.len() as int], now));
        }
        let ghost after_normal = self.enemies@;
        let ghost normal_due = now >= old(self).next_enemy_spawn_time;
        assert(after_normal.len() == before.len() + if normal_due { 1int } else { 0 });
        assert(after_normal.subrange(0, before.len() as int) =~= before);
        if now >= self.next_elite_spawn_time && self.game_time >= ELITE_AFTER_MS {
            self.spawn_elite(now);
            assert(self.enemies@ =~= after_normal.push(self.enemies@.last()));
            assert(fresh_elite(self.enemies@.last(), now));
        }
        let ghost born = self.enemies@.subrange(before.len() as int, self.enemies@.len() as int);
        assert(self.enemies@ =~= before + born);
        proof {
            assert forall|k: int| 0 <= k < born.len() implies !fires_now(#[trigger] born[k], now) by {
                assert(born[k] == self.enemies@[before.len() + k]);
            }
            lemma_fire_events_quiet_tail(before, born, now);
        }
        if now >= self.next_supply_time && since(now, self.start_time) >= SUPPLY_AFTER_MS {
            let health = roll_ratio(&mut self.rng, 65, 100);
            let kind = if health {
                SupplyKind::Health
            } else {
                SupplyKind::Tnt
            };
            let x = roll_between(&mut self.rng, 0, 69999);
            let y = roll_between(&mut self.rng, 0, 44999);
            self.spawn_supply_box(now, kind, x as i64, y as i64);
            let delay = roll_between(&mut self.rng, 5000, 8000);
            self.next_supply_time = now + delay;
        }
        let ghost nb = self.supply_boxes@.subrange(boxes_before.len() as int, self.supply_boxes@.len() as int);
        assert(self.supply_boxes@ =~= boxes_before + nb);
        let ghost spawned = self.enemies@;
        let shots = self.advance_enemies(now);
        let ghost st = self.enemies@;
        assert(all_stepped(before + born, st, now));
        self.remove_expired(now);
        proof {
            assert forall|k: int| 0 <= k < shots@.len() implies 1 <= #[trigger] shots@[k] <= 3 by {
                lemma_fire_events_damage(before, now, k);
            }
        }
        let sounds = self.suffer_fire(&shots);
        assert(sounds@ =~= fire_sounds(fire_events(before, now)));
        proof {
            if normal_due {
                assert(born[0] == after_normal[before.len() as int]);
            }
            assert(born_ok(
                born,
                now,
                now >= old(self).next_enemy_spawn_time,
                now >= old(self).next_elite_spawn_time && old(self).game_time >= ELITE_AFTER_MS,
            ));
            let w = (born, nb, st);
            assert(phase_outcome(*old(self), self.enemies@, self.supply_boxes@, w.0, w.1, w.2, now));
        }
        sounds
    }

    /// A click at `p` at `now`: it shoots the first standing enemy under it,
    /// then hits the first active box under it, and asks for the gunshot, a
    /// death sound for a kill and the box's sound.
    pub fn take_click(&mut self, p: Point, now: u64) -> (sounds: Vec<Sound>)
        requires
            old(self).countdown_ok(),
        ensures
            final(self).countdown_ok(),
            same_clock(*old(self), *final(self)),
            final(self).enemies@ == clicked_enemies(old(self).enemies@, old(self).supply_boxes@, p, now),
            final(self).supply_boxes@ == clicked_boxes(old(self).supply_boxes@, p, now),
            final(self).score == clicked_score(old(self).score, old(self).enemies@, old(self).supply_boxes@, p, now),
            final(self).visible_time == clicked_countdown(old(self).visible_time as int, old(self).supply_boxes@, p),
            final(self).score >= old(self).score,
            click_sounds_ok(sounds@, shot_kill(old(self).enemies@, p), box_target_kind(old(self).supply_boxes@, p)),
            final(self).next_enemy_spawn_time == old(self).next_enemy_spawn_time,
            final(self).next_elite_spawn_time == old(self).next_elite_spawn_time,
            final(self).next_supply_time == old(self).next_supply_time,
    {
        let mut sounds: Vec<Sound> = Vec::new();
        sounds.push(Sound::Gunshot);
        let ghost bs = self.supply_boxes@;
        if let Some(kind) = self.handle_click_on_enemy(p, now) {
            let special = roll_ratio(&mut self.rng, 5, 100);
            let index = match kind {
                EnemyKind::Normal => roll_between(&mut self.rng, 1, 3),
                EnemyKind::Elite => roll_between(&mut self.rng, 1, 2),
            };
            sounds.push(death_sound(kind, special, index as u8));
        }
        let ghost es1 = self.enemies@;
        let ghost score1 = self.score;
        let hit = self.click_supply(p, now);
        proof {
            if exists|i: int| is_box_target(bs, p, i) {
                let i = choose|i: int| is_box_target(bs, p, i);
                assert(is_box_target(bs, p, i));
                if bs[i].kind == SupplyKind::Tnt {
                    assert(self.enemies@ =~= blast_all(es1, now));
                }
                assert(self.supply_boxes@ =~= clicked_boxes(bs, p, now));
            }
        }
        match hit {
            Some(SupplyKind::Health) => {
                let index = roll_between(&mut self.rng, 1, 3);
                sounds.push(Sound::SupplyDamage(index as u8));
            },
            Some(SupplyKind::Tnt) => {
                if roll_ratio(&mut self.rng, 1, 100) {
                    sounds.push(Sound::SupplyExplosionSpecial);
                } else {
                    sounds.push(Sound::SupplyExplosion);
                }
            },
            None => {},
        }
        sounds
    }

    /// Evaluates one frame at `now`, with the primary click of this frame if
    /// any. Active play time grows by the time since the previous frame when
    /// the frame starts in play. During the intro only the prompt advances.
    /// Once the countdown is at zero the session is over and stays frozen. In
    /// a playing frame `play_phase` runs; the click, also taken in the frame
    /// that ends the intro, is then handled by `take_click`. Last, the
    /// countdown loses a second for each full second of active play that
    /// ended in this frame.
    pub fn update(&mut self, now: u64, click: Option<Point>) -> (r: FrameReport)
        requires
            now <= MAX_CLOCK_MS,
            old(self).countdown_ok(),
        ensures
            final(self).countdown_ok(),
            final(self).score >= old(self).score,
            final(self).last_update == now,
            final(self).intro_start == old(self).intro_start,
            final(self).game_time == if !old(self).show_intro && !old(self).game_over {
                add_time(old(self).game_time, since_spec(now, old(self).last_update) as u64)
            } else {
                old(self).game_time
            },
            final(self).game_over == (old(self).game_over || (!old(self).show_intro
                && old(self).visible_time <= 0)),
            old(self).show_intro && since_spec(now, old(self).intro_start) < 2 * PROMPT_MS ==> {
                &&& r.screen == Screen::Prompt(prompt_spec(since_spec(now, old(self).intro_start)).unwrap())
                &&& r.sounds@.len() == 0
                &&& final(self).show_intro
                &&& final(self).start_time == old(self).start_time
                &&& final(self).enemies@ == old(self).enemies@
                &&& final(self).supply_boxes@ == old(self).supply_boxes@
                &&& final(self).score == old(self).score
                &&& final(self).visible_time == old(self).visible_time
            },
            old(self).show_intro && since_spec(now, old(self).intro_start) >= 2 * PROMPT_MS ==> {
                &&& r.screen == Screen::Blank
                &&& !final(self).show_intro
                &&& final(self).start_time == now
                &&& final(self).next_enemy_spawn_time == old(self).next_enemy_spawn_time
                &&& final(self).next_elite_spawn_time == old(self).next_elite_spawn_time
                &&& final(self).next_supply_time == old(self).next_supply_time
                &&& click_outcome(
                    *final(self),
                    r.sounds@,
                    old(self).enemies@,
                    old(self).supply_boxes@,
                    old(self).visible_time as int,
                    old(self).score,
                    Seq::empty(),
                    if old(self).game_over { None } else { click },
                    now,
                    false,
                )
            },
            !old(self).show_intro && (old(self).game_over || old(self).visible_time <= 0) ==> {
                &&& r.screen == Screen::GameOver
                &&& r.sounds@.len() == 0
                &&& final(self).game_over
                &&& final(self).enemies@ == old(self).enemies@
                &&& final(self).supply_boxes@ == old(self).supply_boxes@
                &&& final(self).score == old(self).score
                &&& final(self).next_enemy_spawn_time == old(self).next_enemy_spawn_time
                &&& final(self).next_elite_spawn_time == old(self).next_elite_spawn_time
                &&& final(self).next_supply_time == old(self).next_supply_time
                &&& old(self).visible_time == 0 ==> final(self).visible_time == 0
                &&& old(self).game_over ==> final(self).visible_time == old(self).visible_time
            },
            !old(self).show_intro && !old(self).game_over && old(self).visible_time > 0 ==> {
                &&& r.screen == Screen::Playing
                &&& now >= old(self).next_enemy_spawn_time ==> now + 500 <= final(self).next_enemy_spawn_time <= now + 1000
                &&& now < old(self).next_enemy_spawn_time ==> final(self).next_enemy_spawn_time == old(self).next_enemy_spawn_time
                &&& now >= old(self).next_elite_spawn_time && final(self).game_time >= ELITE_AFTER_MS
                    ==> now + 4000 <= final(self).next_elite_spawn_time <= now + 8000
                &&& !(now >= old(self).next_elite_spawn_time && final(self).game_time >= ELITE_AFTER_MS)
                    ==> final(self).next_elite_spawn_time == old(self).next_elite_spawn_time
                &&& now >= old(self).next_supply_time && since_spec(now, old(self).start_time) >= SUPPLY_AFTER_MS
                    ==> now + 5000 <= final(self).next_supply_time <= now + 8000
                &&& !(now >= old(self).next_supply_time && since_spec(now, old(self).start_time) >= SUPPLY_AFTER_MS)
                    ==> final(self).next_supply_time == old(self).next_supply_time
                &&& exists|born: Seq<Enemy>, nb: Seq<SupplyBox>, st: Seq<Enemy>|
                    #[trigger] playing_outcome(
                        *old(self),
                        *final(self),
                        r.sounds@,
                        born,
                        nb,
                        st,
                        click,
                        now,
                    )
            },
    {
        let delta = since(now, self.last_update);
        let was_active = !self.show_intro && !self.game_over;
        let old_game_time = self.game_time;
        if was_active {
            self.game_time = self.game_time.saturating_add(delta);
        }
        self.last_update = now;
        let mut sounds: Vec<Sound> = Vec::new();
        let screen;
        let ghost mut mid = *self;
        let ghost mut born: Seq<Enemy> = Seq::empty();
        let ghost mut nb: Seq<SupplyBox> = Seq::empty();
        let ghost mut st: Seq<Enemy> = Seq::empty();
        if self.show_intro {
            match intro_prompt(since(now, self.intro_start)) {
                Some(prompt) => {
                    screen = Screen::Prompt(prompt);
                },
                None => {
                    self.start_time = now;
                    self.show_intro = false;
                    screen = Screen::Blank;
                },
            }
        } else {
            if self.visible_time <= 0 {
                self.game_over = true;
            }
            if self.game_over {
                screen = Screen::GameOver;
            } else {
                screen = Screen::Playing;
                proof {
                    mid = *self;
                }
                sounds = self.play_phase(now);
                proof {
                    let w = choose|w: (Seq<Enemy>, Seq<SupplyBox>, Seq<Enemy>)|
                        phase_outcome(mid, self.enemies@, self.supply_boxes@, w.0, w.1, w.2, now);
                    born = w.0;
                    nb = w.1;
                    st = w.2;
                }
            }
        }
        let ghost es = self.enemies@;
        let ghost bs = self.supply_boxes@;
        let ghost v1 = self.visible_time as int;
        let ghost score1 = self.score;
        let ghost pre = sounds@;
        if !self.show_intro && !self.game_over {
            if let Some(p) = click {
                let mut click_sounds = self.take_click(p, now);
                let ghost taken = click_sounds@;
                sounds.append(&mut click_sounds);
                assert(sounds@.subrange(0, pre.len() as int) =~= pre);
                assert(sounds@.subrange(pre.len() as int, sounds@.len() as int) =~= taken);
            }
        }
        if was_active && self.game_time / 1000 > old_game_time / 1000 {
            let v = self.visible_time - 1;
            self.visible_time = if v < 0 { 0 } else { v };
        }
        proof {
            if !old(self).show_intro && !old(self).game_over && old(self).visible_time > 0 {
                assert(mid.enemies@ == old(self).enemies@);
                assert(mid.supply_boxes@ == old(self).supply_boxes@);
                assert(phase_outcome(mid, es, bs, born, nb, st, now));
                assert(born_ok(
                    born,
                    now,
                    now >= old(self).next_enemy_spawn_time,
                    now >= old(self).next_elite_spawn_time && self.game_time >= ELITE_AFTER_MS,
                ));
                assert(click_outcome(
                    *self,
                    sounds@,
                    es,
                    bs,
                    v1,
                    score1,
                    pre,
                    click,
                    now,
                    self.game_time / 1000 > old(self).game_time / 1000,
                ));
                assert(playing_outcome(
                    *old(self),
                    *self,
                    sounds@,
                    born,
                    nb,
                    st,
                    click,
                    now,
                ));
            }
        }
        let r = FrameReport { screen, sounds };
        proof {
            if !old(self).show_intro && !old(self).game_over && old(self).visible_time > 0 {
                assert(playing_outcome(*old(self), *self, r.sounds@, born, nb, st, click, now));
            }
        }
        r
    }
}

/// Every shot of a frame deals one or three seconds.
proof fn lemma_fire_events_damage(s: Seq<Enemy>, now: u64, k: int)
    requires
        0 <= k < fire_events(s, now).len(),
    ensures
        1 <= fire_events(s, now)[k] <= 3,
    decreases s.len(),
{
    if s.len() > 0 {
        let rest = fire_events(s.drop_last(), now);
        if k < rest.len() {
            lemma_fire_events_damage(s.drop_last(), now, k);
        }
    }
}

/// `e` after one shot at `now`; a dying enemy is not touched.
pub open spec fn hit_result(e: Enemy, now: u64) -> Enemy {
    if is_dying(e) {
        e
    } else {
        after_hit(e, now)
    }
}

/// Whether one shot kills `e`.
pub open spec fn hit_kills(e: Enemy) -> bool {
    !is_dying(e) && e.hitpoints <= 1
}

/// `e` after shots at the moments `ts`, in order.
pub open spec fn after_hits(e: Enemy, ts: Seq<u64>) -> Enemy
    decreases ts.len(),
{
    if ts.len() == 0 {
        e
    } else {
        hit_result(after_hits(e, ts.drop_last()), ts.last())
    }
}

/// How many of the shots at the moments `ts` kill `e`.
pub open spec fn kills(e: Enemy, ts: Seq<u64>) -> int
    decreases ts.len(),
{
    if ts.len() == 0 {
        0
    } else {
        kills(e, ts.drop_last()) + if hit_kills(after_hits(e, ts.drop_last())) {
            1int
        } else {
            0
        }
    }
}

/// Successive shots only lower an enemy's hitpoints and kill it at most
/// once: after the killing shot it is dying, and a dying enemy is left as it
/// is by any further shot.
pub proof fn lemma_successive_hits(e: Enemy, ts: Seq<u64>)
    ensures
        after_hits(e, ts).hitpoints <= e.hitpoints,
        0 <= kills(e, ts) <= 1,
        kills(e, ts) == 1 ==> is_dying(after_hits(e, ts)),
        kills(e, ts) == 0 && !is_dying(e) ==> !is_dying(after_hits(e, ts)),
        is_dying(e) ==> kills(e, ts) == 0 && after_hits(e, ts) == e,
    decreases ts.len(),
{
    if ts.len() > 0 {
        lemma_successive_hits(e, ts.drop_last());
    }
}

/// A dying enemy leaves the field in the first frame evaluated half a second
/// or more after it started dying, and not before.
pub proof fn lemma_dying_window(s: Seq<Enemy>, now: u64, i: int)
    requires
        0 <= i < s.len(),
        is_dying(s[i]),
    ensures
        since_spec(now, s[i].state->Dying_0) < DYING_MS ==> s.filter(enemy_keeps_at(now)).contains(s[i]),
        since_spec(now, s[i].state->Dying_0) >= DYING_MS ==> !s.filter(enemy_keeps_at(now)).contains(s[i]),
{
    broadcast use vstd::seq_lib::group_filter_ensures;
    if since_spec(now, s[i].state->Dying_0) >= DYING_MS {
        if s.filter(enemy_keeps_at(now)).contains(s[i]) {
            let k = choose|k: int| 0 <= k < s.filter(enemy_keeps_at(now)).len()
                && s.filter(enemy_keeps_at(now))[k] == s[i];
            assert(enemy_keeps_at(now)(s.filter(enemy_keeps_at(now))[k]));
        }
    }
}

/// A click on a point that lies in exactly one active box, a health box,
/// hits that box and no other.
pub proof fn lemma_single_box_click(bs: Seq<SupplyBox>, p: Point, i: int)
    requires
        0 <= i < bs.len(),
        bs[i].state == SupplyState::Active,
        in_box(bs[i].x, bs[i].y, BOX_SIDE, BOX_SIDE, p),
        forall|j: int|
            0 <= j < bs.len() && j != i ==> !(#[trigger] bs[j].state == SupplyState::Active && in_box(
                bs[j].x,
                bs[j].y,
                BOX_SIDE,
                BOX_SIDE,
                p,
            )),
    ensures
        is_box_target(bs, p, i),
        forall|c: int| is_box_target(bs, p, c) ==> c == i,
{
}

} // verus!
