//! The classic session: one kind of enemy, a fixed twenty-second round.
use crate::dice::{roll_between, roll_ratio, seeded};
use crate::geometry::{box_contains, in_box, Point};
use crate::timing::{intro_prompt, prompt_spec, since, since_spec, MAX_CLOCK_MS, PROMPT_MS};
use crate::{FrameReport, Screen, Sound, Visual};
use rand::rngs::StdRng;
use vstd::prelude::*;

verus! {

/// Length of a round, from the end of the intro.
pub const ROUND_MS: u64 = 20000;

/// How long an untouched enemy stays.
pub const ALIVE_MS: u64 = 3000;

/// How long a dying enemy stays.
pub const DYING_MS: u64 = 500;

/// Width of an enemy's hit box, in hundredths of a unit.
pub const ENEMY_W: i64 = 7500;

/// Height of an enemy's hit box (75 x 55 / 35 units), in hundredths of a unit.
pub const ENEMY_H: i64 = 11786;

#[derive(Clone, Copy, Debug, PartialEq, Eq, Structural)]
pub enum EnemyState {
    Alive,
    /// Holds the moment it started dying.
    Dying(u64),
}

#[derive(Clone, Copy, Debug, PartialEq, Eq, Structural)]
pub struct Enemy {
    pub x: i64,
    pub y: i64,
    /// Which of the two looks it has, 1 or 2.
    pub variant: u8,
    pub state: EnemyState,
    pub spawn_time: u64,
}

/// Whether `e` is still on the field at `now`.
pub open spec fn keeps(e: Enemy, now: u64) -> bool {
    match e.state {
        EnemyState::Alive => since_spec(now, e.spawn_time) < ALIVE_MS,
        EnemyState::Dying(t0) => since_spec(now, t0) < DYING_MS,
    }
}

/// `keeps` at a fixed moment, as a predicate on enemies.
pub open spec fn keeps_at(now: u64) -> spec_fn(Enemy) -> bool {
    |e: Enemy| keeps(e, now)
}

/// Whether a click at `p` lands on `e`.
pub open spec fn hits(e: Enemy, p: Point) -> bool {
    in_box(e.x, e.y, ENEMY_W, ENEMY_H, p)
}

/// Whether a click at `p` can shoot `e`: it lands on it and `e` is alive.
pub open spec fn targets(e: Enemy, p: Point) -> bool {
    hits(e, p) && e.state == EnemyState::Alive
}

/// `i` is the first alive enemy of `s` that a click at `p` lands on.
pub open spec fn is_first_hit(s: Seq<Enemy>, p: Point, i: int) -> bool {
    &&& 0 <= i < s.len()
    &&& targets(s[i], p)
    &&& forall|j: int| 0 <= j < i ==> !targets(#[trigger] s[j], p)
}

/// `e` after a click shoots it: it starts dying at `now`.
pub open spec fn shot(e: Enemy, now: u64) -> Enemy {
    Enemy { state: EnemyState::Dying(now), ..e }
}

/// The sounds of a click: the gunshot, then a death sound if it killed.
pub open spec fn click_sounds(ss: Seq<Sound>, landed: bool) -> bool {
    &&& ss.len() == if landed { 2int } else { 1 }
    &&& ss[0] == Sound::Gunshot
    &&& landed ==> (ss[1] == Sound::EnemyDeathSpecial || (ss[1] matches Sound::EnemyDeath(k)
        && 1 <= k <= 3))
}

/// `c` is a session whose intro starts at `now`, before any frame.
pub open spec fn fresh_session(c: ClassicApp, now: u64) -> bool {
    &&& c.score == 0
    &&& c.enemies@.len() == 0
    &&& now + 500 <= c.next_spawn_time <= now + 1000
    &&& c.start_time == now
    &&& !c.game_over
    &&& c.show_intro
    &&& c.intro_start == now
}

/// Whether `click` lands on some enemy of `s`.
pub open spec fn click_lands(s: Seq<Enemy>, click: Option<Point>) -> bool {
    match click {
        Some(p) => exists|i: int| is_first_hit(s, p, i),
        None => false,
    }
}

/// The enemies `s` after `click` at `now`: the first enemy it lands on is shot.
pub open spec fn after_click(s: Seq<Enemy>, click: Option<Point>, now: u64) -> Seq<Enemy> {
    match click {
        Some(p) => if exists|i: int| is_first_hit(s, p, i) {
            let i = choose|i: int| is_first_hit(s, p, i);
            s.update(i, shot(s[i], now))
        } else {
            s
        },
        None => s,
    }
}

/// `score` raised by one point unless it is already at its largest.
pub open spec fn plus_one(score: u64) -> int {
    if score < u64::MAX {
        score + 1
    } else {
        score as int
    }
}

/// An enemy as the spawner makes it at `now`.
pub open spec fn fresh(e: Enemy, now: u64) -> bool {
    &&& e.state == EnemyState::Alive
    &&& e.spawn_time == now
    &&& 0 <= e.x < 75000
    &&& 0 <= e.y < 50000
    &&& 1 <= e.variant <= 2
}

/// The sound of a kill: the rare one when `special`, else ordinary sound
/// `index`.
pub open spec fn death_sound_spec(special: bool, index: u8) -> Sound {
    if special {
        Sound::EnemyDeathSpecial
    } else {
        Sound::EnemyDeath(index)
    }
}

/// The sprite for `e` at `now`: its own look while alive, then the two death
/// frames, switching halfway through.
pub open spec fn visual_spec(e: Enemy, now: u64) -> Visual {
    match e.state {
        EnemyState::Alive => Visual::Enemy(e.variant),
        EnemyState::Dying(t0) => if since_spec(now, t0) < DYING_MS / 2 {
            Visual::EnemyDeath(1)
        } else {
            Visual::EnemyDeath(2)
        },
    }
}

impl Enemy {
    /// The sprite to draw for this enemy at `now`.
    pub fn visual(&self, now: u64) -> (r: Visual)
        ensures
            r == visual_spec(*self, now),
    {
        match self.state {
            EnemyState::Alive => Visual::Enemy(self.variant),
            EnemyState::Dying(t0) => if since(now, t0) < DYING_MS / 2 {
                Visual::EnemyDeath(1)
            } else {
                Visual::EnemyDeath(2)
            },
        }
    }
}

pub struct ClassicApp {
    pub score: u64,
    pub enemies: Vec<Enemy>,
    pub next_spawn_time: u64,
    pub start_time: u64,
    pub game_over: bool,
    pub show_intro: bool,
    pub intro_start: u64,
    /// The random source for spawns and sounds.
    pub rng: StdRng,
}

/// The sound of a kill.
pub fn death_sound(special: bool, index: u8) -> (r: Sound)
    ensures
        r == death_sound_spec(special, index),
{
    if special {
        Sound::EnemyDeathSpecial
    } else {
        Sound::EnemyDeath(index)
    }
}

impl ClassicApp {
    /// A session whose intro starts at `now`, drawing its randomness from a
    /// generator seeded with `seed`.
    pub fn new(now: u64, seed: u64) -> (r: Self)
        requires
            now <= MAX_CLOCK_MS,
        ensures
            fresh_session(r, now),
    {
        let mut rng = seeded(seed);
        let delay = roll_between(&mut rng, 500, 1000);
        ClassicApp {
            score: 0,
            enemies: Vec::new(),
            next_spawn_time: now + delay,
            start_time: now,
            game_over: false,
            show_intro: true,
            intro_start: now,
            rng,
        }
    }

    /// Adds an alive enemy at `(x, y)` with look `variant`, born at `now`.
    pub fn spawn_enemy(&mut self, now: u64, x: i64, y: i64, variant: u8)
        ensures
            final(self).enemies@ == old(self).enemies@.push(
                Enemy { x, y, variant, state: EnemyState::Alive, spawn_time: now },
            ),
            final(self).score == old(self).score,
            final(self).next_spawn_time == old(self).next_spawn_time,
            final(self).start_time == old(self).start_time,
            final(self).game_over == old(self).game_over,
            final(self).show_intro == old(self).show_intro,
            final(self).intro_start == old(self).intro_start,
    {
        self.enemies.push(Enemy { x, y, variant, state: EnemyState::Alive, spawn_time: now });
    }

    /// Drops the enemies whose time on the field is over at `now`: alive ones
    /// after three seconds, dying ones after half a second.
    pub fn remove_expired(&mut self, now: u64)
        ensures
            final(self).enemies@ == old(self).enemies@.filter(keeps_at(now)),
            final(self).score == old(self).score,
            final(self).next_spawn_time == old(self).next_spawn_time,
            final(self).start_time == old(self).start_time,
            final(self).game_over == old(self).game_over,
            final(self).show_intro == old(self).show_intro,
            final(self).intro_start == old(self).intro_start,
    {
        let ghost s = self.enemies@;
        let mut kept: Vec<Enemy> = Vec::new();
        let mut i: usize = 0;
        while i < self.enemies.len()
            invariant
                self.enemies@ == s,
                i <= s.len(),
                kept@ == s.subrange(0, i as int).filter(keeps_at(now)),
            decreases s.len() - i,
        {
            let e = self.enemies[i];
            assert(s.subrange(0, i + 1).drop_last() == s.subrange(0, i as int));
            let keep = match e.state {
                EnemyState::Alive => since(now, e.spawn_time) < ALIVE_MS,
                EnemyState::Dying(t0) => since(now, t0) < DYING_MS,
            };
            assert(s.subrange(0, i + 1).last() == e);
            assert(keeps_at(now)(e) == keep);
            proof {
                reveal(Seq::filter);
                let sub = s.subrange(0, i + 1);
                assert(sub.filter(keeps_at(now)) == if keeps_at(now)(sub.last()) {
                    sub.drop_last().filter(keeps_at(now)).push(sub.last())
                } else {
                    sub.drop_last().filter(keeps_at(now))
                });
            }
            if keep {
                kept.push(e);
            }
            i += 1;
        }
        assert(s.subrange(0, s.len() as int) == s);
        self.enemies = kept;
    }

    /// The first alive enemy that a click at `p` lands on, if any.
    pub fn click_target(&self, p: Point) -> (r: Option<usize>)
        ensures
            match r {
                Some(i) => is_first_hit(self.enemies@, p, i as int),
                None => forall|j: int| 0 <= j < self.enemies@.len() ==> !targets(#[trigger] self.enemies@[j], p),
            },
    {
        let mut i: usize = 0;
        while i < self.enemies.len()
            invariant
                i <= self.enemies@.len(),
                forall|j: int| 0 <= j < i ==> !targets(#[trigger] self.enemies@[j], p),
            decreases self.enemies@.len() - i,
        {
            let e = self.enemies[i];
            if e.state == EnemyState::Alive && box_contains(e.x, e.y, ENEMY_W, ENEMY_H, p) {
                return Some(i);
            }
            i += 1;
        }
        None
    }

    /// Shoots enemy `i` at `now`: an alive enemy starts dying and scores one
    /// point. A dying enemy is left to its clock and scores nothing.
    pub fn shoot(&mut self, i: usize, now: u64)
        requires
            i < old(self).enemies@.len(),
        ensures
            old(self).enemies@[i as int].state == EnemyState::Alive ==> {
                &&& final(self).enemies@ == old(self).enemies@.update(i as int, shot(old(self).enemies@[i as int], now))
                &&& final(self).score == plus_one(old(self).score)
            },
            old(self).enemies@[i as int].state != EnemyState::Alive ==> {
                &&& final(self).enemies@ == old(self).enemies@
                &&& final(self).score == old(self).score
            },
            final(self).next_spawn_time == old(self).next_spawn_time,
            final(self).start_time == old(self).start_time,
            final(self).game_over == old(self).game_over,
            final(self).show_intro == old(self).show_intro,
            final(self).intro_start == old(self).intro_start,
    {
        let e = self.enemies[i];
        if let EnemyState::Alive = e.state {
            self.enemies.set(i, Enemy { state: EnemyState::Dying(now), ..e });
            self.score = self.score.saturating_add(1);
        }
    }

    /// Evaluates one frame at `now`, with the primary click of this frame if
    /// any. During the intro only the prompt advances; once the round has run
    /// twenty seconds the session is over and stays frozen. In a playing frame
    /// an enemy may spawn, expired enemies leave, and then the click (which is
    /// also taken in the frame that ends the intro) shoots the first alive
    /// enemy whose box holds it.
    pub fn update(&mut self, now: u64, click: Option<Point>) -> (r: FrameReport)
        requires
            now <= MAX_CLOCK_MS,
        ensures
            old(self).show_intro && since_spec(now, old(self).intro_start) < 2 * PROMPT_MS ==> {
                &&& r.screen == Screen::Prompt(prompt_spec(since_spec(now, old(self).intro_start)).unwrap())
                &&& r.sounds@.len() == 0
                &&& final(self).show_intro
                &&& final(self).start_time == old(self).start_time
                &&& final(self).enemies@ == old(self).enemies@
                &&& final(self).score == old(self).score
                &&& final(self).next_spawn_time == old(self).next_spawn_time
            },
            old(self).show_intro && since_spec(now, old(self).intro_start) >= 2 * PROMPT_MS ==> {
                &&& r.screen == Screen::Blank
                &&& !final(self).show_intro
                &&& final(self).start_time == now
                &&& final(self).next_spawn_time == old(self).next_spawn_time
                &&& old(self).game_over ==> final(self).enemies@ == old(self).enemies@
                    && final(self).score == old(self).score && r.sounds@.len() == 0
                &&& !old(self).game_over ==> {
                    &&& final(self).enemies@ == after_click(old(self).enemies@, click, now)
                    &&& final(self).score == if click_lands(old(self).enemies@, click) {
                        plus_one(old(self).score)
                    } else {
                        old(self).score as int
                    }
                    &&& click.is_some() ==> click_sounds(r.sounds@, click_lands(old(self).enemies@, click))
                }
            },
            !old(self).show_intro && (old(self).game_over || since_spec(now, old(self).start_time) >= ROUND_MS) ==> {
                &&& r.screen == Screen::GameOver
                &&& r.sounds@.len() == 0
                &&& final(self).game_over
                &&& final(self).enemies@ == old(self).enemies@
                &&& final(self).score == old(self).score
                &&& final(self).next_spawn_time == old(self).next_spawn_time
            },
            !old(self).show_intro && !old(self).game_over && since_spec(now, old(self).start_time) < ROUND_MS ==> {
                &&& r.screen == Screen::Playing
                &&& now >= old(self).next_spawn_time ==> now + 500 <= final(self).next_spawn_time <= now + 1000
                &&& now < old(self).next_spawn_time ==> final(self).next_spawn_time == old(self).next_spawn_time
                &&& exists|born: Seq<Enemy>| {
                    &&& born.len() == (if now >= old(self).next_spawn_time { 1int } else { 0 })
                    &&& forall|k: int| 0 <= k < born.len() ==> fresh(#[trigger] born[k], now)
                    &&& final(self).enemies@ == after_click((old(self).enemies@ + born).filter(keeps_at(now)), click, now)
                    &&& final(self).score == if click_lands((old(self).enemies@ + born).filter(keeps_at(now)), click) {
                        plus_one(old(self).score)
                    } else {
                        old(self).score as int
                    }
                    &&& click.is_some() ==> click_sounds(
                        r.sounds@,
                        click_lands((old(self).enemies@ + born).filter(keeps_at(now)), click),
                    )
                }
                &&& forall|j: int| 0 <= j < final(self).enemies@.len() ==> keeps(#[trigger] final(self).enemies@[j], now)
            },
            final(self).game_over == (old(self).game_over || (!old(self).show_intro && since_spec(now, old(self).start_time) >= ROUND_MS)),
            final(self).intro_start == old(self).intro_start,
            click.is_none() ==> r.sounds@.len() == 0,
    {
        let mut sounds: Vec<Sound> = Vec::new();
        let screen;
        let ghost mid: Seq<Enemy>;
        if self.show_intro {
            match intro_prompt(since(now, self.intro_start)) {
                Some(prompt) => {
                    return FrameReport { screen: Screen::Prompt(prompt), sounds };
                },
                None => {
                    self.start_time = now;
                    self.show_intro = false;
                    screen = Screen::Blank;
                    proof { mid = self.enemies@; }
                },
            }
        } else {
            if since(now, self.start_time) >= ROUND_MS {
                self.game_over = true;
            }
            if self.game_over {
                return FrameReport { screen: Screen::GameOver, sounds };
            }
            let ghost before = self.enemies@;
            if now >= self.next_spawn_time {
                let x = roll_between(&mut self.rng, 0, 74999);
                let y = roll_between(&mut self.rng, 0, 49999);
                let variant = roll_between(&mut self.rng, 1, 2);
                self.spawn_enemy(now, x as i64, y as i64, variant as u8);
                let delay = roll_between(&mut self.rng, 500, 1000);
                self.next_spawn_time = now + delay;
            }
            let ghost born = self.enemies@.subrange(before.len() as int, self.enemies@.len() as int);
            assert(self.enemies@ == before + born);
            self.remove_expired(now);
            proof { mid = self.enemies@; }
            screen = Screen::Playing;
        }
        if self.game_over {
            return FrameReport { screen, sounds };
        }
        if let Some(p) = click {
            sounds.push(Sound::Gunshot);
            if let Some(i) = self.click_target(p) {
                let special = roll_ratio(&mut self.rng, 5, 100);
                let index = roll_between(&mut self.rng, 1, 3);
                self.shoot(i, now);
                sounds.push(death_sound(special, index as u8));
            }
        }
        FrameReport { screen, sounds }
    }
}

/// A dying enemy leaves the field in the first frame evaluated half a second
/// or more after it started dying, and not before.
pub proof fn lemma_dying_window(s: Seq<Enemy>, now: u64, i: int)
    requires
        0 <= i < s.len(),
        s[i].state is Dying,
    ensures
        since_spec(now, s[i].state->Dying_0) < DYING_MS ==> s.filter(keeps_at(now)).contains(s[i]),
        since_spec(now, s[i].state->Dying_0) >= DYING_MS ==> !s.filter(keeps_at(now)).contains(s[i]),
{
    broadcast use vstd::seq_lib::group_filter_ensures;
    if since_spec(now, s[i].state->Dying_0) >= DYING_MS {
        if s.filter(keeps_at(now)).contains(s[i]) {
            let k = choose|k: int| 0 <= k < s.filter(keeps_at(now)).len()
                && s.filter(keeps_at(now))[k] == s[i];
            assert(keeps_at(now)(s.filter(keeps_at(now))[k]));
        }
    }
}

} // verus!
