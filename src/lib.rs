//! Frame-driven core of a small target-shooting game: two game sessions
//! (classic and advanced), the mode selector that owns them, and the menu's
//! intro fade. Time is a monotonic clock in milliseconds and positions are in
//! hundredths of a screen unit; rendering and audio are left to the host.
pub mod advanced;
pub mod classic;
pub mod dice;
pub mod geometry;
pub mod selector;
pub mod timing;

use vstd::prelude::*;

verus! {

/// What a finished round asks of the mode selector.
#[derive(Clone, Copy, Debug, PartialEq, Eq, Structural)]
pub enum Signal {
    Restart,
    Menu,
}

/// The two prompts shown during a session's intro.
#[derive(Clone, Copy, Debug, PartialEq, Eq, Structural)]
pub enum IntroPrompt {
    /// Shown for the first two seconds.
    Ready,
    /// Shown for the next two seconds.
    Go,
}

/// What the host draws for a session in the frame just evaluated.
#[derive(Clone, Copy, Debug, PartialEq, Eq, Structural)]
pub enum Screen {
    Prompt(IntroPrompt),
    /// The frame in which the intro ended: nothing is drawn.
    Blank,
    Playing,
    GameOver,
}

/// A sound effect the host is asked to play (fire and forget).
#[derive(Clone, Copy, Debug, PartialEq, Eq, Structural)]
pub enum Sound {
    Gunshot,
    EnemyFire,
    EliteFire,
    /// One of three ordinary death sounds, numbered from 1.
    EnemyDeath(u8),
    EnemyDeathSpecial,
    /// One of two ordinary elite death sounds, numbered from 1.
    EliteDeath(u8),
    EliteDeathSpecial,
    /// One of three sounds of a health box being hit, numbered from 1.
    SupplyDamage(u8),
    SupplyExplosion,
    SupplyExplosionSpecial,
}

/// A sprite the host is asked to draw for an entity.
#[derive(Clone, Copy, Debug, PartialEq, Eq, Structural)]
pub enum Visual {
    /// A normal enemy standing, in one of two looks numbered from 1.
    Enemy(u8),
    EnemyFire,
    /// A normal enemy's death frame, 1 or 2.
    EnemyDeath(u8),
    /// An elite standing, in one of two looks numbered from 1.
    Elite(u8),
    EliteFire,
    /// An elite's death frame, 1 or 2.
    EliteDeath(u8),
    BoxHealth,
    BoxTnt,
    BoxDamaged,
    BoxExplosion,
    BoxDestroyed,
}

/// What one session frame hands back to the host.
pub struct FrameReport {
    pub screen: Screen,
    pub sounds: Vec<Sound>,
}

} // verus!
