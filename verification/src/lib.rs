//! Game rules of a top-down roguelike archery game: experience and
//! levelling, projectile hit budgets, wave and batch scheduling of a level,
//! run statistics, skill upgrades and the text shown on the HUD.

pub mod player;
pub mod faction;
pub mod projectile;
pub mod text;
pub mod skill;
pub mod ability;
pub mod level;
pub mod state;
pub mod run;
pub mod spawn;
pub mod enemy;
pub mod weapon;
