use vstd::prelude::*;

pub mod backpack_summary;
pub mod bounds;
pub mod combat;
pub mod compass;
pub mod contracts;
pub mod coordinates;
pub mod countdown;
pub mod exfil;
pub mod inventory;
pub mod lock;
pub mod loot;
pub mod matchmake;
pub mod projectile;
pub mod raid_summary;
pub mod spawn;
pub mod squad;
pub mod states;
pub mod text;
pub mod timers;
pub mod ui;
pub mod wallet;

verus! {

} // verus!
