//! An object pool that hands out values of a type and takes them back for
//! reuse once the handle that owns them goes out of scope.

pub mod free_list;
pub mod pool;

pub use free_list::FreeList;
pub use pool::{refurbish, PoolPoisoned, Recyclable, Recycler, Reset};
