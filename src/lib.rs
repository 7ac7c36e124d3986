//! A directory navigator's core: a cursor list, a key table, and the state
//! machine that descends into and ascends out of directories while it
//! remembers where the cursor was left in each.

pub mod actions;
pub mod dispatch;
pub mod entry;
pub mod inputs;
pub mod list;
pub mod path;
pub mod state;
