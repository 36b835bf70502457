//! Verified core of an on-screen keyboard that injects key events through a
//! virtual-keyboard protocol: modifier masks, key code tables, page layouts,
//! action planning and the key-injection engine that runs on the backend side.

pub mod backend;
pub mod keycodes;
pub mod layout;
pub mod state;
pub mod actions;
pub mod injector;
pub mod keymap;
pub mod registry;
