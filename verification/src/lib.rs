//! Runtime core of an interactive application: a multi-rate fixed-timestep
//! scheduler built from drift-corrected timers, an input pipeline that maps
//! raw platform events to abstract inputs and drives menu navigation, and a
//! view-stack engine that routes input through an ordered stack of screens
//! and rebuilds the stack from their transition requests.

pub mod game;
pub mod graphics;
pub mod input;
pub mod main_menu;
pub mod math;
pub mod scheduler;
pub mod screens;
pub mod terrain;
pub mod timer;
pub mod view;
