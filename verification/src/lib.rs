pub mod artifact;
pub mod capability;
pub mod color;
pub mod config;
pub mod controller;
pub mod draw;
pub mod frame;
pub mod march7th;
pub mod positioning;
pub mod relic;
pub mod text;
