use vstd::prelude::*;

pub mod assets;
pub mod cd_player_backend;
pub mod loading;
pub mod config;
pub mod devices;
pub mod nav;
pub mod numparse;
pub mod paths;
pub mod patterns;
pub mod save;
pub mod sorting;
pub mod system;
pub mod text;
pub mod ui;

verus! {
}
