//! Scene stack, entity components and per-frame logic of a small game prototype.

mod components;
mod entity_log;
mod scene_stack;
mod scenes;
mod world;

pub use components::{Health, Position, Static};
pub use entity_log::{append_log_lines, LOG_LIMIT};
pub use scene_stack::{SceneStack, Transition};
pub use scenes::{SceneAction, SceneKind, SCREEN_HEIGHT, SCREEN_WIDTH};
pub use world::{log_entities, spawn_test_entities, TEST_BATCH};
