//! Missions: story missions with phases and objectives, the story mission
//! manager, NPC relationships, respect, unlocks and dialogue trees.

pub mod story_data;
pub mod economy;
pub mod relationship;
pub mod unlocks;
pub mod story_manager;
pub mod dialogue;
pub mod side_dialogues;
pub mod dialogue_systems;
pub mod dialogue_actions;
pub mod data;
pub mod advanced_missions;
pub mod side_missions;
pub mod story_manager_data;
pub mod story_systems;
pub mod cutscene;
pub mod cutscene_systems;
