//! Domain logic of the Obsidian companion: crafting plans, loot splits,
//! market price handling and item naming, with their contracts.

pub mod alchemy;
pub mod api;
pub mod alchemy_api_stubs;
pub mod arith;
pub mod item_map;
pub mod json;
pub mod marrow;
pub mod marrow_recommend;
pub mod seance;
pub mod settings;
pub mod text;
pub mod time;

