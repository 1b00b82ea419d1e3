//! Verified game rules of the Hearthfield farming game: calendar and
//! planner, tools and upgrades, inventory, chests, shops and crafting,
//! relationships, map transitions, menus and their state machines, save
//! slots, screen texts, player actions, tool sprites, animation frames, the
//! minimap and the cutscene runner's step decisions.
pub mod calendar;
pub mod text;
pub mod inventory;
pub mod names;
pub mod social;
pub mod world;
pub mod atlas;
pub mod tools;
pub mod bounded;
pub mod farm;
pub mod progression;
pub mod items;
pub mod chest;
pub mod menu;
pub mod save;
pub mod title;
pub mod audio;
pub mod hud;
pub mod item_use;
pub mod dialogue;
pub mod shop;
pub mod crafting;
pub mod quest;
pub mod input;
pub mod player;
pub mod inventory_screen;
pub mod building_menu;
pub mod keys;
pub mod actions;
pub mod tool_sprites;
pub mod animation;
pub mod minimap;
pub mod cutscene;
