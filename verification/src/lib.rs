//! Core logic of a champion-select automation layer for a local game
//! client: event normalization, a polling cursor with a monotonic
//! low-water mark, publish/subscribe bookkeeping, the pick/ban decision
//! engine, and the rune-loadout synchronizer's diff rules.

pub mod actors;
pub mod bus;
pub mod cursor;
pub mod catalog;
pub mod decision;
pub mod engine;
pub mod events;
pub mod features;
pub mod matchready;
pub mod models;
pub mod preferences;
pub mod request;
pub mod runes;
pub mod strategy;
pub mod subscriber;
pub mod text;
pub mod wire;
