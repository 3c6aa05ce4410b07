//! Verified core of the Akagi mahjong assistant.

pub mod tile;
pub mod mjai;
pub mod json;
pub mod majsoul;
pub mod tenhou;
pub mod autoplay;
pub mod util;
pub mod install;
pub mod runtime;
pub mod history;
pub mod config;
pub mod ipc;
pub mod inspector;
pub mod bridge;
pub mod logger;
pub mod capture;
pub mod score;
pub mod bot;
pub mod proxy;
pub mod response_cycle;
pub mod click_plan;
pub mod tracker;
