pub mod alarm;
pub mod clock;
pub mod config;
pub mod email;
pub mod ping;
pub mod pipeline;
pub mod registry;
pub mod supervisor;
pub mod text;
pub mod wallpaper;
pub mod web;
