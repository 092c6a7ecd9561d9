//! Verified core logic of the Rabbit network toolbox.

pub mod calendar;
pub mod chat_users;
pub mod defaults;
pub mod dispatch;
pub mod icon;
pub mod lifecycle;
pub mod network;
pub mod number;
pub mod options;
pub mod plan;
pub mod platform;
pub mod rabbit_app_state;
pub mod rabbit_tabs;
pub mod refresh;
pub mod reminder;
pub mod startup;
pub mod tabs;
pub mod text;
pub mod tray_protocol;
pub mod ui_misc;
pub mod ui_state;
pub mod upgrade;
