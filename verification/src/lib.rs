//! The verified core of the Blackforge mod manager: the decisions, texts and
//! states that the window shows, apart from the window itself.

pub mod assets;
pub mod backend;
pub mod bridge;
pub mod browse;
pub mod busy;
pub mod cli;
pub mod cloud;
pub mod commands;
pub mod config_picker;
pub mod config_settings;
pub mod configs_page;
pub mod doctor_page;
pub mod friend_mods;
pub mod friends_page;
pub mod game_process;
pub mod hint;
pub mod history_modal;
pub mod icons;
pub mod launcher;
pub mod members_modal;
pub mod mod_info;
pub mod mod_pills;
pub mod mods_page;
pub mod names;
pub mod nav_item;
pub mod order;
pub mod page;
pub mod pictures;
pub mod pill;
pub mod server_modal;
pub mod servers_page;
pub mod share_page;
pub mod social;
pub mod status;
pub mod sync_panel;
pub mod text;
pub mod time;
pub mod toast;
pub mod updater;
pub mod updates;
