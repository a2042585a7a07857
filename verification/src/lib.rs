//! State machines of a terminal admin toolkit: every screen's keyboard and
//! mouse handling, form state, filtering, sorting and view models, with the
//! behaviour of each stated as a contract.
use vstd::prelude::*;

pub mod app;
pub mod clickhouse_draw;
pub mod clickhouse_effects;
pub mod clickhouse_laws;
pub mod clickhouse_screen;
pub mod cloudflare_draw;
pub mod cloudflare_effects;
pub mod cloudflare_laws;
pub mod cloudflare_screen;
pub mod config_check_draw;
pub mod config_check_effects;
pub mod config_check_laws;
pub mod config_check_screen;
pub mod create_db_modal;
pub mod cycle;
pub mod dns_record;
pub mod drawing_laws;
pub mod easyssh_draw;
pub mod easyssh_effects;
pub mod easyssh_laws;
pub mod easyssh_screen;
pub mod event;
pub mod feed;
pub mod file_picker;
pub mod form;
pub mod geometry;
pub mod home;
pub mod host_picker;
pub mod interactive;
pub mod kerneltune_draw;
pub mod kerneltune_effects;
pub mod kerneltune_laws;
pub mod kerneltune_screen;
pub mod lists;
pub mod local_path;
pub mod log;
pub mod logs_draw;
pub mod logs_effects;
pub mod logs_laws;
pub mod logs_screen;
pub mod message_laws;
pub mod model;
pub mod mouse;
pub mod mouse_laws;
pub mod parts_laws;
pub mod paste;
pub mod picture;
pub mod remote_path;
pub mod screen;
pub mod screen_laws;
pub mod server_list;
pub mod servers;
pub mod sort;
pub mod table_laws;
pub mod target;
pub mod target_draw;
pub mod target_laws;
pub mod text;
pub mod text_laws;
pub mod widgets;
pub mod wrap;

verus! {

} // verus!
