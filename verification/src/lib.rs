//! The logic of a desktop SSH tunnel manager: profiles, the SOCKS5 front end,
//! the relay, and the steps by which a tunnel is started, watched and stopped.
pub mod text;
pub mod text_laws;
pub mod profile;
pub mod profile_laws;
pub mod selection;
pub mod config;
pub mod counters;
pub mod unicode;
pub mod address;
pub mod address_laws;
pub mod socks;
pub mod socks_laws;
pub mod embedded;
pub mod embedded_laws;
pub mod host_key;
pub mod relay;
pub mod json;
pub mod config_file;
pub mod config_file_laws;
pub mod config_calls;
pub mod clock;
pub mod log;
pub mod command;
pub mod command_laws;
pub mod nettop;
pub mod nettop_laws;
pub mod runtime;
pub mod ip_info;
pub mod status;
pub mod startup;
pub mod launch;
pub mod launch_laws;
pub mod control;
pub mod shown_laws;
pub mod tunnel_calls;
pub mod engine_calls;
