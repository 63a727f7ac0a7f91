//! Monitoring core for a MIDI monitor: decoding received bytes into messages,
//! encoding composed messages back into bytes, and the rules that decide which
//! events are retained, which are shown, and how they are written.

pub mod adapter;
pub mod appearance;
pub mod capture;
pub mod clock;
pub mod codec_laws;
pub mod column;
pub mod command_args;
pub mod composition;
pub mod constants;
pub mod controller;
pub mod decoder;
pub mod display;
pub mod dto;
pub mod encoder;
pub mod error;
pub mod event;
pub mod event_log;
pub mod filter;
pub mod ids;
pub mod ipc_error;
pub mod message;
pub mod monitor;
pub mod packed;
pub mod port_catalogue;
pub mod ports;
pub mod publication;
pub mod rendering;
pub mod request;
pub mod send_record;
pub mod sender;
pub mod sendable;
pub mod session_ids;
pub mod settings;
pub mod source;
pub mod target;
pub mod text;
pub mod worker;
