//! Core logic of a remote-desktop tool: the signaling server's session
//! state machine, the client's configuration rules, the mapping of remote
//! input events onto device actions, and the screen-frame encoding pipeline.
mod text;
pub mod strmap;
pub mod signaling;
pub mod config;
pub mod config_laws;
pub mod input;
pub mod capture;

pub use capture::{encode_frame, frame_payload, primary_monitor_index, ScreenCapture, FRAME_INTERVAL_MS};
pub use config::{AppConfig, ConfigError, ConfigManager, ServerConfig, StoredConfig};
pub use input::{Direction, InputAction, InputController, Key, MouseButton, ScrollAxis};
pub use signaling::messages::{ClientMessage, Outgoing, ServerMessage};
pub use signaling::model::ClientRole;
pub use signaling::server::{Client, Session, SignalingState};
pub use text::{greet, str_equal};
