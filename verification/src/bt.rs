//! The BitTorrent engine's domain model: identities, events, settings and
//! the engine's lifecycle rules.

pub mod alerts;
pub mod identity;

pub use alerts::AlertCategory;
pub use identity::{DhtInfoHash, DhtTarget, InfoHashV1, InfoHashV2, NodeId};
pub mod torrent;

pub use torrent::{TorrentId, TorrentIdPayload};
pub mod settings;
pub mod settings_keys;
pub mod event;

pub use event::{BtEvent, BtEventKind, DhtDirection, DhtNode, UdpEndpoint};
pub mod engine;

pub mod lifecycle;
pub mod wire;

pub use engine::{EngineBuilder, EngineConfig, EngineError, EngineExtension, EngineStatus};
pub use settings::{Setting, SettingsPack};
pub use settings_keys::{BoolSetting, IntSetting, StringSetting};
