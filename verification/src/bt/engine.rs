//! The engine's public configuration surface: lifecycle status, errors,
//! extensions and the builder.

use vstd::prelude::*;

use super::event::BtEvent;
use super::settings::SettingsPack;

verus! {

/// Lifecycle state reported by the engine runner.
#[derive(Debug, Clone, Copy, PartialEq, Eq, Structural)]
pub enum EngineStatus {
    /// The engine has been built but has not started running.
    Idle,
    /// The native session is being created.
    Starting,
    /// The native session is running and accepts commands.
    Running,
    /// Shutdown is in progress and no new commands are processed.
    Stopping,
    /// The native session and runner have completed shutdown.
    Stopped,
    /// The engine failed while starting and cannot accept commands.
    Failed,
}

/// Errors returned by the BitTorrent engine facade.
#[derive(Debug, Clone, PartialEq, Eq, Hash)]
pub enum EngineError {
    /// The native libtorrent session could not be created.
    SessionStartError(String),
    /// An operation required a session that is no longer running.
    EngineNotRunning,
    /// The engine command receiver has been dropped.
    CommandChannelClosed,
    /// The runner stopped before replying to a command.
    CommandResponseClosed,
}

/// Receives events synchronously on the dedicated event worker.
///
/// Events are delivered serially to each registered implementation.
/// Implementations should return quickly; long-running work should be handed
/// off to another task so that later events are not delayed. Extensions move
/// to the event worker's thread, so they are `Send`.
pub trait EngineExtension: Send {
    /// Handles one engine event by reference.
    fn on_event(&mut self, event: &BtEvent);
}

/// A sendable boxed engine extension.
pub type EngineExtensionBox = Box<dyn EngineExtension>;

/// The configuration an engine is created with.
pub struct EngineConfig {
    settings_pack: SettingsPack,
}

impl EngineConfig {
    /// The configured settings.
    pub closed spec fn spec_settings_pack(&self) -> SettingsPack {
        self.settings_pack
    }

    /// Creates a configuration with an empty settings pack.
    pub fn new() -> (r: Self)
        ensures
            r.spec_settings_pack()@ == Seq::<super::settings::SettingView>::empty(),
    {
        EngineConfig { settings_pack: SettingsPack::new() }
    }

    /// Replaces the settings pack.
    pub fn with_settings_pack(self, settings_pack: SettingsPack) -> (r: Self)
        ensures
            r.spec_settings_pack() == settings_pack,
    {
        EngineConfig { settings_pack }
    }

    /// Returns a copy of the settings pack.
    pub fn settings_pack(&self) -> (r: SettingsPack)
        ensures
            r@ == self.spec_settings_pack()@,
    {
        self.settings_pack.clone()
    }
}

/// Pushing onto a sequence adds one element at the end.
proof fn lemma_push<A>(s: Seq<A>, a: A)
    ensures
        s.push(a).len() == s.len() + 1,
        s.push(a).drop_last() == s,
{
    assert(s.push(a).drop_last() =~= s);
}

/// An extension as the engine holds it: boxed behind the trait.
pub open spec fn boxed_extension<E: EngineExtension + 'static>(extension: E) -> EngineExtensionBox {
    Box::new(extension)
}

/// Builder for a BitTorrent engine.
pub struct EngineBuilder {
    settings: SettingsPack,
    extensions: Vec<EngineExtensionBox>,
}

impl EngineBuilder {
    /// The settings the engine will be created with.
    pub closed spec fn spec_settings(&self) -> SettingsPack {
        self.settings
    }

    /// The registered extensions, in the order they were added.
    pub closed spec fn spec_extensions(&self) -> Seq<EngineExtensionBox> {
        self.extensions@
    }

    /// Creates a builder with an empty settings pack and no extensions.
    pub fn new() -> (r: Self)
        ensures
            r.spec_settings()@ == Seq::<super::settings::SettingView>::empty(),
            r.spec_extensions().len() == 0,
    {
        EngineBuilder { settings: SettingsPack::new(), extensions: Vec::new() }
    }

    /// Replaces the settings pack used to create the engine.
    pub fn set_settings_pack(self, settings: SettingsPack) -> (r: Self)
        ensures
            r.spec_settings() == settings,
            r.spec_extensions() == self.spec_extensions(),
    {
        EngineBuilder { settings, extensions: self.extensions }
    }

    /// Adds an extension to the engine.
    pub fn add_extension<E: EngineExtension + Send + 'static>(self, extension: E) -> (r: Self)
        ensures
            r.spec_settings() == self.spec_settings(),
            r.spec_extensions().len() == self.spec_extensions().len() + 1,
            r.spec_extensions().drop_last() == self.spec_extensions(),
            r.spec_extensions().last() == boxed_extension(extension),
    {
        let ghost before = self.extensions@;
        let mut extensions = self.extensions;
        let boxed: EngineExtensionBox = Box::new(extension);
        extensions.push(boxed);
        proof {
            lemma_push(before, boxed);
        }
        EngineBuilder { settings: self.settings, extensions }
    }

    /// Returns the engine configuration and the extensions, in the order
    /// they were added.
    pub fn into_parts(self) -> (r: (EngineConfig, Vec<EngineExtensionBox>))
        ensures
            r.0.spec_settings_pack() == self.spec_settings(),
            r.1@ == self.spec_extensions(),
    {
        (EngineConfig::new().with_settings_pack(self.settings), self.extensions)
    }
}

impl Default for EngineBuilder {
    fn default() -> (r: Self)
        ensures
            r.spec_settings()@ == Seq::<super::settings::SettingView>::empty(),
            r.spec_extensions().len() == 0,
    {
        Self::new()
    }
}

} // verus!
