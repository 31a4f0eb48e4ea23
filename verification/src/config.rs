//! The persisted configuration, the opacity range it is held to, and the
//! document that stands for it on disk.

use vstd::prelude::*;

verus! {

/// Lowest opacity the tint may take.
pub const MIN_OPACITY: u8 = 90;

/// Highest opacity the tint may take.
pub const MAX_OPACITY: u8 = 200;

/// Whether `x` lies in the opacity range.
pub open spec fn in_opacity_range(x: int) -> bool {
    MIN_OPACITY as int <= x <= MAX_OPACITY as int
}

/// Whether the byte `opacity` lies in the opacity range.
pub open spec fn is_valid_opacity(opacity: u8) -> bool {
    in_opacity_range(opacity as int)
}

/// The value of `x` brought into the opacity range: the nearest value of the
/// range to `x`.
pub open spec fn clamp_spec(x: int) -> int {
    if x < MIN_OPACITY as int {
        MIN_OPACITY as int
    } else if x > MAX_OPACITY as int {
        MAX_OPACITY as int
    } else {
        x
    }
}

/// The byte `opacity` brought into the opacity range.
pub open spec fn clamped(opacity: u8) -> u8 {
    clamp_spec(opacity as int) as u8
}

/// Clamping lands in the opacity range, leaves values of the range alone, and
/// is therefore idempotent.
pub proof fn clamp_is_idempotent(x: int)
    ensures
        in_opacity_range(clamp_spec(x)),
        in_opacity_range(x) ==> clamp_spec(x) == x,
        clamp_spec(clamp_spec(x)) == clamp_spec(x),
{
}

/// Opacity of a configuration that names none.
pub fn default_opacity() -> (opacity: u8)
    ensures
        opacity == MIN_OPACITY,
{
    MIN_OPACITY
}

/// Brings a byte-sized opacity into the opacity range.
pub fn clamp_opacity(opacity: u8) -> (clamped: u8)
    ensures
        clamped as int == clamp_spec(opacity as int),
        is_valid_opacity(clamped),
{
    if opacity < MIN_OPACITY {
        MIN_OPACITY
    } else if opacity > MAX_OPACITY {
        MAX_OPACITY
    } else {
        opacity
    }
}

/// Brings an integer of any size read from a document into the opacity range.
pub fn clamp_stored_opacity(value: i64) -> (clamped: u8)
    ensures
        clamped as int == clamp_spec(value as int),
{
    if value < 90 {
        MIN_OPACITY
    } else if value > 200 {
        MAX_OPACITY
    } else {
        let narrowed: u8 = value as u8;
        narrowed
    }
}

/// The settings shared by the controller and the overlay.
#[derive(Clone, Copy, Debug, PartialEq, Eq, Structural)]
pub struct OverlayConfig {
    /// Alpha intensity of the tint.
    pub opacity: u8,
    /// Whether the overlay should be running.
    pub enabled: bool,
    /// Whether the program is registered to start with the session.
    pub launch_on_startup: bool,
}

/// The configuration `config` with its opacity clamped.
pub open spec fn normalised(config: OverlayConfig) -> OverlayConfig {
    OverlayConfig { opacity: clamped(config.opacity), ..config }
}

/// The configuration used when nothing has been stored yet.
pub open spec fn default_config() -> OverlayConfig {
    OverlayConfig { opacity: MIN_OPACITY, enabled: false, launch_on_startup: false }
}

impl OverlayConfig {
    /// The opacity lies in the opacity range.
    pub open spec fn well_formed(&self) -> bool {
        in_opacity_range(self.opacity as int)
    }

    /// A configuration with the given settings, the opacity clamped.
    pub fn new(opacity: u8, enabled: bool, launch_on_startup: bool) -> (config: Self)
        ensures
            config.opacity as int == clamp_spec(opacity as int),
            config.enabled == enabled,
            config.launch_on_startup == launch_on_startup,
            config.well_formed(),
    {
        OverlayConfig { opacity: clamp_opacity(opacity), enabled, launch_on_startup }
    }

    /// Replaces the opacity by the clamped `opacity` and keeps the rest.
    pub fn set_opacity(&mut self, opacity: u8)
        ensures
            final(self).opacity as int == clamp_spec(opacity as int),
            final(self).enabled == old(self).enabled,
            final(self).launch_on_startup == old(self).launch_on_startup,
            final(self).well_formed(),
    {
        self.opacity = clamp_opacity(opacity);
    }

    /// Reads a configuration out of a parsed document.
    pub fn from_document(document: &ConfigDocument) -> (config: Self)
        ensures
            config == config_of(*document),
            config.well_formed(),
    {
        let opacity = match document.opacity {
            Some(value) => clamp_stored_opacity(value),
            None => default_opacity(),
        };
        let enabled = match document.enabled {
            Some(flag) => flag,
            None => false,
        };
        let launch_on_startup = match document.launch_on_startup {
            Some(flag) => flag,
            None => false,
        };
        OverlayConfig { opacity, enabled, launch_on_startup }
    }

    /// This configuration with its opacity clamped.
    pub fn normalised(&self) -> (config: Self)
        ensures
            config == normalised(*self),
            config.well_formed(),
    {
        OverlayConfig {
            opacity: clamp_opacity(self.opacity),
            enabled: self.enabled,
            launch_on_startup: self.launch_on_startup,
        }
    }

    /// The document that stores this configuration: every field is written,
    /// the opacity clamped, so that no opacity out of the range is ever
    /// stored.
    pub fn to_document(&self) -> (document: ConfigDocument)
        ensures
            document == document_of(*self),
            document.opacity matches Some(stored) && in_opacity_range(stored as int),
    {
        ConfigDocument {
            opacity: Some(clamp_opacity(self.opacity) as i64),
            enabled: Some(self.enabled),
            launch_on_startup: Some(self.launch_on_startup),
        }
    }
}

impl Default for OverlayConfig {
    fn default() -> (config: Self)
        ensures
            config == default_config(),
    {
        OverlayConfig { opacity: default_opacity(), enabled: false, launch_on_startup: false }
    }
}

/// What a configuration file holds once it has been parsed: each field may be
/// absent, and the opacity is whatever integer was written, in range or not.
/// An integer too large for 64 signed bits stands as the largest of them.
#[derive(Clone, Copy, Debug, PartialEq, Eq, Structural)]
pub struct ConfigDocument {
    /// The `opacity` member, if present.
    pub opacity: Option<i64>,
    /// The `enabled` member, if present.
    pub enabled: Option<bool>,
    /// The `launchOnStartup` member, if present.
    pub launch_on_startup: Option<bool>,
}

/// The configuration a document stands for: an absent field takes its default,
/// and the opacity is clamped.
pub open spec fn config_of(document: ConfigDocument) -> OverlayConfig {
    OverlayConfig {
        opacity: match document.opacity {
            Some(value) => clamp_spec(value as int) as u8,
            None => MIN_OPACITY,
        },
        enabled: match document.enabled {
            Some(flag) => flag,
            None => false,
        },
        launch_on_startup: match document.launch_on_startup {
            Some(flag) => flag,
            None => false,
        },
    }
}

/// The document written for a configuration: every field, the opacity
/// clamped.
pub open spec fn document_of(config: OverlayConfig) -> ConfigDocument {
    ConfigDocument {
        opacity: Some(clamp_spec(config.opacity as int) as i64),
        enabled: Some(config.enabled),
        launch_on_startup: Some(config.launch_on_startup),
    }
}

/// The configuration that results from an attempt to read the stored
/// document: `None` stands for a file that is missing, unreadable or
/// malformed.
pub open spec fn loaded_config(read: Option<ConfigDocument>) -> OverlayConfig {
    match read {
        Some(document) => config_of(document),
        None => default_config(),
    }
}

/// Turns the outcome of reading the stored document into a configuration.
/// A failed read gives the defaults; it is never reported as a failure.
pub fn load_config(read: Option<ConfigDocument>) -> (config: OverlayConfig)
    ensures
        config == loaded_config(read),
        read is None ==> config == default_config(),
        config.well_formed(),
{
    match read {
        Some(document) => OverlayConfig::from_document(&document),
        None => OverlayConfig::default(),
    }
}

/// Every document, whatever it holds, stands for a well-formed configuration.
pub proof fn loaded_config_is_well_formed(read: Option<ConfigDocument>)
    ensures
        loaded_config(read).well_formed(),
{
}

/// Storing a well-formed configuration and loading it again gives it back.
pub proof fn store_then_load_is_identity(config: OverlayConfig)
    requires
        config.well_formed(),
    ensures
        loaded_config(Some(document_of(config))) == config,
        config_of(document_of(config)) == config,
{
}

/// Whatever configuration is stored, the stored opacity lies in the opacity
/// range: it is the clamped opacity of the configuration.
pub proof fn stored_opacity_is_clamped(config: OverlayConfig)
    ensures
        document_of(config).opacity == Some(clamp_spec(config.opacity as int) as i64),
        in_opacity_range(document_of(config).opacity->0 as int),
        document_of(config) == document_of(normalised(config)),
        config.well_formed() ==> document_of(config).opacity == Some(config.opacity as i64),
{
}

/// Storing any configuration and loading it again gives the configuration
/// with its opacity clamped.
pub proof fn store_then_load_clamps(config: OverlayConfig)
    ensures
        config_of(document_of(config)) == normalised(config),
        normalised(config).well_formed(),
        config.well_formed() ==> normalised(config) == config,
{
}

} // verus!
