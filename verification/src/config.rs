//! The raw configuration file model and its layering rules.
//!
//! Configuration is discovered in several locations; later layers override
//! earlier ones key by key, with a key only taking effect when the later
//! layer actually sets it.  Reading and writing the files themselves is the
//! caller's concern; this module owns the data and the merge.
//!
//! The danger-zone toggles are carried here as plain configuration data;
//! whether they ever take effect is decided separately, by the
//! [`crate::builder::TransportSupport`] floor, when a request is built.

use vstd::prelude::*;

use crate::error::CliError;

verus! {

/// Extends a configuration instance with overriding config.
pub trait ExtendConfig {
    fn extend(&mut self, other: &Self);
}

/// Whether and when the CLI colors its output.
#[derive(Clone, Copy, Debug, PartialEq, Eq, Structural)]
pub enum ColorChoice {
    Always,
    Ansi,
    Auto,
    Never,
}

/// The `[seaplane]` table.
#[derive(Clone, Debug, PartialEq, Eq)]
pub struct RawSeaplaneConfig {
    /// Whether to color output or not.
    pub color: Option<ColorChoice>,
    /// The default container image registry to infer if not provided.
    pub default_registry_url: Option<String>,
}

impl Default for RawSeaplaneConfig {
    fn default() -> (r: Self)
        ensures
            r.color is None,
            r.default_registry_url is None,
    {
        RawSeaplaneConfig { color: None, default_registry_url: None }
    }
}

/// The `[account]` table.
#[derive(Clone, Debug, PartialEq, Eq)]
pub struct RawAccountConfig {
    /// The user's API key.
    pub api_key: Option<String>,
}

impl Default for RawAccountConfig {
    fn default() -> (r: Self)
        ensures
            r.api_key is None,
    {
        RawAccountConfig { api_key: None }
    }
}

/// The `[api]` table: one base URL override per service.
#[derive(Clone, Debug, PartialEq, Eq)]
pub struct RawApiConfig {
    /// The URL of the compute service.
    pub compute_url: Option<String>,
    /// The URL of the token identity service.
    pub identity_url: Option<String>,
    /// The URL of the metadata key-value service.
    pub metadata_url: Option<String>,
    /// The URL of the locks service.
    pub locks_url: Option<String>,
}

impl Default for RawApiConfig {
    fn default() -> (r: Self)
        ensures
            r.compute_url is None,
            r.identity_url is None,
            r.metadata_url is None,
            r.locks_url is None,
    {
        RawApiConfig { compute_url: None, identity_url: None, metadata_url: None, locks_url: None }
    }
}

/// The `[danger-zone]` table: insecure-transport opt-ins, off by default.
#[derive(Debug, Copy, Clone, PartialEq, Eq, Structural)]
pub struct RawDangerZoneConfig {
    /// Allow HTTP in URLs pointing to services.
    pub allow_insecure_urls: bool,
    /// Allow invalid or self-signed HTTPS certs.
    pub allow_invalid_certs: bool,
}

impl Default for RawDangerZoneConfig {
    fn default() -> (r: Self)
        ensures
            r == (RawDangerZoneConfig { allow_insecure_urls: false, allow_invalid_certs: false }),
    {
        RawDangerZoneConfig { allow_insecure_urls: false, allow_invalid_certs: false }
    }
}

impl RawDangerZoneConfig {
    /// Returns `true` if the table holds only default values.
    pub fn is_empty(&self) -> (r: bool)
        ensures
            r == (*self == (RawDangerZoneConfig {
                allow_insecure_urls: false,
                allow_invalid_certs: false,
            })),
    {
        *self == RawDangerZoneConfig::default()
    }
}

/// The whole raw configuration file, plus where it was loaded from.
#[derive(Debug)]
pub struct RawConfig {
    /// Every file that contributed to this configuration, in load order.
    pub loaded_from: Vec<String>,
    /// Whether a valid configuration file was already found, so that a
    /// later layer is an override worth warning about.
    pub found: bool,
    /// Whether initialization ran automatically on startup.
    pub did_init: bool,
    pub seaplane: RawSeaplaneConfig,
    pub account: RawAccountConfig,
    pub api: RawApiConfig,
    pub danger_zone: RawDangerZoneConfig,
}

impl Default for RawConfig {
    fn default() -> (r: Self)
        ensures
            r.loaded_from@ =~= Seq::<String>::empty(),
            !r.found,
            !r.did_init,
            r.seaplane.color is None,
            r.seaplane.default_registry_url is None,
            r.account.api_key is None,
            r.api.compute_url is None,
            r.api.identity_url is None,
            r.api.metadata_url is None,
            r.api.locks_url is None,
            r.danger_zone == (RawDangerZoneConfig {
                allow_insecure_urls: false,
                allow_invalid_certs: false,
            }),
    {
        RawConfig {
            loaded_from: Vec::new(),
            found: false,
            did_init: false,
            seaplane: RawSeaplaneConfig::default(),
            account: RawAccountConfig::default(),
            api: RawApiConfig::default(),
            danger_zone: RawDangerZoneConfig::default(),
        }
    }
}

/// The value a key has after an overriding layer: the new layer's value
/// when it sets the key, the old value otherwise.
pub open spec fn spec_layered<T>(older: Option<T>, newer: Option<T>) -> Option<T> {
    match newer {
        Some(v) => Some(v),
        None => older,
    }
}

impl RawConfig {
    /// Merge an overriding configuration layer into this one, key by key:
    /// a key the new layer sets wins, a key it leaves unset keeps its old
    /// value, the danger-zone table is replaced whole, and the new layer's
    /// provenance is appended.
    pub fn update(&mut self, new_cfg: RawConfig) -> (r: Result<(), CliError>)
        ensures
            r is Ok,
            final(self).account.api_key == spec_layered(
                old(self).account.api_key,
                new_cfg.account.api_key,
            ),
            final(self).seaplane.color == spec_layered(old(self).seaplane.color, new_cfg.seaplane.color),
            final(self).seaplane.default_registry_url == spec_layered(
                old(self).seaplane.default_registry_url,
                new_cfg.seaplane.default_registry_url,
            ),
            final(self).api.compute_url == spec_layered(
                old(self).api.compute_url,
                new_cfg.api.compute_url,
            ),
            final(self).api.identity_url == spec_layered(
                old(self).api.identity_url,
                new_cfg.api.identity_url,
            ),
            final(self).api.metadata_url == spec_layered(
                old(self).api.metadata_url,
                new_cfg.api.metadata_url,
            ),
            final(self).api.locks_url == spec_layered(old(self).api.locks_url, new_cfg.api.locks_url),
            final(self).danger_zone == new_cfg.danger_zone,
            final(self).loaded_from@ == old(self).loaded_from@ + new_cfg.loaded_from@,
            final(self).found == old(self).found,
            final(self).did_init == old(self).did_init,
    {
        if let Some(key) = new_cfg.account.api_key {
            self.account.api_key = Some(key);
        }
        if let Some(choice) = new_cfg.seaplane.color {
            self.seaplane.color = Some(choice);
        }
        if let Some(registry) = new_cfg.seaplane.default_registry_url {
            self.seaplane.default_registry_url = Some(registry);
        }
        if let Some(url) = new_cfg.api.compute_url {
            self.api.compute_url = Some(url);
        }
        if let Some(url) = new_cfg.api.identity_url {
            self.api.identity_url = Some(url);
        }
        if let Some(url) = new_cfg.api.metadata_url {
            self.api.metadata_url = Some(url);
        }
        if let Some(url) = new_cfg.api.locks_url {
            self.api.locks_url = Some(url);
        }
        self.danger_zone = new_cfg.danger_zone;
        let mut trail = new_cfg.loaded_from;
        self.loaded_from.append(&mut trail);
        Ok(())
    }
}

} // verus!
