//! Configuration defaults and the layering rules.

use seaplane::config::ColorChoice;
use seaplane::config::RawConfig;
use seaplane::config::RawDangerZoneConfig;

#[test]
fn defaults_are_empty() {
    let cfg = RawConfig::default();
    assert!(cfg.loaded_from.is_empty());
    assert!(!cfg.found);
    assert!(!cfg.did_init);
    assert!(cfg.account.api_key.is_none());
    assert!(cfg.seaplane.color.is_none());
    assert!(cfg.seaplane.default_registry_url.is_none());
    assert!(cfg.api.compute_url.is_none());
    assert!(cfg.api.identity_url.is_none());
    assert!(cfg.api.metadata_url.is_none());
    assert!(cfg.api.locks_url.is_none());
    assert!(cfg.danger_zone.is_empty());
}

#[test]
fn a_set_key_overrides_an_unset_one() {
    let mut cfg = RawConfig::default();
    let mut layer = RawConfig::default();
    layer.account.api_key = Some("abc123def456".to_string());
    layer.loaded_from.push("seaplane.toml".to_string());
    cfg.update(layer).unwrap();
    assert_eq!(cfg.account.api_key.as_deref(), Some("abc123def456"));
    assert_eq!(cfg.loaded_from, vec!["seaplane.toml".to_string()]);
}

#[test]
fn an_unset_key_keeps_the_older_value() {
    let mut cfg = RawConfig::default();
    cfg.account.api_key = Some("older".to_string());
    cfg.seaplane.color = Some(ColorChoice::Always);
    let layer = RawConfig::default();
    cfg.update(layer).unwrap();
    assert_eq!(cfg.account.api_key.as_deref(), Some("older"));
    assert_eq!(cfg.seaplane.color, Some(ColorChoice::Always));
}

#[test]
fn later_layers_win_key_by_key() {
    let mut cfg = RawConfig::default();
    cfg.account.api_key = Some("older".to_string());
    cfg.api.compute_url = Some("https://compute.local/".to_string());

    let mut layer = RawConfig::default();
    layer.account.api_key = Some("newer".to_string());
    layer.api.identity_url = Some("https://identity.local/".to_string());
    layer.api.metadata_url = Some("https://metadata.local/".to_string());
    layer.api.locks_url = Some("https://locks.local/".to_string());
    layer.seaplane.default_registry_url = Some("quay.io/".to_string());

    cfg.update(layer).unwrap();
    assert_eq!(cfg.account.api_key.as_deref(), Some("newer"));
    assert_eq!(cfg.api.compute_url.as_deref(), Some("https://compute.local/"));
    assert_eq!(cfg.api.identity_url.as_deref(), Some("https://identity.local/"));
    assert_eq!(cfg.api.metadata_url.as_deref(), Some("https://metadata.local/"));
    assert_eq!(cfg.api.locks_url.as_deref(), Some("https://locks.local/"));
    assert_eq!(cfg.seaplane.default_registry_url.as_deref(), Some("quay.io/"));
}

#[test]
fn the_danger_zone_table_is_replaced_whole() {
    let mut cfg = RawConfig::default();
    cfg.danger_zone.allow_insecure_urls = true;
    let layer = RawConfig::default();
    cfg.update(layer).unwrap();
    assert!(!cfg.danger_zone.allow_insecure_urls);
    assert!(!cfg.danger_zone.allow_invalid_certs);

    let mut layer = RawConfig::default();
    layer.danger_zone.allow_invalid_certs = true;
    cfg.update(layer).unwrap();
    assert!(cfg.danger_zone.allow_invalid_certs);
}

#[test]
fn danger_zone_emptiness_tracks_the_defaults() {
    assert!(RawDangerZoneConfig::default().is_empty());
    let set = RawDangerZoneConfig { allow_insecure_urls: true, allow_invalid_certs: false };
    assert!(!set.is_empty());
    let set = RawDangerZoneConfig { allow_insecure_urls: false, allow_invalid_certs: true };
    assert!(!set.is_empty());
}
