//! Tests of the pure pieces: icon validation, the version digest, plugin
//! name checking, and path and info assembly.

use volt_registry::data::User;
use volt_registry::digest::digest_version;
use volt_registry::icon::{validate_icon, IconValidationError};
use volt_registry::info::{assemble_plugin_info, make_repository_url, Volt};
use volt_registry::naming::is_valid_plugin_name;
use volt_registry::paths::FileSystemLayout;
use volt_registry::wasm_store::{u32_to_string, FileSystemPluginWasmStore};

/// A minimal PNG header carrying the dimensions.
fn icon_bytes(width: u32, height: u32) -> Vec<u8> {
    let mut b = vec![0x89u8, 0x50, 0x4E, 0x47, 0x0D, 0x0A, 0x1A, 0x0A];
    b.extend_from_slice(&[0x00, 0x00, 0x00, 0x0D]);
    b.extend_from_slice(b"IHDR");
    b.extend_from_slice(&width.to_be_bytes());
    b.extend_from_slice(&height.to_be_bytes());
    b.extend_from_slice(&[0x08, 0x06, 0x00, 0x00, 0x00]);
    b
}

#[test]
fn icon_at_the_limit_is_accepted() {
    assert_eq!(validate_icon(&icon_bytes(500, 500)), None);
    assert_eq!(validate_icon(&icon_bytes(100, 100)), None);
}

#[test]
fn icon_over_a_dimension_limit_is_too_big() {
    assert_eq!(
        validate_icon(&icon_bytes(501, 500)),
        Some(IconValidationError::TooBig { width: 501, height: 500 })
    );
    assert_eq!(
        validate_icon(&icon_bytes(500, 501)),
        Some(IconValidationError::TooBig { width: 500, height: 501 })
    );
}

#[test]
fn icon_over_the_byte_limit_is_too_big() {
    let mut big = icon_bytes(100, 100);
    big.resize(20_000_001, 0);
    assert_eq!(
        validate_icon(&big),
        Some(IconValidationError::TooBig { width: 100, height: 100 })
    );
    let mut at_limit = icon_bytes(100, 100);
    at_limit.resize(20_000_000, 0);
    assert_eq!(validate_icon(&at_limit), None);
}

#[test]
fn non_image_bytes_are_rejected() {
    assert_eq!(
        validate_icon(b"not an image at all"),
        Some(IconValidationError::NotAnImage)
    );
    assert_eq!(validate_icon(&[]), Some(IconValidationError::NotAnImage));
}

#[test]
fn icon_validation_is_deterministic() {
    let bytes = icon_bytes(300, 300);
    let first = validate_icon(&bytes);
    for _ in 0..5 {
        assert_eq!(validate_icon(&bytes), first);
    }
}

#[test]
fn digest_has_known_values() {
    // SHA-1 of the empty input and of "abc", in lowercase hex.
    assert_eq!(
        digest_version("", "", &vec![], &None),
        "da39a3ee5e6b4b0d3255bfef95601890afd80709"
    );
    assert_eq!(
        digest_version("abc", "", &vec![], &None),
        "a9993e364706816aba3e25717850c26c9cd0d89d"
    );
}

#[test]
fn digest_is_deterministic_and_sensitive() {
    let themes = vec!["a=1".to_string(), "b=2".to_string()];
    let wasm = Some(vec![1u8, 2, 3, 4]);
    let base = digest_version("1.2.3", "alice.demo", &themes, &wasm);
    assert_eq!(base, digest_version("1.2.3", "alice.demo", &themes, &wasm));
    // Changing a single byte of the content changes the digest.
    let wasm2 = Some(vec![1u8, 2, 3, 5]);
    assert_ne!(base, digest_version("1.2.3", "alice.demo", &themes, &wasm2));
    // Changing the version or the name changes the digest.
    assert_ne!(base, digest_version("1.2.4", "alice.demo", &themes, &wasm));
    assert_ne!(base, digest_version("1.2.3", "alice.demi", &themes, &wasm));
    // Reordering the themes changes the digest.
    let reordered = vec!["b=2".to_string(), "a=1".to_string()];
    assert_ne!(base, digest_version("1.2.3", "alice.demo", &reordered, &wasm));
}

#[test]
fn plugin_names_are_kebab_case() {
    assert!(is_valid_plugin_name("my-plugin2"));
    assert!(is_valid_plugin_name("demo"));
    assert!(!is_valid_plugin_name("My Plugin"));
    assert!(!is_valid_plugin_name("odfbojubforg ogjub3ho5bh 5go"));
    assert!(!is_valid_plugin_name("UPPER"));
    assert!(is_valid_plugin_name(""));
}

#[test]
fn wasm_paths_are_id_keyed() {
    let store = FileSystemPluginWasmStore::new("registry-data".to_string());
    assert_eq!(store.get_path(42), "registry-data/42.wasm");
    assert_eq!(store.get_path(0), "registry-data/0.wasm");
    assert_eq!(u32_to_string(0), "0");
    assert_eq!(u32_to_string(1234567890), "1234567890");
    assert_eq!(u32_to_string(u32::MAX), "4294967295");
}

#[test]
fn blob_layout_paths() {
    let layout = FileSystemLayout::new("fs-registry".to_string());
    let name = "tests.dummy-plugin".to_string();
    let version = "0.1.0".to_string();
    assert_eq!(layout.base_path(), "fs-registry");
    assert_eq!(layout.icons_path(), "fs-registry/icons");
    assert_eq!(layout.icon_path(&name), format!("fs-registry/icons/{name}"));
    assert_eq!(
        layout.version_path(&name, &version),
        format!("fs-registry/versions/{name}-0.1.0")
    );
    assert_eq!(
        layout.version_themes_path(&name, &version),
        format!("fs-registry/versions/{name}-0.1.0/themes")
    );
    assert_eq!(
        layout.version_plugin_wasm_path(&name, &version),
        format!("fs-registry/versions/{name}-0.1.0/plugin.wasm")
    );
    assert_eq!(
        layout.theme_file_path(&name, &version, 0),
        format!("fs-registry/versions/{name}-0.1.0/themes/0.toml")
    );
}

#[test]
fn plugin_info_is_assembled_from_its_parts() {
    assert_eq!(
        make_repository_url(&"lapce".to_string(), &"plugin".to_string()),
        "https://github.com/lapce/plugin.git/"
    );
    let user = User {
        id: 7,
        name: "Alice".into(),
        username: "alice".into(),
        avatar_url: "https://example.com/alice".into(),
    };
    let volt = Volt {
        name: "demo".into(),
        version: "0.1.0".into(),
        author: "Alice".into(),
        display_name: "Demo".into(),
        description: "A demo plugin".into(),
        wasm: Some("plugin.wasm".into()),
        themes: Some(vec!["dark".into()]),
    };
    let info = assemble_plugin_info(
        &user,
        &"lapce".to_string(),
        &"demo".to_string(),
        volt,
        vec!["v0.1.0".into()],
        Some("readme".into()),
    );
    assert_eq!(info.name, "demo");
    assert_eq!(info.display_name, "Demo");
    assert_eq!(info.repository, "https://github.com/lapce/demo.git/");
    assert_eq!(info.author, "Alice");
    assert_eq!(info.publisher_id, 7);
    assert_eq!(info.publisher_name, "Alice");
    assert_eq!(info.wasm_file_name, Some("plugin.wasm".to_string()));
    assert_eq!(info.description, "A demo plugin");
    assert_eq!(info.themes, Some(vec!["dark".to_string()]));
    assert_eq!(info.versions, vec!["v0.1.0".to_string()]);
    assert_eq!(info.readme, Some("readme".to_string()));
}
