//! Tests of the registry operations: publishing, version creation and
//! ordering, yanking, unpublishing, and the resource accessors.

use volt_registry::data::{NewPluginVersion, NewVoltInfo, PluginData, User};
use volt_registry::errors::{
    CreateVersionError, GetResourceError, PublishError, UnpublishPluginError, YankVersionError,
};
use volt_registry::registry::{MemoryRepository, Repository};
use volt_registry::routes::{change_plugin_icon, create_plugin, delete_plugin, CreatePluginError};

/// A minimal PNG header: signature, then an IHDR chunk carrying the
/// dimensions, which is all that image-size sniffing reads.
fn png_bytes(width: u32, height: u32) -> Vec<u8> {
    let mut b = vec![0x89u8, 0x50, 0x4E, 0x47, 0x0D, 0x0A, 0x1A, 0x0A];
    b.extend_from_slice(&[0x00, 0x00, 0x00, 0x0D]);
    b.extend_from_slice(b"IHDR");
    b.extend_from_slice(&width.to_be_bytes());
    b.extend_from_slice(&height.to_be_bytes());
    b.extend_from_slice(&[0x08, 0x06, 0x00, 0x00, 0x00]);
    b
}

fn create_test_user(repo: &mut MemoryRepository) -> User {
    let user = User {
        id: 1,
        name: "Tests".into(),
        username: "tests".into(),
        avatar_url: "https://example.com".into(),
    };
    repo.add_user(User {
        id: user.id,
        name: user.name.clone(),
        username: user.username.clone(),
        avatar_url: user.avatar_url.clone(),
    });
    user
}

fn create_test_plugin_with_icon(
    repo: &mut MemoryRepository,
    user: &User,
    icon: Vec<u8>,
) -> Result<PluginData, PublishError> {
    repo.publish(NewVoltInfo {
        name: "dummy-plugin".into(),
        display_name: "My Test plugin".into(),
        description: "Dummy plugin".into(),
        publisher_id: user.id,
        icon: Some(icon),
    })
}

fn create_test_plugin(repo: &mut MemoryRepository, user: &User) -> PluginData {
    create_test_plugin_with_icon(repo, user, png_bytes(100, 100)).unwrap()
}

fn plain_version(version: &str) -> NewPluginVersion {
    NewPluginVersion {
        version: version.into(),
        wasm_file: None,
        themes: vec![],
        preview: false,
    }
}

#[test]
fn publish_plugin_with_invalid_icon() {
    let mut repo = MemoryRepository::new();
    let user = create_test_user(&mut repo);
    // Icons bigger than 500x500 should be considered invalid
    let invalid_icon = png_bytes(600, 600);
    let res = create_test_plugin_with_icon(&mut repo, &user, invalid_icon);
    assert_eq!(res.unwrap_err(), PublishError::InvalidIcon);
}

#[test]
fn publish_plugin_with_valid_icon() {
    let mut repo = MemoryRepository::new();
    let user = create_test_user(&mut repo);
    // The icon is valid, so the plugin should be published successfully
    let icon = png_bytes(100, 100);
    let name = "dummy-plugin";
    let new_plugin = repo
        .publish(NewVoltInfo {
            name: name.into(),
            display_name: format!("Test plugin {}", name),
            description: "Dummy plugin".into(),
            publisher_id: user.id,
            icon: Some(icon.clone()),
        })
        .unwrap();
    // Make some sanity checks before assuming the code is OK
    assert_eq!(new_plugin.name, format!("tests.{name}"));
    assert_eq!(new_plugin.display_name, format!("Test plugin {name}"));
    assert_eq!(new_plugin.description, "Dummy plugin");
    assert_eq!(new_plugin.publisher_id, user.id);
    let repo_icon = repo.get_plugin_icon(new_plugin.name.clone()).unwrap();
    assert_eq!(repo_icon, icon);
}

#[test]
fn publish_version_with_valid_semver() {
    let mut repo = MemoryRepository::new();
    let user = create_test_user(&mut repo);
    let plugin = create_test_plugin(&mut repo, &user);
    repo.create_version(plugin.name, plain_version("0.1.0")).unwrap();
}

#[test]
fn try_publish_version_with_invalid_semver() {
    let mut repo = MemoryRepository::new();
    let user = create_test_user(&mut repo);
    let plugin = create_test_plugin(&mut repo, &user);
    assert_eq!(
        repo.create_version(plugin.name, plain_version("invalid version"))
            .unwrap_err(),
        CreateVersionError::InvalidSemVer
    );
}

#[test]
fn try_republish_version() {
    let mut repo = MemoryRepository::new();
    let user = create_test_user(&mut repo);
    let plugin = create_test_plugin(&mut repo, &user);
    repo.create_version(plugin.name.clone(), plain_version("0.2.0")).unwrap();
    assert_eq!(
        repo.create_version(plugin.name, plain_version("0.2.0")).unwrap_err(),
        CreateVersionError::AlreadyExists
    );
}

#[test]
fn try_publish_yanked_version() {
    let mut repo = MemoryRepository::new();
    let user = create_test_user(&mut repo);
    let plugin = create_test_plugin(&mut repo, &user);
    repo.create_version(plugin.name.clone(), plain_version("0.1.0")).unwrap();
    repo.yank_version(plugin.name.clone(), "0.1.0".into()).unwrap();
    assert_eq!(
        repo.create_version(plugin.name, plain_version("0.1.0")).unwrap_err(),
        CreateVersionError::AlreadyExists
    );
}

#[test]
fn try_publish_version_older_version_than_latest() {
    let mut repo = MemoryRepository::new();
    let user = create_test_user(&mut repo);
    let plugin = create_test_plugin(&mut repo, &user);
    repo.create_version(plugin.name.clone(), plain_version("0.2.0")).unwrap();
    assert_eq!(
        repo.create_version(plugin.name, plain_version("0.1.0")).unwrap_err(),
        CreateVersionError::LessThanLatestVersion
    );
}

#[test]
fn try_publish_version_with_invalid_plugin_name() {
    let mut repo = MemoryRepository::new();
    assert_eq!(
        repo.create_version(
            "odfbojubforg ogjub3ho5bh 5go".into(),
            plain_version("0.1.0")
        )
        .unwrap_err(),
        CreateVersionError::NonExistentPlugin
    );
}

#[test]
fn publish_version_with_themes_and_wasm() {
    let mut repo = MemoryRepository::new();
    let user = create_test_user(&mut repo);
    let plugin = create_test_plugin(&mut repo, &user);
    let expected_themes = vec!["[theme]\nname = \"darkest\"\n".to_string()];
    let expected_wasm = vec![0x00u8, 0x61, 0x73, 0x6D, 0x01, 0x00, 0x00, 0x00];
    repo.create_version(
        plugin.name.clone(),
        NewPluginVersion {
            version: "0.1.0".into(),
            themes: expected_themes.clone(),
            wasm_file: Some(expected_wasm.clone()),
            preview: false,
        },
    )
    .unwrap();
    let themes = repo
        .get_plugin_version_themes(plugin.name.clone(), "0.1.0".into())
        .unwrap();
    assert_eq!(expected_themes, themes);
    let wasm = repo
        .get_plugin_version_wasm(plugin.name.clone(), "0.1.0".into())
        .unwrap();
    assert_eq!(expected_wasm, wasm);
}

#[test]
fn get_yanked_version() {
    let mut repo = MemoryRepository::new();
    let user = create_test_user(&mut repo);
    let plugin = create_test_plugin(&mut repo, &user);
    repo.create_version(plugin.name.clone(), plain_version("0.1.0")).unwrap();
    repo.yank_version(plugin.name.clone(), "0.1.0".into()).unwrap();
    assert!(matches!(
        repo.get_plugin_version(plugin.name.clone(), "0.1.0".into())
            .unwrap_err(),
        GetResourceError::NotFound
    ));
}

#[test]
fn try_yanking_twice() {
    let mut repo = MemoryRepository::new();
    let user = create_test_user(&mut repo);
    let plugin = create_test_plugin(&mut repo, &user);
    repo.create_version(plugin.name.clone(), plain_version("0.1.0")).unwrap();
    repo.yank_version(plugin.name.clone(), "0.1.0".into()).unwrap();
    assert_eq!(
        repo.yank_version(plugin.name.clone(), "0.1.0".into()).unwrap_err(),
        YankVersionError::NonExistentOrAlreadyYanked
    );
}

#[test]
fn unpublish_plugin() {
    let mut repo = MemoryRepository::new();
    let user = create_test_user(&mut repo);
    let plugin = create_test_plugin(&mut repo, &user);
    repo.unpublish_plugin(plugin.name.clone()).unwrap();
    assert!(matches!(
        repo.get_plugin(plugin.name.clone()).unwrap_err(),
        GetResourceError::NotFound
    ));
}

#[test]
fn unpublish_plugin_twice() {
    let mut repo = MemoryRepository::new();
    let user = create_test_user(&mut repo);
    let plugin = create_test_plugin(&mut repo, &user);
    repo.unpublish_plugin(plugin.name.clone()).unwrap();
    assert!(matches!(
        repo.unpublish_plugin(plugin.name.clone()).unwrap_err(),
        UnpublishPluginError::NonExistent
    ));
}

#[test]
fn publish_with_unknown_publisher_is_a_store_error() {
    let mut repo = MemoryRepository::new();
    let res = repo.publish(NewVoltInfo {
        name: "demo".into(),
        display_name: "Demo".into(),
        description: "A demo".into(),
        publisher_id: 999,
        icon: None,
    });
    assert_eq!(res.unwrap_err(), PublishError::DatabaseError);
}

#[test]
fn republish_same_full_name_rejected_and_no_icon_persisted() {
    let mut repo = MemoryRepository::new();
    let user = create_test_user(&mut repo);
    let first = create_test_plugin_with_icon(&mut repo, &user, png_bytes(100, 100)).unwrap();
    let second_icon = png_bytes(50, 50);
    let res = create_test_plugin_with_icon(&mut repo, &user, second_icon.clone());
    assert_eq!(res.unwrap_err(), PublishError::AlreadyExists);
    // The icon of the rejected attempt was never persisted: the stored icon
    // is still the first one.
    let stored = repo.get_plugin_icon(first.name.clone()).unwrap();
    assert_eq!(stored, png_bytes(100, 100));
    assert_ne!(stored, second_icon);
}

#[test]
fn yank_leaves_other_versions_and_plugin_retrievable() {
    let mut repo = MemoryRepository::new();
    let user = create_test_user(&mut repo);
    let plugin = create_test_plugin(&mut repo, &user);
    repo.create_version(plugin.name.clone(), plain_version("0.1.0")).unwrap();
    repo.create_version(plugin.name.clone(), plain_version("0.2.0")).unwrap();
    repo.yank_version(plugin.name.clone(), "0.1.0".into()).unwrap();
    // The yanked version is hidden, the other one and the plugin stay.
    assert!(repo
        .get_plugin_version(plugin.name.clone(), "0.1.0".into())
        .is_err());
    let v2 = repo
        .get_plugin_version(plugin.name.clone(), "0.2.0".into())
        .unwrap();
    assert_eq!(v2.version, "0.2.0");
    assert!(!v2.yanked);
    assert_eq!(repo.get_plugin(plugin.name.clone()).unwrap().name, plugin.name);
}

#[test]
fn missing_resources_are_not_found() {
    let mut repo = MemoryRepository::new();
    let user = create_test_user(&mut repo);
    let plugin = create_test_plugin(&mut repo, &user);
    assert!(matches!(
        repo.get_plugin("tests.nothing".into()).unwrap_err(),
        GetResourceError::NotFound
    ));
    assert!(matches!(
        repo.get_plugin_version(plugin.name.clone(), "0.1.0".into())
            .unwrap_err(),
        GetResourceError::NotFound
    ));
    assert!(matches!(
        repo.get_plugin_icon("tests.nothing".into()).unwrap_err(),
        GetResourceError::NotFound
    ));
    // A version that ships no wasm module answers NotFound for it.
    repo.create_version(plugin.name.clone(), plain_version("0.1.0")).unwrap();
    assert!(matches!(
        repo.get_plugin_version_wasm(plugin.name.clone(), "0.1.0".into())
            .unwrap_err(),
        GetResourceError::NotFound
    ));
}

#[test]
fn stored_digest_matches_recomputation() {
    let mut repo = MemoryRepository::new();
    let user = create_test_user(&mut repo);
    let plugin = create_test_plugin(&mut repo, &user);
    let themes = vec!["a=1".to_string()];
    let wasm = Some(vec![1u8, 2, 3]);
    repo.create_version(
        plugin.name.clone(),
        NewPluginVersion {
            version: "0.1.0".into(),
            wasm_file: wasm.clone(),
            themes: themes.clone(),
            preview: false,
        },
    )
    .unwrap();
    let row = repo
        .get_plugin_version(plugin.name.clone(), "0.1.0".into())
        .unwrap();
    let expected = volt_registry::digest::digest_version("0.1.0", &plugin.name, &themes, &wasm);
    assert_eq!(row.digest, expected);
    assert!(!row.preview);
    assert_eq!(row.plugin_name, plugin.name);
}

#[test]
fn change_icon_route_core() {
    let mut repo = MemoryRepository::new();
    let user = create_test_user(&mut repo);
    // No such plugin yet: the route answers "no content".
    assert_eq!(
        change_plugin_icon(&mut repo, &user, &"dummy-plugin".to_string(), &png_bytes(50, 50)),
        Ok(None)
    );
    let plugin = create_test_plugin(&mut repo, &user);
    let new_icon = png_bytes(50, 50);
    assert_eq!(
        change_plugin_icon(&mut repo, &user, &"dummy-plugin".to_string(), &new_icon),
        Ok(Some(()))
    );
    assert_eq!(repo.get_plugin_icon(plugin.name.clone()).unwrap(), new_icon);
    // A rejected icon changes nothing.
    assert_eq!(
        change_plugin_icon(&mut repo, &user, &"dummy-plugin".to_string(), &png_bytes(900, 50)),
        Err(PublishError::InvalidIcon)
    );
    assert_eq!(repo.get_plugin_icon(plugin.name).unwrap(), new_icon);
}

#[test]
fn create_plugin_route_core() {
    let mut repo = MemoryRepository::new();
    let user = create_test_user(&mut repo);
    assert_eq!(
        create_plugin(
            &mut repo,
            user.id,
            "Bad Name".into(),
            "Bad".into(),
            "d".into(),
            None
        )
        .unwrap_err(),
        CreatePluginError::InvalidName
    );
    let plugin = create_plugin(
        &mut repo,
        user.id,
        "neat-plugin".into(),
        "Neat".into(),
        "d".into(),
        None,
    )
    .unwrap();
    assert_eq!(plugin.name, "tests.neat-plugin");
    assert_eq!(
        create_plugin(
            &mut repo,
            user.id,
            "neat-plugin".into(),
            "Neat".into(),
            "d".into(),
            None
        )
        .unwrap_err(),
        CreatePluginError::Publish(PublishError::AlreadyExists)
    );
}

#[test]
fn delete_plugin_route_core() {
    let mut repo = MemoryRepository::new();
    let user = create_test_user(&mut repo);
    create_test_plugin(&mut repo, &user);
    assert_eq!(delete_plugin(&mut repo, &user, &"dummy-plugin".to_string()), Ok(()));
    assert!(matches!(
        repo.get_plugin("tests.dummy-plugin".into()).unwrap_err(),
        GetResourceError::NotFound
    ));
    assert_eq!(
        delete_plugin(&mut repo, &user, &"dummy-plugin".to_string()),
        Err(UnpublishPluginError::NonExistent)
    );
}

#[test]
fn end_to_end_demo_flow() {
    let mut repo = MemoryRepository::new();
    repo.add_user(User {
        id: 42,
        name: "Alice".into(),
        username: "alice".into(),
        avatar_url: "https://example.com/alice".into(),
    });
    let plugin = repo
        .publish(NewVoltInfo {
            name: "demo".into(),
            display_name: "Demo".into(),
            description: "A demo plugin".into(),
            publisher_id: 42,
            icon: Some(png_bytes(100, 100)),
        })
        .unwrap();
    assert_eq!(plugin.name, "alice.demo");
    let wasm = vec![0x00u8, 0x61, 0x73, 0x6D];
    let version = NewPluginVersion {
        version: "0.1.0".into(),
        wasm_file: Some(wasm.clone()),
        themes: vec!["a=1".to_string()],
        preview: false,
    };
    repo.create_version(
        "alice.demo".into(),
        NewPluginVersion {
            version: version.version.clone(),
            wasm_file: version.wasm_file.clone(),
            themes: version.themes.clone(),
            preview: version.preview,
        },
    )
    .unwrap();
    assert_eq!(
        repo.create_version(
            "alice.demo".into(),
            NewPluginVersion {
                version: version.version.clone(),
                wasm_file: version.wasm_file.clone(),
                themes: version.themes.clone(),
                preview: version.preview,
            },
        )
        .unwrap_err(),
        CreateVersionError::AlreadyExists
    );
    assert_eq!(
        repo.create_version("alice.demo".into(), plain_version("0.0.9"))
            .unwrap_err(),
        CreateVersionError::LessThanLatestVersion
    );
    assert_eq!(
        repo.get_plugin_version_wasm("alice.demo".into(), "0.1.0".into())
            .unwrap(),
        wasm
    );
    repo.yank_version("alice.demo".into(), "0.1.0".into()).unwrap();
    assert!(matches!(
        repo.get_plugin_version_wasm("alice.demo".into(), "0.1.0".into())
            .unwrap_err(),
        GetResourceError::NotFound
    ));
    repo.unpublish_plugin("alice.demo".into()).unwrap();
    assert!(matches!(
        repo.get_plugin("alice.demo".into()).unwrap_err(),
        GetResourceError::NotFound
    ));
}
