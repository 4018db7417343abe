//! The records the registry works with: users, plugin rows, version rows,
//! and the inputs of `publish` and `create_version`, together with the
//! mathematical models that the contracts speak about.

use vstd::prelude::*;

verus! {

/// The bytes of an optional payload, as the contracts speak of them.
pub open spec fn opt_bytes_view(bytes: Option<Vec<u8>>) -> Option<Seq<u8>> {
    match bytes {
        Some(b) => Some(b@),
        None => None,
    }
}

/// A registered user. Users are created by the login flow; the registry
/// core only reads them to resolve a publisher id.
#[derive(Debug)]
pub struct User {
    pub id: i64,
    pub name: String,
    pub username: String,
    pub avatar_url: String,
}

/// Model of a user row.
pub ghost struct UserModel {
    pub id: int,
    pub name: Seq<char>,
    pub username: Seq<char>,
    pub avatar_url: Seq<char>,
}

impl View for User {
    type V = UserModel;

    open spec fn view(&self) -> UserModel {
        UserModel {
            id: self.id as int,
            name: self.name@,
            username: self.username@,
            avatar_url: self.avatar_url@,
        }
    }
}

impl Clone for User {
    fn clone(&self) -> (res: Self)
        ensures
            res == *self,
    {
        User {
            id: self.id,
            name: self.name.clone(),
            username: self.username.clone(),
            avatar_url: self.avatar_url.clone(),
        }
    }
}

/// A plugin row: the owner-qualified full name (globally unique), what the
/// marketplace displays, and a reference to the publisher.
#[derive(Debug)]
pub struct PluginData {
    pub name: String,
    pub display_name: String,
    pub description: String,
    pub publisher_id: i64,
}

/// Model of a plugin row.
pub ghost struct PluginModel {
    pub name: Seq<char>,
    pub display_name: Seq<char>,
    pub description: Seq<char>,
    pub publisher_id: int,
}

impl View for PluginData {
    type V = PluginModel;

    open spec fn view(&self) -> PluginModel {
        PluginModel {
            name: self.name@,
            display_name: self.display_name@,
            description: self.description@,
            publisher_id: self.publisher_id as int,
        }
    }
}

impl Clone for PluginData {
    fn clone(&self) -> (res: Self)
        ensures
            res == *self,
    {
        PluginData {
            name: self.name.clone(),
            display_name: self.display_name.clone(),
            description: self.description.clone(),
            publisher_id: self.publisher_id,
        }
    }
}

/// A version row, keyed by (plugin full name, version string). `yanked` is
/// flipped to true by `yank_version` and never back; the digest is the
/// stored content fingerprint.
#[derive(Debug)]
pub struct VersionData {
    pub plugin_name: String,
    pub version: String,
    pub yanked: bool,
    pub digest: String,
    pub preview: bool,
}

/// Model of a version row.
pub ghost struct VersionModel {
    pub plugin_name: Seq<char>,
    pub version: Seq<char>,
    pub yanked: bool,
    pub digest: Seq<char>,
    pub preview: bool,
}

impl View for VersionData {
    type V = VersionModel;

    open spec fn view(&self) -> VersionModel {
        VersionModel {
            plugin_name: self.plugin_name@,
            version: self.version@,
            yanked: self.yanked,
            digest: self.digest@,
            preview: self.preview,
        }
    }
}

impl Clone for VersionData {
    fn clone(&self) -> (res: Self)
        ensures
            res == *self,
    {
        VersionData {
            plugin_name: self.plugin_name.clone(),
            version: self.version.clone(),
            yanked: self.yanked,
            digest: self.digest.clone(),
            preview: self.preview,
        }
    }
}

/// Contains the necessary information to create a new plugin.
#[derive(Debug)]
pub struct NewVoltInfo {
    /// Short name; the stored full name is `"<publisher username>.<name>"`.
    pub name: String,
    pub display_name: String,
    pub description: String,
    pub publisher_id: i64,
    pub icon: Option<Vec<u8>>,
}

/// Model of a publish request.
pub ghost struct NewVoltInfoModel {
    pub name: Seq<char>,
    pub display_name: Seq<char>,
    pub description: Seq<char>,
    pub publisher_id: int,
    pub icon: Option<Seq<u8>>,
}

impl View for NewVoltInfo {
    type V = NewVoltInfoModel;

    open spec fn view(&self) -> NewVoltInfoModel {
        NewVoltInfoModel {
            name: self.name@,
            display_name: self.display_name@,
            description: self.description@,
            publisher_id: self.publisher_id as int,
            icon: match self.icon {
                Some(bytes) => Some(bytes@),
                None => None,
            },
        }
    }
}

/// This struct is used to create a new version of a plugin.
#[derive(Debug)]
pub struct NewPluginVersion {
    /// The new version; must be greater than every recorded version.
    pub version: String,
    /// The compiled plugin module, if this version ships one.
    pub wasm_file: Option<Vec<u8>>,
    /// Theme texts, stored in list order.
    pub themes: Vec<String>,
    /// Tells if this version is a pre-release or not.
    pub preview: bool,
}

/// Model of a version-creation request.
pub ghost struct NewPluginVersionModel {
    pub version: Seq<char>,
    pub wasm_file: Option<Seq<u8>>,
    pub themes: Seq<Seq<char>>,
    pub preview: bool,
}

impl View for NewPluginVersion {
    type V = NewPluginVersionModel;

    open spec fn view(&self) -> NewPluginVersionModel {
        NewPluginVersionModel {
            version: self.version@,
            wasm_file: match self.wasm_file {
                Some(bytes) => Some(bytes@),
                None => None,
            },
            themes: self.themes.deep_view(),
            preview: self.preview,
        }
    }
}

} // verus!
