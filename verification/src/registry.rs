//! The registry service: publishes plugins, creates semver-ordered
//! versions, yanks broken versions and unpublishes plugins, keeping the
//! metadata rows and the blob store consistent. Every operation is
//! specified against `RegistryModel`, the mathematical state of the
//! registry, through the outcome functions below.

use vstd::pervasive::VecAdditionalExecFns;
use vstd::prelude::*;
use vstd::string::StringExecFns;

use crate::blob::{
    find_icon, find_resource, remove_all_resources, set_icon, set_resource, BlobModel, IconModel,
    MemoryBlobStore, ResourceModel,
};
use crate::data::{
    opt_bytes_view, NewPluginVersion, NewPluginVersionModel, NewVoltInfo, NewVoltInfoModel,
    PluginData, PluginModel, User, UserModel, VersionData, VersionModel,
};
use crate::digest::{digest_version, version_digest};
use crate::errors::{
    CreateVersionError, GetResourceError, PublishError, UnpublishPluginError, YankVersionError,
};
use crate::find::{first_where, lemma_first_where_none, lemma_first_where_some};
use crate::versions::{sem_cmp, sem_valid, semver_compare, semver_is_valid, version_conflict};

verus! {

/// The mathematical state of the registry: user, plugin and version rows in
/// storage order, and the blob store contents.
pub ghost struct RegistryModel {
    pub users: Seq<UserModel>,
    pub plugins: Seq<PluginModel>,
    pub versions: Seq<VersionModel>,
    pub blobs: BlobModel,
}

/// Matches the user row with this id.
pub open spec fn user_with_id(id: int) -> spec_fn(UserModel) -> bool {
    |u: UserModel| u.id == id
}

/// Matches the plugin row with this full name.
pub open spec fn plugin_named(name: Seq<char>) -> spec_fn(PluginModel) -> bool {
    |p: PluginModel| p.name == name
}

/// Matches the version row with this (plugin full name, version) key.
pub open spec fn version_keyed(plugin: Seq<char>, version: Seq<char>) -> spec_fn(
    VersionModel,
) -> bool {
    |v: VersionModel| v.plugin_name == plugin && v.version == version
}

/// The user row with this id, if any.
pub open spec fn find_user(users: Seq<UserModel>, id: int) -> Option<UserModel> {
    match first_where(users, user_with_id(id)) {
        Some(i) => Some(users[i]),
        None => None,
    }
}

/// The plugin row with this full name, if any.
pub open spec fn find_plugin(plugins: Seq<PluginModel>, name: Seq<char>) -> Option<PluginModel> {
    match first_where(plugins, plugin_named(name)) {
        Some(i) => Some(plugins[i]),
        None => None,
    }
}

/// The version row with this key, if any — yanked or not.
pub open spec fn find_version(
    versions: Seq<VersionModel>,
    plugin: Seq<char>,
    version: Seq<char>,
) -> Option<VersionModel> {
    match first_where(versions, version_keyed(plugin, version)) {
        Some(i) => Some(versions[i]),
        None => None,
    }
}

/// The version strings recorded for a plugin, yanked ones included, in
/// storage order.
pub open spec fn plugin_version_strings(rows: Seq<VersionModel>, plugin: Seq<char>) -> Seq<
    Seq<char>,
>
    decreases rows.len(),
{
    if rows.len() == 0 {
        Seq::empty()
    } else if rows[0].plugin_name == plugin {
        seq![rows[0].version] + plugin_version_strings(rows.drop_first(), plugin)
    } else {
        plugin_version_strings(rows.drop_first(), plugin)
    }
}

/// The version rows that survive deleting a plugin, in storage order.
pub open spec fn drop_plugin_versions(rows: Seq<VersionModel>, plugin: Seq<char>) -> Seq<
    VersionModel,
>
    decreases rows.len(),
{
    if rows.len() == 0 {
        Seq::empty()
    } else if rows[0].plugin_name == plugin {
        drop_plugin_versions(rows.drop_first(), plugin)
    } else {
        seq![rows[0]] + drop_plugin_versions(rows.drop_first(), plugin)
    }
}

/// The owner-qualified full name of a plugin: the publisher's username, a
/// dot, and the short name.
pub open spec fn full_name(username: Seq<char>, short: Seq<char>) -> Seq<char> {
    username + seq!['.'] + short
}

/// What `get_plugin` returns: the plugin row, or `NotFound`.
pub open spec fn plugin_lookup(m: RegistryModel, name: Seq<char>) -> Result<
    PluginModel,
    GetResourceError,
> {
    match find_plugin(m.plugins, name) {
        Some(p) => Ok(p),
        None => Err(GetResourceError::NotFound),
    }
}

/// What `get_plugin_version` returns: the version row, with a yanked
/// version treated exactly like a missing one.
pub open spec fn version_lookup(m: RegistryModel, name: Seq<char>, version: Seq<char>) -> Result<
    VersionModel,
    GetResourceError,
> {
    match find_version(m.versions, name, version) {
        Some(v) => if v.yanked {
            Err(GetResourceError::NotFound)
        } else {
            Ok(v)
        },
        None => Err(GetResourceError::NotFound),
    }
}

/// What `get_plugin_version_wasm` returns: the stored wasm module of a
/// visible (existing, not yanked) version; `NotFound` for a missing or
/// yanked version, or when the version ships no wasm module.
pub open spec fn wasm_lookup(m: RegistryModel, name: Seq<char>, version: Seq<char>) -> Result<
    Seq<u8>,
    GetResourceError,
> {
    match version_lookup(m, name, version) {
        Err(e) => Err(e),
        Ok(v) => match find_resource(m.blobs.resources, name, version) {
            Some(res) => match res.wasm {
                Some(w) => Ok(w),
                None => Err(GetResourceError::NotFound),
            },
            None => Err(GetResourceError::NotFound),
        },
    }
}

/// What `get_plugin_version_themes` returns: the stored theme texts, in
/// list order, of a visible version.
pub open spec fn themes_lookup(m: RegistryModel, name: Seq<char>, version: Seq<char>) -> Result<
    Seq<Seq<char>>,
    GetResourceError,
> {
    match version_lookup(m, name, version) {
        Err(e) => Err(e),
        Ok(v) => match find_resource(m.blobs.resources, name, version) {
            Some(res) => Ok(res.themes),
            None => Err(GetResourceError::NotFound),
        },
    }
}

/// What `get_plugin_icon` returns: the stored icon bytes, or `NotFound`.
/// Icons are not version state, so yanking never hides them.
pub open spec fn icon_lookup(m: RegistryModel, name: Seq<char>) -> Result<
    Seq<u8>,
    GetResourceError,
> {
    match find_icon(m.blobs.icons, name) {
        Some(b) => Ok(b),
        None => Err(GetResourceError::NotFound),
    }
}

/// What `save_icon` returns and does: a rejected icon fails `InvalidIcon`
/// and writes nothing; an accepted one replaces the stored icon of `name`.
pub open spec fn save_icon_outcome(m: RegistryModel, name: Seq<char>, icon: Seq<u8>) -> (Result<
    (),
    PublishError,
>, RegistryModel) {
    if crate::icon::icon_verdict(icon) is Some {
        (Err(PublishError::InvalidIcon), m)
    } else {
        (
            Ok(()),
            RegistryModel {
                users: m.users,
                plugins: m.plugins,
                versions: m.versions,
                blobs: BlobModel {
                    icons: set_icon(m.blobs.icons, name, icon),
                    resources: m.blobs.resources,
                },
            },
        )
    }
}

/// What `publish` returns and does. In order: the publisher id is resolved
/// (an unknown id is a store error, since ids come from authenticated
/// sessions); the full name is computed; a full name already registered
/// fails `AlreadyExists`; a supplied icon is validated and stored — before
/// the plugin row is inserted, so a rejected icon leaves no orphan row; on
/// success the plugin row is appended and returned.
pub open spec fn publish_outcome(m: RegistryModel, info: NewVoltInfoModel) -> (Result<
    PluginModel,
    PublishError,
>, RegistryModel) {
    match find_user(m.users, info.publisher_id) {
        None => (Err(PublishError::DatabaseError), m),
        Some(publisher) => {
            let full = full_name(publisher.username, info.name);
            let row = PluginModel {
                name: full,
                display_name: info.display_name,
                description: info.description,
                publisher_id: info.publisher_id,
            };
            if find_plugin(m.plugins, full) is Some {
                (Err(PublishError::AlreadyExists), m)
            } else {
                match info.icon {
                    Some(icon) => if crate::icon::icon_verdict(icon) is Some {
                        (Err(PublishError::InvalidIcon), m)
                    } else {
                        (
                            Ok(row),
                            RegistryModel {
                                users: m.users,
                                plugins: m.plugins.push(row),
                                versions: m.versions,
                                blobs: BlobModel {
                                    icons: set_icon(m.blobs.icons, full, icon),
                                    resources: m.blobs.resources,
                                },
                            },
                        )
                    },
                    None => (
                        Ok(row),
                        RegistryModel {
                            users: m.users,
                            plugins: m.plugins.push(row),
                            versions: m.versions,
                            blobs: m.blobs,
                        },
                    ),
                }
            }
        },
    }
}

/// What `create_version` returns and does. In order: a version string that
/// is no semantic version fails `InvalidSemVer` before anything else; a
/// missing plugin fails `NonExistentPlugin`; the candidate is compared
/// against every recorded version of the plugin, yanked ones included, in
/// storage order (see `version_conflict`); on acceptance the payloads are
/// stored and the version row is appended, unyanked, with the content
/// digest.
pub open spec fn create_version_outcome(
    m: RegistryModel,
    name: Seq<char>,
    nv: NewPluginVersionModel,
) -> (Result<(), CreateVersionError>, RegistryModel) {
    if !sem_valid(nv.version) {
        (Err(CreateVersionError::InvalidSemVer), m)
    } else {
        match find_plugin(m.plugins, name) {
            None => (Err(CreateVersionError::NonExistentPlugin), m),
            Some(plugin) => {
                match version_conflict(plugin_version_strings(m.versions, name), nv.version) {
                    Some(e) => (Err(e), m),
                    None => {
                        let row = VersionModel {
                            plugin_name: name,
                            version: nv.version,
                            yanked: false,
                            digest: version_digest(nv.version, name, nv.themes, nv.wasm_file),
                            preview: nv.preview,
                        };
                        (
                            Ok(()),
                            RegistryModel {
                                users: m.users,
                                plugins: m.plugins,
                                versions: m.versions.push(row),
                                blobs: BlobModel {
                                    icons: m.blobs.icons,
                                    resources: set_resource(
                                        m.blobs.resources,
                                        name,
                                        nv.version,
                                        nv.wasm_file,
                                        nv.themes,
                                    ),
                                },
                            },
                        )
                    },
                }
            },
        }
    }
}

/// What `yank_version` returns and does: a missing or already yanked
/// version fails `NonExistentOrAlreadyYanked`; otherwise the row's `yanked`
/// flag is set, irreversibly, and nothing else changes — in particular the
/// stored blobs stay.
pub open spec fn yank_outcome(m: RegistryModel, name: Seq<char>, version: Seq<char>) -> (Result<
    (),
    YankVersionError,
>, RegistryModel) {
    match first_where(m.versions, version_keyed(name, version)) {
        None => (Err(YankVersionError::NonExistentOrAlreadyYanked), m),
        Some(i) => if m.versions[i].yanked {
            (Err(YankVersionError::NonExistentOrAlreadyYanked), m)
        } else {
            let row = m.versions[i];
            (
                Ok(()),
                RegistryModel {
                    users: m.users,
                    plugins: m.plugins,
                    versions: m.versions.update(
                        i,
                        VersionModel {
                            plugin_name: row.plugin_name,
                            version: row.version,
                            yanked: true,
                            digest: row.digest,
                            preview: row.preview,
                        },
                    ),
                    blobs: m.blobs,
                },
            )
        },
    }
}

/// What `unpublish_plugin` returns and does: a missing plugin fails
/// `NonExistent`; otherwise the stored payloads of each recorded version
/// are removed, then all its version rows, then the plugin row. The icon
/// stays. Irreversible.
pub open spec fn unpublish_outcome(m: RegistryModel, name: Seq<char>) -> (Result<
    (),
    UnpublishPluginError,
>, RegistryModel) {
    match first_where(m.plugins, plugin_named(name)) {
        None => (Err(UnpublishPluginError::NonExistent), m),
        Some(i) => (
            Ok(()),
            RegistryModel {
                users: m.users,
                plugins: m.plugins.remove(i),
                versions: drop_plugin_versions(m.versions, name),
                blobs: BlobModel {
                    icons: m.blobs.icons,
                    resources: remove_all_resources(
                        m.blobs.resources,
                        name,
                        plugin_version_strings(m.versions, name),
                    ),
                },
            },
        ),
    }
}

/// The conflict scan of `create_version`, stated over whole version rows:
/// rows of other plugins are skipped; the first row of the plugin that ties
/// with or exceeds the candidate decides the error. Equivalent to
/// `version_conflict` over the plugin's version strings
/// (`lemma_rows_conflict_equiv`).
pub open spec fn rows_conflict(
    rows: Seq<VersionModel>,
    plugin: Seq<char>,
    cand: Seq<char>,
) -> Option<CreateVersionError>
    decreases rows.len(),
{
    if rows.len() == 0 {
        None
    } else if rows[0].plugin_name != plugin {
        rows_conflict(rows.drop_first(), plugin, cand)
    } else if !sem_valid(rows[0].version) {
        Some(CreateVersionError::DatabaseError)
    } else if sem_cmp(rows[0].version, cand) == 0 {
        Some(CreateVersionError::AlreadyExists)
    } else if sem_cmp(rows[0].version, cand) > 0 {
        Some(CreateVersionError::LessThanLatestVersion)
    } else {
        rows_conflict(rows.drop_first(), plugin, cand)
    }
}

/// Scanning the rows and scanning the plugin's version strings agree.
pub proof fn lemma_rows_conflict_equiv(rows: Seq<VersionModel>, plugin: Seq<char>, cand: Seq<char>)
    ensures
        rows_conflict(rows, plugin, cand) == version_conflict(
            plugin_version_strings(rows, plugin),
            cand,
        ),
    decreases rows.len(),
{
    if rows.len() > 0 {
        lemma_rows_conflict_equiv(rows.drop_first(), plugin, cand);
        if rows[0].plugin_name == plugin {
            let strings = plugin_version_strings(rows, plugin);
            assert(strings[0] == rows[0].version);
            assert(strings.drop_first() =~= plugin_version_strings(rows.drop_first(), plugin));
        }
    }
}

/// Appending a row extends the plugin's version strings exactly when the
/// row belongs to the plugin.
pub proof fn lemma_version_strings_push(
    rows: Seq<VersionModel>,
    row: VersionModel,
    plugin: Seq<char>,
)
    ensures
        plugin_version_strings(rows.push(row), plugin) == if row.plugin_name == plugin {
            plugin_version_strings(rows, plugin).push(row.version)
        } else {
            plugin_version_strings(rows, plugin)
        },
    decreases rows.len(),
{
    let pushed = rows.push(row);
    if rows.len() == 0 {
        assert(pushed.drop_first() =~= Seq::<VersionModel>::empty());
        assert(pushed[0] == row);
        if row.plugin_name == plugin {
            assert(plugin_version_strings(pushed, plugin) == seq![row.version]
                + plugin_version_strings(pushed.drop_first(), plugin));
            assert(plugin_version_strings(pushed, plugin) =~= plugin_version_strings(
                rows,
                plugin,
            ).push(row.version));
        } else {
            assert(plugin_version_strings(pushed, plugin) == plugin_version_strings(
                pushed.drop_first(),
                plugin,
            ));
        }
    } else {
        assert(pushed.drop_first() =~= rows.drop_first().push(row));
        assert(pushed[0] == rows[0]);
        lemma_version_strings_push(rows.drop_first(), row, plugin);
        if rows[0].plugin_name == plugin {
            assert(plugin_version_strings(pushed, plugin) == seq![rows[0].version]
                + plugin_version_strings(rows.drop_first().push(row), plugin));
            assert(plugin_version_strings(rows, plugin) == seq![rows[0].version]
                + plugin_version_strings(rows.drop_first(), plugin));
            if row.plugin_name == plugin {
                assert(plugin_version_strings(pushed, plugin) =~= plugin_version_strings(
                    rows,
                    plugin,
                ).push(row.version));
            } else {
                assert(plugin_version_strings(pushed, plugin) =~= plugin_version_strings(
                    rows,
                    plugin,
                ));
            }
        } else {
            assert(plugin_version_strings(pushed, plugin) == plugin_version_strings(
                rows.drop_first().push(row),
                plugin,
            ));
            assert(plugin_version_strings(rows, plugin) == plugin_version_strings(
                rows.drop_first(),
                plugin,
            ));
        }
    }
}

/// Appending a row extends the surviving rows exactly when the row does not
/// belong to the deleted plugin.
pub proof fn lemma_drop_versions_push(rows: Seq<VersionModel>, row: VersionModel, plugin: Seq<char>)
    ensures
        drop_plugin_versions(rows.push(row), plugin) == if row.plugin_name == plugin {
            drop_plugin_versions(rows, plugin)
        } else {
            drop_plugin_versions(rows, plugin).push(row)
        },
    decreases rows.len(),
{
    let pushed = rows.push(row);
    if rows.len() == 0 {
        assert(pushed.drop_first() =~= Seq::<VersionModel>::empty());
        assert(pushed[0] == row);
        if row.plugin_name != plugin {
            assert(drop_plugin_versions(pushed, plugin) == seq![row] + drop_plugin_versions(
                pushed.drop_first(),
                plugin,
            ));
            assert(drop_plugin_versions(pushed, plugin) =~= drop_plugin_versions(
                rows,
                plugin,
            ).push(row));
        } else {
            assert(drop_plugin_versions(pushed, plugin) == drop_plugin_versions(
                pushed.drop_first(),
                plugin,
            ));
        }
    } else {
        assert(pushed.drop_first() =~= rows.drop_first().push(row));
        assert(pushed[0] == rows[0]);
        lemma_drop_versions_push(rows.drop_first(), row, plugin);
        if rows[0].plugin_name != plugin {
            assert(drop_plugin_versions(pushed, plugin) == seq![rows[0]] + drop_plugin_versions(
                rows.drop_first().push(row),
                plugin,
            ));
            assert(drop_plugin_versions(rows, plugin) == seq![rows[0]] + drop_plugin_versions(
                rows.drop_first(),
                plugin,
            ));
            if row.plugin_name != plugin {
                assert(drop_plugin_versions(pushed, plugin) =~= drop_plugin_versions(
                    rows,
                    plugin,
                ).push(row));
            } else {
                assert(drop_plugin_versions(pushed, plugin) =~= drop_plugin_versions(
                    rows,
                    plugin,
                ));
            }
        } else {
            assert(drop_plugin_versions(pushed, plugin) == drop_plugin_versions(
                rows.drop_first().push(row),
                plugin,
            ));
            assert(drop_plugin_versions(rows, plugin) == drop_plugin_versions(
                rows.drop_first(),
                plugin,
            ));
        }
    }
}

/// Removing one more version's payloads composes with removing the
/// previous ones.
pub proof fn lemma_remove_all_push(
    resources: Seq<ResourceModel>,
    plugin: Seq<char>,
    versions: Seq<Seq<char>>,
    version: Seq<char>,
)
    ensures
        remove_all_resources(resources, plugin, versions.push(version))
            == crate::blob::remove_resource(
            remove_all_resources(resources, plugin, versions),
            plugin,
            version,
        ),
    decreases versions.len(),
{
    let pushed = versions.push(version);
    if versions.len() == 0 {
        assert(pushed.drop_first() =~= Seq::<Seq<char>>::empty());
        assert(pushed[0] == version);
        assert(remove_all_resources(resources, plugin, pushed) == remove_all_resources(
            crate::blob::remove_resource(resources, plugin, version),
            plugin,
            pushed.drop_first(),
        ));
        assert(remove_all_resources(
            crate::blob::remove_resource(resources, plugin, version),
            plugin,
            pushed.drop_first(),
        ) == crate::blob::remove_resource(resources, plugin, version));
        assert(remove_all_resources(resources, plugin, versions) == resources);
    } else {
        assert(pushed.drop_first() =~= versions.drop_first().push(version));
        assert(pushed[0] == versions[0]);
        let rr0 = crate::blob::remove_resource(resources, plugin, versions[0]);
        lemma_remove_all_push(rr0, plugin, versions.drop_first(), version);
        assert(remove_all_resources(resources, plugin, pushed) == remove_all_resources(
            rr0,
            plugin,
            pushed.drop_first(),
        ));
        assert(remove_all_resources(resources, plugin, versions) == remove_all_resources(
            rr0,
            plugin,
            versions.drop_first(),
        ));
    }
}

/// Builds the owner-qualified full name `"<username>.<short>"`.
pub fn make_full_name(username: &String, short: &String) -> (r: String)
    ensures
        r@ == full_name(username@, short@),
{
    let mut s = username.clone();
    s.append(".");
    s.append(short.as_str());
    proof {
        reveal_strlit(".");
        assert(s@ =~= full_name(username@, short@));
    }
    s
}


/// The registry capability: resource accessors plus the four mutating
/// operations. All contracts are stated against the implementation's
/// `model`; `MemoryRepository` is the verified implementation.
pub trait Repository: Sized {
    /// The mathematical state of the registry.
    spec fn model(&self) -> RegistryModel;

    /// The plugin row registered under `name`, or `NotFound`.
    fn get_plugin(&mut self, name: String) -> (r: Result<PluginData, GetResourceError>)
        ensures
            final(self).model() == old(self).model(),
            match (r, plugin_lookup(old(self).model(), name@)) {
                (Ok(p), Ok(pm)) => p@ == pm,
                (Err(e1), Err(e2)) => e1 == e2,
                _ => false,
            },
    ;

    /// The version row keyed (`name`, `version`), with a yanked version
    /// treated exactly like a missing one: `NotFound` for both.
    fn get_plugin_version(&mut self, name: String, version: String) -> (r: Result<
        VersionData,
        GetResourceError,
    >)
        ensures
            final(self).model() == old(self).model(),
            match (r, version_lookup(old(self).model(), name@, version@)) {
                (Ok(v), Ok(vm)) => v@ == vm,
                (Err(e1), Err(e2)) => e1 == e2,
                _ => false,
            },
    ;

    /// The stored icon of the plugin `name`, or `NotFound`.
    fn get_plugin_icon(&mut self, name: String) -> (r: Result<Vec<u8>, GetResourceError>)
        ensures
            final(self).model() == old(self).model(),
            match (r, icon_lookup(old(self).model(), name@)) {
                (Ok(b), Ok(bm)) => b@ == bm,
                (Err(e1), Err(e2)) => e1 == e2,
                _ => false,
            },
    ;

    /// The wasm module of a visible version of `name`: `NotFound` when the
    /// version is missing or yanked, or ships no wasm module.
    fn get_plugin_version_wasm(&mut self, name: String, version: String) -> (r: Result<
        Vec<u8>,
        GetResourceError,
    >)
        ensures
            final(self).model() == old(self).model(),
            match (r, wasm_lookup(old(self).model(), name@, version@)) {
                (Ok(b), Ok(bm)) => b@ == bm,
                (Err(e1), Err(e2)) => e1 == e2,
                _ => false,
            },
    ;

    /// The theme texts of a visible version of `name`, in list order:
    /// `NotFound` when the version is missing or yanked.
    fn get_plugin_version_themes(&mut self, name: String, version: String) -> (r: Result<
        Vec<String>,
        GetResourceError,
    >)
        ensures
            final(self).model() == old(self).model(),
            match (r, themes_lookup(old(self).model(), name@, version@)) {
                (Ok(t), Ok(tm)) => t.deep_view() == tm,
                (Err(e1), Err(e2)) => e1 == e2,
                _ => false,
            },
    ;

    /// Validates and stores the icon of `plugin_name`; a rejected icon
    /// fails `InvalidIcon` and nothing is written.
    fn save_icon(&mut self, plugin_name: String, icon: &[u8]) -> (r: Result<(), PublishError>)
        ensures
            ({
                let (res, m2) = save_icon_outcome(old(self).model(), plugin_name@, icon@);
                final(self).model() == m2 && (match (r, res) {
                    (Ok(u1), Ok(u2)) => true,
                    (Err(e1), Err(e2)) => e1 == e2,
                    _ => false,
                })
            }),
    ;

    /// Creates a new plugin; see `publish_outcome` for the exact contract.
    fn publish(&mut self, volt_info: NewVoltInfo) -> (r: Result<PluginData, PublishError>)
        ensures
            ({
                let (res, m2) = publish_outcome(old(self).model(), volt_info@);
                final(self).model() == m2 && (match (r, res) {
                    (Ok(p), Ok(pm)) => p@ == pm,
                    (Err(e1), Err(e2)) => e1 == e2,
                    _ => false,
                })
            }),
    ;

    /// Creates a new version on an existing plugin; see
    /// `create_version_outcome` for the exact contract.
    fn create_version(&mut self, plugin_name: String, version: NewPluginVersion) -> (r: Result<
        (),
        CreateVersionError,
    >)
        ensures
            ({
                let (res, m2) = create_version_outcome(old(self).model(), plugin_name@, version@);
                final(self).model() == m2 && (match (r, res) {
                    (Ok(u1), Ok(u2)) => true,
                    (Err(e1), Err(e2)) => e1 == e2,
                    _ => false,
                })
            }),
    ;

    /// Marks a version as broken; see `yank_outcome` for the exact
    /// contract. Yanking a version says the version is broken and must be
    /// updated; it makes the version undownloadable.
    fn yank_version(&mut self, plugin_name: String, version: String) -> (r: Result<
        (),
        YankVersionError,
    >)
        ensures
            ({
                let (res, m2) = yank_outcome(old(self).model(), plugin_name@, version@);
                final(self).model() == m2 && (match (r, res) {
                    (Ok(u1), Ok(u2)) => true,
                    (Err(e1), Err(e2)) => e1 == e2,
                    _ => false,
                })
            }),
    ;

    /// Unpublishes a plugin from the repository; see `unpublish_outcome`
    /// for the exact contract.
    fn unpublish_plugin(&mut self, plugin_name: String) -> (r: Result<(), UnpublishPluginError>)
        ensures
            ({
                let (res, m2) = unpublish_outcome(old(self).model(), plugin_name@);
                final(self).model() == m2 && (match (r, res) {
                    (Ok(u1), Ok(u2)) => true,
                    (Err(e1), Err(e2)) => e1 == e2,
                    _ => false,
                })
            }),
    ;
}

/// The registry over in-memory stores: the verified implementation of the
/// `Repository` capability.
pub struct MemoryRepository {
    users: Vec<User>,
    plugins: Vec<PluginData>,
    versions: Vec<VersionData>,
    store: MemoryBlobStore,
}

impl MemoryRepository {
    /// An empty registry: no users, no plugins, no versions, no blobs.
    pub fn new() -> (s: Self)
        ensures
            s.model() == (RegistryModel {
                users: Seq::<UserModel>::empty(),
                plugins: Seq::<PluginModel>::empty(),
                versions: Seq::<VersionModel>::empty(),
                blobs: BlobModel {
                    icons: Seq::<IconModel>::empty(),
                    resources: Seq::<ResourceModel>::empty(),
                },
            }),
    {
        let s = MemoryRepository {
            users: Vec::new(),
            plugins: Vec::new(),
            versions: Vec::new(),
            store: MemoryBlobStore::new(),
        };
        proof {
            assert(s.model().users =~= Seq::<UserModel>::empty());
            assert(s.model().plugins =~= Seq::<PluginModel>::empty());
            assert(s.model().versions =~= Seq::<VersionModel>::empty());
        }
        s
    }

    /// Records a user. Users are owned by the login flow, which keeps ids
    /// unique; the registry only appends what it is handed.
    pub fn add_user(&mut self, user: User)
        ensures
            final(self).model() == (RegistryModel {
                users: old(self).model().users.push(user@),
                plugins: old(self).model().plugins,
                versions: old(self).model().versions,
                blobs: old(self).model().blobs,
            }),
    {
        self.users.push(user);
        proof {
            assert(self.model().users =~= old(self).model().users.push(user@));
        }
    }

    fn find_user_index(&self, id: i64) -> (r: Option<usize>)
        ensures
            match r {
                Some(i) => i < self.model().users.len() && first_where(
                    self.model().users,
                    user_with_id(id as int),
                ) == Some(i as int),
                None => first_where(self.model().users, user_with_id(id as int)) == None::<int>,
            },
    {
        let mut i: usize = 0;
        while i < self.users.len()
            invariant
                i <= self.users@.len(),
                forall|j: int| 0 <= j < i ==> (#[trigger] self.model().users[j]).id != id as int,
            decreases self.users@.len() - i,
        {
            if self.users[i].id == id {
                proof {
                    lemma_first_where_some(self.model().users, user_with_id(id as int), i as int);
                }
                return Some(i);
            }
            i = i + 1;
        }
        proof {
            lemma_first_where_none(self.model().users, user_with_id(id as int));
        }
        None
    }

    fn find_plugin_index(&self, name: &String) -> (r: Option<usize>)
        ensures
            match r {
                Some(i) => i < self.model().plugins.len() && first_where(
                    self.model().plugins,
                    plugin_named(name@),
                ) == Some(i as int),
                None => first_where(self.model().plugins, plugin_named(name@)) == None::<int>,
            },
    {
        let mut i: usize = 0;
        while i < self.plugins.len()
            invariant
                i <= self.plugins@.len(),
                forall|j: int| 0 <= j < i ==> (#[trigger] self.model().plugins[j]).name != name@,
            decreases self.plugins@.len() - i,
        {
            if self.plugins[i].name == *name {
                proof {
                    lemma_first_where_some(self.model().plugins, plugin_named(name@), i as int);
                }
                return Some(i);
            }
            i = i + 1;
        }
        proof {
            lemma_first_where_none(self.model().plugins, plugin_named(name@));
        }
        None
    }

    fn find_version_index(&self, name: &String, version: &String) -> (r: Option<usize>)
        ensures
            match r {
                Some(i) => i < self.model().versions.len() && first_where(
                    self.model().versions,
                    version_keyed(name@, version@),
                ) == Some(i as int),
                None => first_where(self.model().versions, version_keyed(name@, version@))
                    == None::<int>,
            },
    {
        let mut i: usize = 0;
        while i < self.versions.len()
            invariant
                i <= self.versions@.len(),
                forall|j: int|
                    0 <= j < i ==> !((#[trigger] self.model().versions[j]).plugin_name == name@
                        && self.model().versions[j].version == version@),
            decreases self.versions@.len() - i,
        {
            if self.versions[i].plugin_name == *name && self.versions[i].version == *version {
                proof {
                    lemma_first_where_some(
                        self.model().versions,
                        version_keyed(name@, version@),
                        i as int,
                    );
                }
                return Some(i);
            }
            i = i + 1;
        }
        proof {
            lemma_first_where_none(self.model().versions, version_keyed(name@, version@));
        }
        None
    }

}

impl Repository for MemoryRepository {
    /// The mathematical state of this registry: the rows and blobs held.
    closed spec fn model(&self) -> RegistryModel {
        RegistryModel {
            users: self.users@.map_values(|u: User| u@),
            plugins: self.plugins@.map_values(|p: PluginData| p@),
            versions: self.versions@.map_values(|v: VersionData| v@),
            blobs: self.store@,
        }
    }

    /// The plugin row registered under `name`, or `NotFound`.
    fn get_plugin(&mut self, name: String) -> (r: Result<PluginData, GetResourceError>) {
        match self.find_plugin_index(&name) {
            Some(i) => Ok(self.plugins[i].clone()),
            None => Err(GetResourceError::NotFound),
        }
    }

    /// The version row keyed (`name`, `version`), with a yanked version
    /// treated exactly like a missing one: `NotFound` for both.
    fn get_plugin_version(&mut self, name: String, version: String) -> (r: Result<
        VersionData,
        GetResourceError,
    >) {
        match self.find_version_index(&name, &version) {
            Some(i) => {
                if self.versions[i].yanked {
                    Err(GetResourceError::NotFound)
                } else {
                    Ok(self.versions[i].clone())
                }
            },
            None => Err(GetResourceError::NotFound),
        }
    }

    /// The stored icon of the plugin `name`, or `NotFound`.
    fn get_plugin_icon(&mut self, name: String) -> (r: Result<Vec<u8>, GetResourceError>) {
        self.store.get_icon(&name)
    }

    /// The wasm module of a visible version of `name`: `NotFound` when the
    /// version is missing or yanked, or ships no wasm module.
    fn get_plugin_version_wasm(&mut self, name: String, version: String) -> (r: Result<
        Vec<u8>,
        GetResourceError,
    >) {
        match self.find_version_index(&name, &version) {
            Some(i) => {
                if self.versions[i].yanked {
                    Err(GetResourceError::NotFound)
                } else {
                    self.store.get_version_wasm(&name, &version)
                }
            },
            None => Err(GetResourceError::NotFound),
        }
    }

    /// The theme texts of a visible version of `name`, in list order:
    /// `NotFound` when the version is missing or yanked.
    fn get_plugin_version_themes(&mut self, name: String, version: String) -> (r: Result<
        Vec<String>,
        GetResourceError,
    >) {
        match self.find_version_index(&name, &version) {
            Some(i) => {
                if self.versions[i].yanked {
                    Err(GetResourceError::NotFound)
                } else {
                    self.store.get_version_themes(&name, &version)
                }
            },
            None => Err(GetResourceError::NotFound),
        }
    }

    /// Validates and stores the icon of `plugin_name`; a rejected icon
    /// fails `InvalidIcon` and nothing is written.
    fn save_icon(&mut self, plugin_name: String, icon: &[u8]) -> (r: Result<(), PublishError>) {
        let r = self.store.save_icon(&plugin_name, icon);
        proof {
            assert(self.model().users =~= old(self).model().users);
            assert(self.model().plugins =~= old(self).model().plugins);
            assert(self.model().versions =~= old(self).model().versions);
        }
        r
    }

    /// Creates a new plugin. Resolves the publisher (an unknown id is a
    /// store error), computes the full name, fails `AlreadyExists` when the
    /// full name is registered, validates and stores the icon before
    /// inserting the plugin row — a rejected icon leaves no orphan row —
    /// and returns the stored record.
    fn publish(&mut self, volt_info: NewVoltInfo) -> (r: Result<PluginData, PublishError>) {
        let ui = match self.find_user_index(volt_info.publisher_id) {
            None => {
                return Err(PublishError::DatabaseError);
            },
            Some(ui) => ui,
        };
        let full = make_full_name(&self.users[ui].username, &volt_info.name);
        proof {
            assert(find_user(old(self).model().users, volt_info@.publisher_id) == Some(
                old(self).model().users[ui as int],
            ));
            assert(full@ == full_name(
                old(self).model().users[ui as int].username,
                volt_info@.name,
            ));
        }
        match self.find_plugin_index(&full) {
            Some(_) => {
                return Err(PublishError::AlreadyExists);
            },
            None => {},
        }
        match &volt_info.icon {
            Some(icon) => {
                match self.store.save_icon(&full, icon.as_slice()) {
                    Err(e) => {
                        return Err(e);
                    },
                    Ok(u) => {},
                }
            },
            None => {},
        }
        let row = PluginData {
            name: full,
            display_name: volt_info.display_name,
            description: volt_info.description,
            publisher_id: volt_info.publisher_id,
        };
        let result = row.clone();
        self.plugins.push(row);
        proof {
            assert(self.model().users =~= old(self).model().users);
            assert(self.model().versions =~= old(self).model().versions);
            assert(self.model().plugins =~= old(self).model().plugins.push(row@));
        }
        Ok(result)
    }

    /// Creates a new version of an existing plugin. A malformed version
    /// string fails `InvalidSemVer` before anything else; the candidate is
    /// compared against every recorded version of the plugin — yanked ones
    /// included, so a yanked version string can never be reused; on
    /// acceptance the payloads are stored and the version row is inserted
    /// with the content digest and `yanked == false`.
    fn create_version(&mut self, plugin_name: String, version: NewPluginVersion) -> (r: Result<
        (),
        CreateVersionError,
    >) {
        let ghost m0 = old(self).model();
        if !semver_is_valid(version.version.as_str()) {
            return Err(CreateVersionError::InvalidSemVer);
        }
        match self.find_plugin_index(&plugin_name) {
            None => {
                return Err(CreateVersionError::NonExistentPlugin);
            },
            Some(_) => {},
        }
        proof {
            lemma_rows_conflict_equiv(m0.versions, plugin_name@, version.version@);
            assert(m0.versions.skip(0) =~= m0.versions);
        }
        let mut i: usize = 0;
        while i < self.versions.len()
            invariant
                *self == *old(self),
                sem_valid(version.version@),
                m0 == old(self).model(),
                find_plugin(m0.plugins, plugin_name@) is Some,
                i <= self.versions@.len(),
                rows_conflict(m0.versions.skip(i as int), plugin_name@, version.version@)
                    == rows_conflict(m0.versions, plugin_name@, version.version@),
            decreases self.versions@.len() - i,
        {
            proof {
                lemma_rows_conflict_equiv(m0.versions, plugin_name@, version.version@);
                assert(m0.versions.skip(i as int)[0] == m0.versions[i as int]);
                assert(m0.versions.skip(i as int).drop_first() =~= m0.versions.skip(i as int + 1));
            }
            if self.versions[i].plugin_name == plugin_name {
                match semver_compare(self.versions[i].version.as_str(), version.version.as_str()) {
                    None => {
                        return Err(CreateVersionError::DatabaseError);
                    },
                    Some(c) => {
                        if c == 0 {
                            return Err(CreateVersionError::AlreadyExists);
                        }
                        if c > 0 {
                            return Err(CreateVersionError::LessThanLatestVersion);
                        }
                    },
                }
            }
            i = i + 1;
        }
        proof {
            assert(m0.versions.skip(self.versions@.len() as int) =~= Seq::<VersionModel>::empty());
        }
        let digest = digest_version(
            version.version.as_str(),
            plugin_name.as_str(),
            &version.themes,
            &version.wasm_file,
        );
        self.store.save_version_resources(
            &plugin_name,
            &version.version,
            &version.wasm_file,
            &version.themes,
        );
        let row = VersionData {
            plugin_name: plugin_name.clone(),
            version: version.version.clone(),
            yanked: false,
            digest,
            preview: version.preview,
        };
        proof {
            assert(opt_bytes_view(version.wasm_file) == version@.wasm_file);
        }
        self.versions.push(row);
        proof {
            assert(self.model().users =~= m0.users);
            assert(self.model().plugins =~= m0.plugins);
            assert(self.model().versions =~= m0.versions.push(row@));
        }
        Ok(())
    }

    /// Marks a version as broken. A missing or already yanked version fails
    /// `NonExistentOrAlreadyYanked` — yanking is not idempotent by design —
    /// and a successful yank flips only the `yanked` flag: the row and the
    /// stored blobs stay.
    fn yank_version(&mut self, plugin_name: String, version: String) -> (r: Result<
        (),
        YankVersionError,
    >) {
        match self.find_version_index(&plugin_name, &version) {
            None => Err(YankVersionError::NonExistentOrAlreadyYanked),
            Some(i) => {
                if self.versions[i].yanked {
                    Err(YankVersionError::NonExistentOrAlreadyYanked)
                } else {
                    let row = VersionData {
                        plugin_name: self.versions[i].plugin_name.clone(),
                        version: self.versions[i].version.clone(),
                        yanked: true,
                        digest: self.versions[i].digest.clone(),
                        preview: self.versions[i].preview,
                    };
                    self.versions.set(i, row);
                    proof {
                        assert(self.model().users =~= old(self).model().users);
                        assert(self.model().plugins =~= old(self).model().plugins);
                        assert(self.model().versions =~= old(self).model().versions.update(
                            i as int,
                            row@,
                        ));
                    }
                    Ok(())
                }
            },
        }
    }

    /// Removes a plugin for good: the stored payloads of each of its
    /// recorded versions, then all its version rows, then the plugin row. A
    /// missing plugin fails `NonExistent`. The icon stays. Irreversible —
    /// though the freed full name may be registered again, since uniqueness
    /// is checked against live rows, not history.
    fn unpublish_plugin(&mut self, plugin_name: String) -> (r: Result<
        (),
        UnpublishPluginError,
    >) {
        let ghost m0 = old(self).model();
        let pi = match self.find_plugin_index(&plugin_name) {
            None => {
                return Err(UnpublishPluginError::NonExistent);
            },
            Some(pi) => pi,
        };
        let mut vs: Vec<String> = Vec::new();
        let mut i: usize = 0;
        while i < self.versions.len()
            invariant
                *self == *old(self),
                m0 == old(self).model(),
                i <= self.versions@.len(),
                vs.deep_view() == plugin_version_strings(
                    m0.versions.take(i as int),
                    plugin_name@,
                ),
            decreases self.versions@.len() - i,
        {
            proof {
                lemma_version_strings_push(
                    m0.versions.take(i as int),
                    m0.versions[i as int],
                    plugin_name@,
                );
                assert(m0.versions.take(i as int).push(m0.versions[i as int]) =~= m0.versions.take(
                    i as int + 1,
                ));
            }
            if self.versions[i].plugin_name == plugin_name {
                vs.push(self.versions[i].version.clone());
                proof {
                    assert(vs.deep_view() =~= plugin_version_strings(
                        m0.versions.take(i as int + 1),
                        plugin_name@,
                    ));
                }
            }
            i = i + 1;
        }
        proof {
            assert(m0.versions.take(self.versions@.len() as int) =~= m0.versions);
        }
        let ghost vstrings = plugin_version_strings(m0.versions, plugin_name@);
        let mut k: usize = 0;
        while k < vs.len()
            invariant
                k <= vs@.len(),
                vs.deep_view() == vstrings,
                m0 == old(self).model(),
                self.users == old(self).users,
                self.plugins == old(self).plugins,
                self.versions == old(self).versions,
                self.store@.icons == m0.blobs.icons,
                self.store@.resources == remove_all_resources(
                    m0.blobs.resources,
                    plugin_name@,
                    vstrings.take(k as int),
                ),
            decreases vs@.len() - k,
        {
            proof {
                lemma_remove_all_push(
                    m0.blobs.resources,
                    plugin_name@,
                    vstrings.take(k as int),
                    vstrings[k as int],
                );
                assert(vstrings.take(k as int).push(vstrings[k as int]) =~= vstrings.take(
                    k as int + 1,
                ));
                assert(vs@[k as int]@ == vstrings[k as int]);
            }
            self.store.remove_version(&plugin_name, &vs[k]);
            k = k + 1;
        }
        proof {
            assert(vstrings.take(vs@.len() as int) =~= vstrings);
        }
        let mut kept: Vec<VersionData> = Vec::new();
        let mut j: usize = 0;
        while j < self.versions.len()
            invariant
                j <= self.versions@.len(),
                m0 == old(self).model(),
                self.users == old(self).users,
                self.plugins == old(self).plugins,
                self.versions == old(self).versions,
                self.store@.icons == m0.blobs.icons,
                self.store@.resources == remove_all_resources(
                    m0.blobs.resources,
                    plugin_name@,
                    vstrings,
                ),
                kept@.map_values(|v: VersionData| v@) == drop_plugin_versions(
                    m0.versions.take(j as int),
                    plugin_name@,
                ),
            decreases self.versions@.len() - j,
        {
            proof {
                lemma_drop_versions_push(
                    m0.versions.take(j as int),
                    m0.versions[j as int],
                    plugin_name@,
                );
                assert(m0.versions.take(j as int).push(m0.versions[j as int]) =~= m0.versions.take(
                    j as int + 1,
                ));
            }
            if !(self.versions[j].plugin_name == plugin_name) {
                kept.push(self.versions[j].clone());
                proof {
                    assert(kept@.map_values(|v: VersionData| v@) =~= drop_plugin_versions(
                        m0.versions.take(j as int + 1),
                        plugin_name@,
                    ));
                }
            }
            j = j + 1;
        }
        proof {
            assert(m0.versions.take(self.versions@.len() as int) =~= m0.versions);
        }
        self.versions = kept;
        self.plugins.remove(pi);
        proof {
            assert(self.model().users =~= m0.users);
            assert(self.model().plugins =~= m0.plugins.remove(pi as int));
        }
        Ok(())
    }
}

} // verus!
