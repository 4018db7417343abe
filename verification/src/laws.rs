//! The laws of the registry: properties that hold across calls and states,
//! proved from the outcome functions that the `Repository` contracts are
//! stated with.

use vstd::prelude::*;

use crate::data::{NewPluginVersionModel, NewVoltInfoModel, PluginModel, VersionModel};
use crate::errors::{
    CreateVersionError, GetResourceError, PublishError, UnpublishPluginError, YankVersionError,
};
use crate::find::{
    first_where, lemma_first_where_holds, lemma_first_where_none, lemma_first_where_some,
    lemma_first_where_update_same,
};
use crate::registry::{
    create_version_outcome, drop_plugin_versions, find_plugin, find_user, full_name, plugin_lookup,
    plugin_named, plugin_version_strings, publish_outcome, themes_lookup, unpublish_outcome,
    version_keyed, version_lookup, wasm_lookup, yank_outcome, RegistryModel,
};
use crate::versions::{
    lemma_equal_version_conflicts, lemma_lower_version_conflicts, lemma_no_conflict_all_lower,
    sem_cmp, sem_valid,
};

verus! {

/// Every recorded version string parses as a semantic version.
pub open spec fn versions_valid(rows: Seq<VersionModel>) -> bool {
    forall|i: int| 0 <= i < rows.len() ==> sem_valid((#[trigger] rows[i]).version)
}

/// Within each plugin the recorded versions, yanked ones included, are
/// strictly increasing in storage order: every version is greater than
/// everything recorded before it.
pub open spec fn versions_ordered(rows: Seq<VersionModel>) -> bool {
    forall|i: int, j: int|
        0 <= i < j < rows.len() && (#[trigger] rows[i]).plugin_name == (
        #[trigger] rows[j]).plugin_name ==> sem_cmp(rows[i].version, rows[j].version) < 0
}

/// Plugin full names are unique across the live plugin rows.
pub open spec fn plugins_unique(plugins: Seq<PluginModel>) -> bool {
    forall|i: int, j: int|
        0 <= i < j < plugins.len() ==> (#[trigger] plugins[i]).name != (
        #[trigger] plugins[j]).name
}

/// The version string of every row of a plugin appears among the plugin's
/// recorded version strings.
proof fn lemma_version_strings_from_rows(rows: Seq<VersionModel>, plugin: Seq<char>, k: int)
    requires
        0 <= k < rows.len(),
        rows[k].plugin_name == plugin,
    ensures
        exists|t: int|
            0 <= t < plugin_version_strings(rows, plugin).len() && plugin_version_strings(
                rows,
                plugin,
            )[t] == rows[k].version,
    decreases rows.len(),
{
    let vs = plugin_version_strings(rows, plugin);
    if k == 0 {
        assert(vs[0] == rows[0].version);
    } else {
        let rest = rows.drop_first();
        assert(rest[k - 1] == rows[k]);
        lemma_version_strings_from_rows(rest, plugin, k - 1);
        let rvs = plugin_version_strings(rest, plugin);
        let t = choose|t: int| 0 <= t < rvs.len() && rvs[t] == rest[k - 1].version;
        if rows[0].plugin_name == plugin {
            assert(vs == seq![rows[0].version] + rvs);
            assert(vs[t + 1] == rvs[t]);
        } else {
            assert(vs == rvs);
        }
    }
}

/// When every recorded version string is valid, so is every entry of a
/// plugin's version-string list.
pub proof fn lemma_version_strings_valid(rows: Seq<VersionModel>, plugin: Seq<char>)
    requires
        versions_valid(rows),
    ensures
        forall|t: int|
            0 <= t < plugin_version_strings(rows, plugin).len() ==> sem_valid(
                #[trigger] plugin_version_strings(rows, plugin)[t],
            ),
    decreases rows.len(),
{
    if rows.len() > 0 {
        let rest = rows.drop_first();
        assert(forall|k: int| 0 <= k < rest.len() ==> #[trigger] rest[k] == rows[k + 1]);
        lemma_version_strings_valid(rest, plugin);
        let vs = plugin_version_strings(rows, plugin);
        let rvs = plugin_version_strings(rest, plugin);
        if rows[0].plugin_name == plugin {
            assert(vs == seq![rows[0].version] + rvs);
            assert forall|t: int| 0 <= t < vs.len() implies sem_valid(#[trigger] vs[t]) by {
                if t == 0 {
                    assert(vs[0] == rows[0].version);
                } else {
                    assert(vs[t] == rvs[t - 1]);
                }
            }
        }
    }
}

/// Creating a version that ties in precedence with a recorded version of
/// the plugin — yanked or not — fails with `AlreadyExists` and changes
/// nothing, whenever every version recorded before the tied one is strictly
/// lower than the candidate (as versions recorded in publication order
/// are).
pub proof fn lemma_equal_version_rejected(
    m: RegistryModel,
    name: Seq<char>,
    nv: NewPluginVersionModel,
    i: int,
)
    requires
        sem_valid(nv.version),
        find_plugin(m.plugins, name) is Some,
        ({
            let vs = plugin_version_strings(m.versions, name);
            &&& 0 <= i < vs.len()
            &&& forall|j: int| 0 <= j < vs.len() ==> sem_valid(#[trigger] vs[j])
            &&& sem_cmp(vs[i], nv.version) == 0
            &&& forall|j: int| 0 <= j < i ==> sem_cmp(#[trigger] vs[j], nv.version) < 0
        }),
    ensures
        create_version_outcome(m, name, nv) == (Err::<(), CreateVersionError>(
            CreateVersionError::AlreadyExists,
        ), m),
{
    lemma_equal_version_conflicts(plugin_version_strings(m.versions, name), nv.version, i);
}

/// Creating a version that ties with no recorded version of the plugin but
/// is exceeded by some recorded one — yanked or not — fails with
/// `LessThanLatestVersion` and changes nothing.
pub proof fn lemma_lower_version_rejected(
    m: RegistryModel,
    name: Seq<char>,
    nv: NewPluginVersionModel,
)
    requires
        sem_valid(nv.version),
        find_plugin(m.plugins, name) is Some,
        ({
            let vs = plugin_version_strings(m.versions, name);
            &&& forall|j: int| 0 <= j < vs.len() ==> sem_valid(#[trigger] vs[j])
            &&& exists|j: int| 0 <= j < vs.len() && sem_cmp(#[trigger] vs[j], nv.version) > 0
            &&& forall|j: int| 0 <= j < vs.len() ==> sem_cmp(#[trigger] vs[j], nv.version) != 0
        }),
    ensures
        create_version_outcome(m, name, nv) == (Err::<(), CreateVersionError>(
            CreateVersionError::LessThanLatestVersion,
        ), m),
{
    lemma_lower_version_conflicts(plugin_version_strings(m.versions, name), nv.version);
}

/// An accepted version keeps the registry's version order: it is strictly
/// greater than everything ever recorded for its plugin, so the rows stay
/// strictly increasing per plugin, and every recorded string stays a valid
/// semantic version.
pub proof fn lemma_create_version_keeps_order(
    m: RegistryModel,
    name: Seq<char>,
    nv: NewPluginVersionModel,
)
    requires
        versions_valid(m.versions),
        versions_ordered(m.versions),
        create_version_outcome(m, name, nv).0 is Ok,
    ensures
        versions_valid(create_version_outcome(m, name, nv).1.versions),
        versions_ordered(create_version_outcome(m, name, nv).1.versions),
{
    let vs = plugin_version_strings(m.versions, name);
    lemma_no_conflict_all_lower(vs, nv.version);
    let rows2 = create_version_outcome(m, name, nv).1.versions;
    let n = m.versions.len() as int;
    assert(rows2 == m.versions.push(
        VersionModel {
            plugin_name: name,
            version: nv.version,
            yanked: false,
            digest: crate::digest::version_digest(nv.version, name, nv.themes, nv.wasm_file),
            preview: nv.preview,
        },
    ));
    assert forall|i: int, j: int|
        0 <= i < j < rows2.len() && (#[trigger] rows2[i]).plugin_name == (
        #[trigger] rows2[j]).plugin_name implies sem_cmp(rows2[i].version, rows2[j].version)
        < 0 by {
        if j < n {
            assert(rows2[i] == m.versions[i] && rows2[j] == m.versions[j]);
        } else {
            assert(rows2[i] == m.versions[i]);
            assert(rows2[j].version == nv.version);
            lemma_version_strings_from_rows(m.versions, name, i);
            let t = choose|t: int| 0 <= t < vs.len() && vs[t] == m.versions[i].version;
            assert(sem_cmp(vs[t], nv.version) < 0);
        }
    }
    assert(versions_valid(rows2)) by {
        assert(forall|i: int| 0 <= i < n ==> rows2[i] == m.versions[i]);
    }
}

/// Publishing a plugin whose computed full name is already registered fails
/// with `AlreadyExists` and changes nothing: in particular, no icon from
/// the rejected attempt is ever persisted.
pub proof fn lemma_republish_rejected(m: RegistryModel, info: NewVoltInfoModel)
    requires
        find_user(m.users, info.publisher_id) is Some,
        find_plugin(
            m.plugins,
            full_name(find_user(m.users, info.publisher_id).unwrap().username, info.name),
        ) is Some,
    ensures
        publish_outcome(m, info) == (Err::<PluginModel, PublishError>(PublishError::AlreadyExists), m),
{
}

/// A successful publish registers the returned row under its full name.
pub proof fn lemma_publish_registers(m: RegistryModel, info: NewVoltInfoModel)
    requires
        publish_outcome(m, info).0 is Ok,
    ensures
        ({
            let (res, m2) = publish_outcome(m, info);
            find_plugin(m2.plugins, res.unwrap().name) == Some(res.unwrap())
        }),
{
    let (res, m2) = publish_outcome(m, info);
    let row = res.unwrap();
    lemma_first_where_holds(m.plugins, plugin_named(row.name));
    assert(m2.plugins == m.plugins.push(row));
    assert(forall|j: int|
        0 <= j < m.plugins.len() ==> !plugin_named(row.name)(#[trigger] m2.plugins[j]));
    lemma_first_where_some(m2.plugins, plugin_named(row.name), m.plugins.len() as int);
}

/// Publishing twice with the same short name and publisher — hence the same
/// computed full name — fails the second time with `AlreadyExists`, and the
/// second attempt persists nothing, its icon included.
pub proof fn lemma_publish_twice(m: RegistryModel, info1: NewVoltInfoModel, info2: NewVoltInfoModel)
    requires
        publish_outcome(m, info1).0 is Ok,
        info2.publisher_id == info1.publisher_id,
        info2.name == info1.name,
    ensures
        publish_outcome(publish_outcome(m, info1).1, info2) == (Err::<PluginModel, PublishError>(
            PublishError::AlreadyExists,
        ), publish_outcome(m, info1).1),
{
    let (res, m2) = publish_outcome(m, info1);
    lemma_publish_registers(m, info1);
    assert(m2.users == m.users);
    lemma_republish_rejected(m2, info2);
}

/// Publishing keeps live full names unique.
pub proof fn lemma_publish_keeps_uniqueness(m: RegistryModel, info: NewVoltInfoModel)
    requires
        plugins_unique(m.plugins),
    ensures
        plugins_unique(publish_outcome(m, info).1.plugins),
{
    let (res, m2) = publish_outcome(m, info);
    if res is Ok {
        let row = res.unwrap();
        lemma_first_where_holds(m.plugins, plugin_named(row.name));
        assert(m2.plugins == m.plugins.push(row));
        assert forall|i: int, j: int| 0 <= i < j < m2.plugins.len() implies (
        #[trigger] m2.plugins[i]).name != (#[trigger] m2.plugins[j]).name by {
            if j < m.plugins.len() {
                assert(m2.plugins[i] == m.plugins[i] && m2.plugins[j] == m.plugins[j]);
            } else {
                assert(m2.plugins[i] == m.plugins[i]);
                assert(!plugin_named(row.name)(m.plugins[i]));
            }
        }
    }
}

/// Yanking the same version twice: the first call succeeds, the second
/// fails with `NonExistentOrAlreadyYanked` and changes nothing.
pub proof fn lemma_yank_twice(m: RegistryModel, name: Seq<char>, version: Seq<char>)
    requires
        yank_outcome(m, name, version).0 is Ok,
    ensures
        yank_outcome(yank_outcome(m, name, version).1, name, version) == (Err::<
            (),
            YankVersionError,
        >(YankVersionError::NonExistentOrAlreadyYanked), yank_outcome(m, name, version).1),
{
    let m2 = yank_outcome(m, name, version).1;
    let p = version_keyed(name, version);
    lemma_first_where_holds(m.versions, p);
    let i = first_where(m.versions, p).unwrap();
    let row = m.versions[i];
    let x = VersionModel {
        plugin_name: row.plugin_name,
        version: row.version,
        yanked: true,
        digest: row.digest,
        preview: row.preview,
    };
    assert(m2.versions == m.versions.update(i, x));
    assert(p(x) == p(row));
    lemma_first_where_update_same(m.versions, p, i, x);
    assert(m2.versions[i].yanked);
}

/// After a yank, every accessor of that version answers `NotFound`, while
/// the version's row, the plugin row, the stored blobs — icon and payloads
/// — all stay.
pub proof fn lemma_yank_hides_version(m: RegistryModel, name: Seq<char>, version: Seq<char>)
    requires
        yank_outcome(m, name, version).0 is Ok,
    ensures
        ({
            let m2 = yank_outcome(m, name, version).1;
            &&& version_lookup(m2, name, version) == Err::<VersionModel, GetResourceError>(
                GetResourceError::NotFound,
            )
            &&& wasm_lookup(m2, name, version) == Err::<Seq<u8>, GetResourceError>(
                GetResourceError::NotFound,
            )
            &&& themes_lookup(m2, name, version) == Err::<Seq<Seq<char>>, GetResourceError>(
                GetResourceError::NotFound,
            )
            &&& m2.plugins == m.plugins
            &&& m2.blobs == m.blobs
        }),
{
    let m2 = yank_outcome(m, name, version).1;
    let p = version_keyed(name, version);
    lemma_first_where_holds(m.versions, p);
    let i = first_where(m.versions, p).unwrap();
    let row = m.versions[i];
    let x = VersionModel {
        plugin_name: row.plugin_name,
        version: row.version,
        yanked: true,
        digest: row.digest,
        preview: row.preview,
    };
    assert(m2.versions == m.versions.update(i, x));
    assert(p(x) == p(row));
    lemma_first_where_update_same(m.versions, p, i, x);
    assert(m2.versions[i].yanked);
}

/// A yank touches nothing else: the lookup of every other version — of the
/// same plugin or any other — answers exactly as before, and every plugin
/// row stays retrievable.
pub proof fn lemma_yank_keeps_others(
    m: RegistryModel,
    name: Seq<char>,
    version: Seq<char>,
    other_name: Seq<char>,
    other_version: Seq<char>,
)
    requires
        yank_outcome(m, name, version).0 is Ok,
        !(other_name == name && other_version == version),
    ensures
        ({
            let m2 = yank_outcome(m, name, version).1;
            &&& version_lookup(m2, other_name, other_version) == version_lookup(
                m,
                other_name,
                other_version,
            )
            &&& wasm_lookup(m2, other_name, other_version) == wasm_lookup(
                m,
                other_name,
                other_version,
            )
            &&& themes_lookup(m2, other_name, other_version) == themes_lookup(
                m,
                other_name,
                other_version,
            )
            &&& forall|n: Seq<char>| plugin_lookup(m2, n) == plugin_lookup(m, n)
        }),
{
    let m2 = yank_outcome(m, name, version).1;
    let p = version_keyed(name, version);
    lemma_first_where_holds(m.versions, p);
    let i = first_where(m.versions, p).unwrap();
    let row = m.versions[i];
    let x = VersionModel {
        plugin_name: row.plugin_name,
        version: row.version,
        yanked: true,
        digest: row.digest,
        preview: row.preview,
    };
    assert(m2.versions == m.versions.update(i, x));
    let q = version_keyed(other_name, other_version);
    assert(!q(row) && !q(x));
    lemma_first_where_update_same(m.versions, q, i, x);
    lemma_first_where_holds(m.versions, q);
    match first_where(m.versions, q) {
        Some(t) => {
            assert(q(m.versions[t]));
            assert(t != i);
            assert(m2.versions[t] == m.versions[t]);
        },
        None => {},
    }
}

/// Yanking keeps every recorded version string valid and the per-plugin
/// order intact: only a flag flips.
pub proof fn lemma_yank_keeps_order(m: RegistryModel, name: Seq<char>, version: Seq<char>)
    requires
        versions_valid(m.versions),
        versions_ordered(m.versions),
    ensures
        versions_valid(yank_outcome(m, name, version).1.versions),
        versions_ordered(yank_outcome(m, name, version).1.versions),
{
    let rows2 = yank_outcome(m, name, version).1.versions;
    lemma_first_where_holds(m.versions, version_keyed(name, version));
    if yank_outcome(m, name, version).0 is Ok {
        let i = first_where(m.versions, version_keyed(name, version)).unwrap();
        assert(forall|k: int|
            0 <= k < rows2.len() ==> (#[trigger] rows2[k]).plugin_name
                == m.versions[k].plugin_name && rows2[k].version == m.versions[k].version);
    }
}

/// After `unpublish_plugin`, the plugin can no longer be found — so
/// `get_plugin` answers `NotFound` — and unpublishing it again fails with
/// `NonExistent`, changing nothing. Holds whenever live full names are
/// unique, which `publish` maintains.
pub proof fn lemma_unpublish_twice(m: RegistryModel, name: Seq<char>)
    requires
        plugins_unique(m.plugins),
        unpublish_outcome(m, name).0 is Ok,
    ensures
        ({
            let m2 = unpublish_outcome(m, name).1;
            &&& plugin_lookup(m2, name) == Err::<PluginModel, GetResourceError>(
                GetResourceError::NotFound,
            )
            &&& unpublish_outcome(m2, name) == (Err::<(), UnpublishPluginError>(
                UnpublishPluginError::NonExistent,
            ), m2)
        }),
{
    let m2 = unpublish_outcome(m, name).1;
    let p = plugin_named(name);
    lemma_first_where_holds(m.plugins, p);
    let i = first_where(m.plugins, p).unwrap();
    let removed = m.plugins.remove(i);
    assert(m2.plugins == removed);
    assert forall|t: int| 0 <= t < removed.len() implies !p(#[trigger] removed[t]) by {
        if t < i {
            assert(removed[t] == m.plugins[t]);
        } else {
            assert(removed[t] == m.plugins[t + 1]);
            assert(m.plugins[i].name == name);
        }
    }
    lemma_first_where_none(removed, p);
}

/// Unpublishing keeps live full names unique.
pub proof fn lemma_unpublish_keeps_uniqueness(m: RegistryModel, name: Seq<char>)
    requires
        plugins_unique(m.plugins),
    ensures
        plugins_unique(unpublish_outcome(m, name).1.plugins),
{
    let (res, m2) = unpublish_outcome(m, name);
    if res is Ok {
        let i = first_where(m.plugins, plugin_named(name)).unwrap();
        lemma_first_where_holds(m.plugins, plugin_named(name));
        let removed = m.plugins.remove(i);
        assert forall|s: int, t: int| 0 <= s < t < removed.len() implies (
        #[trigger] removed[s]).name != (#[trigger] removed[t]).name by {
            let s0 = if s < i {
                s
            } else {
                s + 1
            };
            let t0 = if t < i {
                t
            } else {
                t + 1
            };
            assert(removed[s] == m.plugins[s0] && removed[t] == m.plugins[t0]);
        }
    }
}

/// No row of the deleted plugin survives an unpublish.
proof fn lemma_drop_versions_no_plugin(rows: Seq<VersionModel>, plugin: Seq<char>)
    ensures
        forall|t: int|
            0 <= t < drop_plugin_versions(rows, plugin).len() ==> (#[trigger] drop_plugin_versions(
                rows,
                plugin,
            )[t]).plugin_name != plugin,
    decreases rows.len(),
{
    if rows.len() > 0 {
        let rest = rows.drop_first();
        lemma_drop_versions_no_plugin(rest, plugin);
        let kept = drop_plugin_versions(rows, plugin);
        let kept_rest = drop_plugin_versions(rest, plugin);
        if rows[0].plugin_name != plugin {
            assert(kept == seq![rows[0]] + kept_rest);
            assert forall|t: int| 0 <= t < kept.len() implies (
            #[trigger] kept[t]).plugin_name != plugin by {
                if t > 0 {
                    assert(kept[t] == kept_rest[t - 1]);
                }
            }
        }
    }
}

/// After an unpublish, every version of the plugin is gone for good: each
/// version-level accessor answers `NotFound`, for every version string.
pub proof fn lemma_unpublish_hides_versions(m: RegistryModel, name: Seq<char>, version: Seq<char>)
    requires
        unpublish_outcome(m, name).0 is Ok,
    ensures
        ({
            let m2 = unpublish_outcome(m, name).1;
            &&& version_lookup(m2, name, version) == Err::<VersionModel, GetResourceError>(
                GetResourceError::NotFound,
            )
            &&& wasm_lookup(m2, name, version) == Err::<Seq<u8>, GetResourceError>(
                GetResourceError::NotFound,
            )
            &&& themes_lookup(m2, name, version) == Err::<Seq<Seq<char>>, GetResourceError>(
                GetResourceError::NotFound,
            )
        }),
{
    let m2 = unpublish_outcome(m, name).1;
    lemma_drop_versions_no_plugin(m.versions, name);
    let p = version_keyed(name, version);
    assert(forall|t: int| 0 <= t < m2.versions.len() ==> !p(#[trigger] m2.versions[t]));
    lemma_first_where_none(m2.versions, p);
}

/// Every row that survives an unpublish is one of the original rows.
proof fn lemma_drop_versions_elements(rows: Seq<VersionModel>, plugin: Seq<char>)
    ensures
        ({
            let kept = drop_plugin_versions(rows, plugin);
            forall|t: int|
                0 <= t < kept.len() ==> exists|k: int|
                    0 <= k < rows.len() && rows[k] == #[trigger] kept[t]
        }),
    decreases rows.len(),
{
    if rows.len() > 0 {
        let rest = rows.drop_first();
        lemma_drop_versions_elements(rest, plugin);
        let kept = drop_plugin_versions(rows, plugin);
        let kept_rest = drop_plugin_versions(rest, plugin);
        assert forall|t: int| 0 <= t < kept.len() implies exists|k: int|
            0 <= k < rows.len() && rows[k] == #[trigger] kept[t] by {
            if rows[0].plugin_name == plugin {
                assert(kept[t] == kept_rest[t]);
                let k = choose|k: int| 0 <= k < rest.len() && rest[k] == kept_rest[t];
                assert(rows[k + 1] == kept[t]);
            } else {
                if t == 0 {
                    assert(kept[0] == rows[0]);
                } else {
                    assert(kept[t] == kept_rest[t - 1]);
                    let k = choose|k: int| 0 <= k < rest.len() && rest[k] == kept_rest[t - 1];
                    assert(rows[k + 1] == kept[t]);
                }
            }
        }
    }
}

/// Unpublishing keeps the surviving rows valid and ordered: deleting one
/// plugin's rows cannot disturb another plugin's version order.
pub proof fn lemma_unpublish_keeps_order(m: RegistryModel, name: Seq<char>)
    requires
        versions_valid(m.versions),
        versions_ordered(m.versions),
    ensures
        versions_valid(unpublish_outcome(m, name).1.versions),
        versions_ordered(unpublish_outcome(m, name).1.versions),
{
    let (res, m2) = unpublish_outcome(m, name);
    if res is Ok {
        lemma_drop_versions_ordered(m.versions, name);
    }
}

proof fn lemma_drop_versions_ordered(rows: Seq<VersionModel>, plugin: Seq<char>)
    requires
        versions_valid(rows),
        versions_ordered(rows),
    ensures
        versions_valid(drop_plugin_versions(rows, plugin)),
        versions_ordered(drop_plugin_versions(rows, plugin)),
    decreases rows.len(),
{
    lemma_drop_versions_elements(rows, plugin);
    if rows.len() > 0 {
        let rest = rows.drop_first();
        assert(forall|k: int| 0 <= k < rest.len() ==> #[trigger] rest[k] == rows[k + 1]);
        lemma_drop_versions_ordered(rest, plugin);
        let kept = drop_plugin_versions(rows, plugin);
        let kept_rest = drop_plugin_versions(rest, plugin);
        lemma_drop_versions_elements(rest, plugin);
        if rows[0].plugin_name == plugin {
            assert(kept == kept_rest);
        } else {
            assert(kept == seq![rows[0]] + kept_rest);
            assert(kept[0] == rows[0]);
            assert(forall|t: int| 1 <= t < kept.len() ==> #[trigger] kept[t] == kept_rest[t - 1]);
            assert forall|i: int, j: int|
                0 <= i < j < kept.len() && (#[trigger] kept[i]).plugin_name == (
                #[trigger] kept[j]).plugin_name implies sem_cmp(kept[i].version, kept[j].version)
                < 0 by {
                if i == 0 {
                    let k = choose|k: int| 0 <= k < rest.len() && rest[k] == kept_rest[j - 1];
                    assert(rows[k + 1] == kept[j]);
                    assert(rows[0].plugin_name == rows[k + 1].plugin_name);
                } else {
                    assert(kept[i] == kept_rest[i - 1] && kept[j] == kept_rest[j - 1]);
                    assert(versions_ordered(kept_rest));
                }
            }
            assert forall|t: int| 0 <= t < kept.len() implies sem_valid(
                (#[trigger] kept[t]).version,
            ) by {
                if t > 0 {
                    assert(versions_valid(kept_rest));
                    assert(kept[t] == kept_rest[t - 1]);
                }
            }
        }
    }
}

} // verus!
