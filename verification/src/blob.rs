//! The blob store: byte payloads keyed by plugin name (icons) or by
//! (plugin name, version) (wasm module and theme texts). This in-memory
//! store is the verified implementation of the storage capability; it
//! validates icons before accepting them and tolerates removal of an
//! already-removed version.

use vstd::pervasive::VecAdditionalExecFns;
use vstd::prelude::*;

use crate::data::opt_bytes_view;
use crate::errors::{GetResourceError, PublishError};
use crate::find::{first_where, lemma_first_where_none, lemma_first_where_some};
use crate::icon::{icon_verdict, validate_icon};

verus! {

/// Model of a stored icon: the plugin's full name and the image bytes.
pub ghost struct IconModel {
    pub name: Seq<char>,
    pub bytes: Seq<u8>,
}

/// Model of the stored payloads of one plugin version.
pub ghost struct ResourceModel {
    pub plugin_name: Seq<char>,
    pub version: Seq<char>,
    pub wasm: Option<Seq<u8>>,
    pub themes: Seq<Seq<char>>,
}

/// Model of the whole blob store.
pub ghost struct BlobModel {
    pub icons: Seq<IconModel>,
    pub resources: Seq<ResourceModel>,
}

/// Matches the icon stored for `name`.
pub open spec fn icon_named(name: Seq<char>) -> spec_fn(IconModel) -> bool {
    |e: IconModel| e.name == name
}

/// Matches the payloads stored for (`plugin_name`, `version`).
pub open spec fn resource_keyed(plugin_name: Seq<char>, version: Seq<char>) -> spec_fn(
    ResourceModel,
) -> bool {
    |e: ResourceModel| e.plugin_name == plugin_name && e.version == version
}

/// The icon bytes stored for `name`, if any.
pub open spec fn find_icon(icons: Seq<IconModel>, name: Seq<char>) -> Option<Seq<u8>> {
    match first_where(icons, icon_named(name)) {
        Some(i) => Some(icons[i].bytes),
        None => None,
    }
}

/// The store after writing the icon of `name`: its entry is replaced, or
/// appended when `name` had no icon yet.
pub open spec fn set_icon(icons: Seq<IconModel>, name: Seq<char>, bytes: Seq<u8>) -> Seq<
    IconModel,
> {
    match first_where(icons, icon_named(name)) {
        Some(i) => icons.update(i, IconModel { name, bytes }),
        None => icons.push(IconModel { name, bytes }),
    }
}

/// The payloads stored for (`plugin_name`, `version`), if any.
pub open spec fn find_resource(
    resources: Seq<ResourceModel>,
    plugin_name: Seq<char>,
    version: Seq<char>,
) -> Option<ResourceModel> {
    match first_where(resources, resource_keyed(plugin_name, version)) {
        Some(i) => Some(resources[i]),
        None => None,
    }
}

/// The store after writing the payloads of (`plugin_name`, `version`).
pub open spec fn set_resource(
    resources: Seq<ResourceModel>,
    plugin_name: Seq<char>,
    version: Seq<char>,
    wasm: Option<Seq<u8>>,
    themes: Seq<Seq<char>>,
) -> Seq<ResourceModel> {
    let entry = ResourceModel { plugin_name, version, wasm, themes };
    match first_where(resources, resource_keyed(plugin_name, version)) {
        Some(i) => resources.update(i, entry),
        None => resources.push(entry),
    }
}

/// The store after removing the payloads of (`plugin_name`, `version`);
/// unchanged when nothing is stored under that key.
pub open spec fn remove_resource(
    resources: Seq<ResourceModel>,
    plugin_name: Seq<char>,
    version: Seq<char>,
) -> Seq<ResourceModel> {
    match first_where(resources, resource_keyed(plugin_name, version)) {
        Some(i) => resources.remove(i),
        None => resources,
    }
}

/// The store after removing the payloads of every listed version of
/// `plugin_name`, first listed version first.
pub open spec fn remove_all_resources(
    resources: Seq<ResourceModel>,
    plugin_name: Seq<char>,
    versions: Seq<Seq<char>>,
) -> Seq<ResourceModel>
    decreases versions.len(),
{
    if versions.len() == 0 {
        resources
    } else {
        remove_all_resources(
            remove_resource(resources, plugin_name, versions[0]),
            plugin_name,
            versions.drop_first(),
        )
    }
}

struct IconEntry {
    name: String,
    bytes: Vec<u8>,
}

impl View for IconEntry {
    type V = IconModel;

    closed spec fn view(&self) -> IconModel {
        IconModel { name: self.name@, bytes: self.bytes@ }
    }
}

struct ResourceEntry {
    plugin_name: String,
    version: String,
    wasm: Option<Vec<u8>>,
    themes: Vec<String>,
}

impl View for ResourceEntry {
    type V = ResourceModel;

    closed spec fn view(&self) -> ResourceModel {
        ResourceModel {
            plugin_name: self.plugin_name@,
            version: self.version@,
            wasm: match self.wasm {
                Some(bytes) => Some(bytes@),
                None => None,
            },
            themes: self.themes.deep_view(),
        }
    }
}

/// An in-memory blob store.
pub struct MemoryBlobStore {
    icons: Vec<IconEntry>,
    resources: Vec<ResourceEntry>,
}

impl View for MemoryBlobStore {
    type V = BlobModel;

    closed spec fn view(&self) -> BlobModel {
        BlobModel {
            icons: self.icons@.map_values(|e: IconEntry| e@),
            resources: self.resources@.map_values(|e: ResourceEntry| e@),
        }
    }
}

impl MemoryBlobStore {
    /// An empty store.
    pub fn new() -> (s: Self)
        ensures
            s@ == (BlobModel {
                icons: Seq::<IconModel>::empty(),
                resources: Seq::<ResourceModel>::empty(),
            }),
    {
        let s = MemoryBlobStore { icons: Vec::new(), resources: Vec::new() };
        proof {
            assert(s@.icons =~= Seq::<IconModel>::empty());
            assert(s@.resources =~= Seq::<ResourceModel>::empty());
        }
        s
    }

    fn find_icon_index(&self, name: &String) -> (r: Option<usize>)
        ensures
            match r {
                Some(i) => i < self@.icons.len() && first_where(self@.icons, icon_named(name@))
                    == Some(i as int),
                None => first_where(self@.icons, icon_named(name@)) == None::<int>,
            },
    {
        let mut i: usize = 0;
        while i < self.icons.len()
            invariant
                i <= self.icons@.len(),
                forall|j: int| 0 <= j < i ==> (#[trigger] self@.icons[j]).name != name@,
            decreases self.icons@.len() - i,
        {
            if self.icons[i].name == *name {
                proof {
                    lemma_first_where_some(self@.icons, icon_named(name@), i as int);
                }
                return Some(i);
            }
            i = i + 1;
        }
        proof {
            lemma_first_where_none(self@.icons, icon_named(name@));
        }
        None
    }

    fn find_resource_index(&self, plugin_name: &String, version: &String) -> (r: Option<usize>)
        ensures
            match r {
                Some(i) => i < self@.resources.len() && first_where(
                    self@.resources,
                    resource_keyed(plugin_name@, version@),
                ) == Some(i as int),
                None => first_where(self@.resources, resource_keyed(plugin_name@, version@))
                    == None::<int>,
            },
    {
        let mut i: usize = 0;
        while i < self.resources.len()
            invariant
                i <= self.resources@.len(),
                forall|j: int|
                    0 <= j < i ==> !((#[trigger] self@.resources[j]).plugin_name == plugin_name@
                        && self@.resources[j].version == version@),
            decreases self.resources@.len() - i,
        {
            if self.resources[i].plugin_name == *plugin_name && self.resources[i].version
                == *version {
                proof {
                    lemma_first_where_some(
                        self@.resources,
                        resource_keyed(plugin_name@, version@),
                        i as int,
                    );
                }
                return Some(i);
            }
            i = i + 1;
        }
        proof {
            lemma_first_where_none(self@.resources, resource_keyed(plugin_name@, version@));
        }
        None
    }

    /// The stored icon of `name`, or `NotFound`. This store does no I/O, so
    /// no other error can come back.
    pub fn get_icon(&self, name: &String) -> (r: Result<Vec<u8>, GetResourceError>)
        ensures
            match r {
                Ok(bytes) => find_icon(self@.icons, name@) == Some(bytes@),
                Err(e) => e == GetResourceError::NotFound && find_icon(self@.icons, name@)
                    == None::<Seq<u8>>,
            },
    {
        match self.find_icon_index(name) {
            Some(i) => {
                let bytes = self.icons[i].bytes.clone();
                proof {
                    assert(bytes@ =~= self@.icons[i as int].bytes);
                }
                Ok(bytes)
            },
            None => Err(GetResourceError::NotFound),
        }
    }

    /// Validates `icon` and stores it as the icon of `name`; a rejected icon
    /// is reported as `InvalidIcon` and nothing is written.
    pub fn save_icon(&mut self, name: &String, icon: &[u8]) -> (r: Result<(), PublishError>)
        ensures
            match r {
                Ok(u) => icon_verdict(icon@) == None::<crate::icon::IconValidationError>
                    && final(self)@ == (BlobModel {
                    icons: set_icon(old(self)@.icons, name@, icon@),
                    resources: old(self)@.resources,
                }),
                Err(e) => e == PublishError::InvalidIcon && icon_verdict(icon@) is Some
                    && final(self)@ == old(self)@,
            },
    {
        if validate_icon(icon).is_some() {
            return Err(PublishError::InvalidIcon);
        }
        let entry = IconEntry { name: name.clone(), bytes: slice_to_vec(icon) };
        proof {
            assert(entry@ == (IconModel { name: name@, bytes: icon@ }));
        }
        match self.find_icon_index(name) {
            Some(i) => {
                self.icons.set(i, entry);
            },
            None => {
                self.icons.push(entry);
            },
        }
        proof {
            assert(self@.icons =~= set_icon(old(self)@.icons, name@, icon@));
            assert(self@.resources =~= old(self)@.resources);
        }
        Ok(())
    }

    /// Stores the payloads of (`plugin_name`, `version`), replacing whatever
    /// was stored under that key.
    pub fn save_version_resources(
        &mut self,
        plugin_name: &String,
        version: &String,
        wasm: &Option<Vec<u8>>,
        themes: &Vec<String>,
    )
        ensures
            final(self)@ == (BlobModel {
                icons: old(self)@.icons,
                resources: set_resource(
                    old(self)@.resources,
                    plugin_name@,
                    version@,
                    opt_bytes_view(*wasm),
                    themes.deep_view(),
                ),
            }),
    {
        let wasm_copy: Option<Vec<u8>> = match wasm {
            Some(bytes) => {
                let copy = bytes.clone();
                proof {
                    assert(copy@ =~= bytes@);
                }
                Some(copy)
            },
            None => None,
        };
        let themes_copy = clone_strings(themes);
        let entry = ResourceEntry {
            plugin_name: plugin_name.clone(),
            version: version.clone(),
            wasm: wasm_copy,
            themes: themes_copy,
        };
        proof {
            assert(entry@ == (ResourceModel {
                plugin_name: plugin_name@,
                version: version@,
                wasm: opt_bytes_view(*wasm),
                themes: themes.deep_view(),
            }));
        }
        match self.find_resource_index(plugin_name, version) {
            Some(i) => {
                self.resources.set(i, entry);
            },
            None => {
                self.resources.push(entry);
            },
        }
        proof {
            assert(self@.resources =~= set_resource(
                old(self)@.resources,
                plugin_name@,
                version@,
                opt_bytes_view(*wasm),
                themes.deep_view(),
            ));
            assert(self@.icons =~= old(self)@.icons);
        }
    }

    /// The stored wasm module of (`plugin_name`, `version`): `NotFound` when
    /// nothing is stored under the key or the version ships no wasm module.
    pub fn get_version_wasm(&self, plugin_name: &String, version: &String) -> (r: Result<
        Vec<u8>,
        GetResourceError,
    >)
        ensures
            match r {
                Ok(bytes) => match find_resource(self@.resources, plugin_name@, version@) {
                    Some(res) => res.wasm == Some(bytes@),
                    None => false,
                },
                Err(e) => e == GetResourceError::NotFound && match find_resource(
                    self@.resources,
                    plugin_name@,
                    version@,
                ) {
                    Some(res) => res.wasm is None,
                    None => true,
                },
            },
    {
        match self.find_resource_index(plugin_name, version) {
            Some(i) => match &self.resources[i].wasm {
                Some(bytes) => {
                    let copy = bytes.clone();
                    proof {
                        assert(copy@ =~= bytes@);
                    }
                    Ok(copy)
                },
                None => Err(GetResourceError::NotFound),
            },
            None => Err(GetResourceError::NotFound),
        }
    }

    /// The stored theme texts of (`plugin_name`, `version`), in list order:
    /// `NotFound` when nothing is stored under the key.
    pub fn get_version_themes(&self, plugin_name: &String, version: &String) -> (r: Result<
        Vec<String>,
        GetResourceError,
    >)
        ensures
            match r {
                Ok(themes) => match find_resource(self@.resources, plugin_name@, version@) {
                    Some(res) => res.themes == themes.deep_view(),
                    None => false,
                },
                Err(e) => e == GetResourceError::NotFound && find_resource(
                    self@.resources,
                    plugin_name@,
                    version@,
                ) is None,
            },
    {
        match self.find_resource_index(plugin_name, version) {
            Some(i) => Ok(clone_strings(&self.resources[i].themes)),
            None => Err(GetResourceError::NotFound),
        }
    }

    /// Removes the payloads of (`plugin_name`, `version`). Tolerates partial
    /// absence: removing a version that has nothing stored does nothing, and
    /// this in-memory store cannot fail.
    pub fn remove_version(&mut self, plugin_name: &String, version: &String)
        ensures
            final(self)@ == (BlobModel {
                icons: old(self)@.icons,
                resources: remove_resource(old(self)@.resources, plugin_name@, version@),
            }),
    {
        match self.find_resource_index(plugin_name, version) {
            Some(i) => {
                self.resources.remove(i);
            },
            None => {},
        }
        proof {
            assert(self@.resources =~= remove_resource(
                old(self)@.resources,
                plugin_name@,
                version@,
            ));
            assert(self@.icons =~= old(self)@.icons);
        }
    }
}

/// Copies a slice of bytes into a vector.
fn slice_to_vec(bytes: &[u8]) -> (r: Vec<u8>)
    ensures
        r@ == bytes@,
{
    let mut out: Vec<u8> = Vec::new();
    let mut i: usize = 0;
    while i < bytes.len()
        invariant
            i <= bytes@.len(),
            out@ == bytes@.take(i as int),
        decreases bytes@.len() - i,
    {
        out.push(bytes[i]);
        i = i + 1;
        proof {
            assert(out@ =~= bytes@.take(i as int));
        }
    }
    proof {
        assert(out@ =~= bytes@);
    }
    out
}

/// Copies a list of strings, keeping contents and order.
fn clone_strings(strings: &Vec<String>) -> (r: Vec<String>)
    ensures
        r.deep_view() == strings.deep_view(),
{
    let mut out: Vec<String> = Vec::new();
    let mut i: usize = 0;
    while i < strings.len()
        invariant
            i <= strings@.len(),
            out@.len() == i,
            forall|j: int| 0 <= j < i ==> (#[trigger] out@[j])@ == strings@[j]@,
        decreases strings@.len() - i,
    {
        out.push(strings[i].clone());
        i = i + 1;
    }
    proof {
        assert(out.deep_view() =~= strings.deep_view());
    }
    out
}

} // verus!
