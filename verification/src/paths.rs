//! The on-disk layout of the blob store: a root directory holding
//! `icons/<plugin full name>` files and `versions/<name>-<version>/`
//! directories, each with a `plugin.wasm` file and a `themes/` directory of
//! sequentially numbered theme files. The application shell does the reads
//! and writes; where each blob goes is decided — and verified — here.

use vstd::prelude::*;
use vstd::string::StringExecFns;

use crate::wasm_store::{decimal_digits, u32_to_string};

verus! {

/// The directory of a version's payloads:
/// `<base>/versions/<name>-<version>`.
pub open spec fn version_path_spec(base: Seq<char>, name: Seq<char>, version: Seq<char>) -> Seq<
    char,
> {
    base + "/versions/"@ + name + seq!['-'] + version
}

/// The themes directory of a version.
pub open spec fn themes_path_spec(base: Seq<char>, name: Seq<char>, version: Seq<char>) -> Seq<
    char,
> {
    version_path_spec(base, name, version) + "/themes"@
}

/// The wasm module file of a version.
pub open spec fn wasm_file_path_spec(base: Seq<char>, name: Seq<char>, version: Seq<char>) -> Seq<
    char,
> {
    version_path_spec(base, name, version) + "/plugin.wasm"@
}

/// The file of the `index`-th theme of a version.
pub open spec fn theme_file_path_spec(
    base: Seq<char>,
    name: Seq<char>,
    version: Seq<char>,
    index: nat,
) -> Seq<char> {
    themes_path_spec(base, name, version) + seq!['/'] + decimal_digits(index) + ".toml"@
}

/// The icons directory: `<base>/icons`.
pub open spec fn icons_path_spec(base: Seq<char>) -> Seq<char> {
    base + "/icons"@
}

/// The icon file of a plugin: `<base>/icons/<name>`.
pub open spec fn icon_path_spec(base: Seq<char>, name: Seq<char>) -> Seq<char> {
    icons_path_spec(base) + seq!['/'] + name
}

/// The root directory and path derivations of the on-disk blob store.
pub struct FileSystemLayout {
    base_path: String,
}

impl FileSystemLayout {
    /// The root directory.
    pub closed spec fn base(&self) -> Seq<char> {
        self.base_path@
    }

    /// A layout rooted at `base_path`.
    pub fn new(base_path: String) -> (s: Self)
        ensures
            s.base() == base_path@,
    {
        Self { base_path }
    }

    /// The root directory, as a path.
    pub fn base_path(&self) -> (r: String)
        ensures
            r@ == self.base(),
    {
        self.base_path.clone()
    }

    /// The directory holding the payloads of (`name`, `version`).
    pub fn version_path(&self, name: &String, version: &String) -> (r: String)
        ensures
            r@ == version_path_spec(self.base(), name@, version@),
    {
        let mut path = self.base_path.clone();
        path.append("/versions/");
        path.append(name.as_str());
        path.append("-");
        path.append(version.as_str());
        proof {
            reveal_strlit("-");
            assert(path@ =~= version_path_spec(self.base(), name@, version@));
        }
        path
    }

    /// The themes directory of (`name`, `version`).
    pub fn version_themes_path(&self, name: &String, version: &String) -> (r: String)
        ensures
            r@ == themes_path_spec(self.base(), name@, version@),
    {
        let mut path = self.version_path(name, version);
        path.append("/themes");
        path
    }

    /// The wasm module file of (`name`, `version`).
    pub fn version_plugin_wasm_path(&self, name: &String, version: &String) -> (r: String)
        ensures
            r@ == wasm_file_path_spec(self.base(), name@, version@),
    {
        let mut path = self.version_path(name, version);
        path.append("/plugin.wasm");
        path
    }

    /// The file of the `index`-th theme of (`name`, `version`).
    pub fn theme_file_path(&self, name: &String, version: &String, index: u32) -> (r: String)
        ensures
            r@ == theme_file_path_spec(self.base(), name@, version@, index as nat),
    {
        let mut path = self.version_themes_path(name, version);
        path.append("/");
        let digits = u32_to_string(index);
        path.append(digits.as_str());
        path.append(".toml");
        proof {
            reveal_strlit("/");
            assert(path@ =~= theme_file_path_spec(self.base(), name@, version@, index as nat));
        }
        path
    }

    /// The icons directory.
    pub fn icons_path(&self) -> (r: String)
        ensures
            r@ == icons_path_spec(self.base()),
    {
        let mut path = self.base_path.clone();
        path.append("/icons");
        path
    }

    /// The icon file of the plugin `name`.
    pub fn icon_path(&self, name: &String) -> (r: String)
        ensures
            r@ == icon_path_spec(self.base(), name@),
    {
        let mut path = self.icons_path();
        path.append("/");
        path.append(name.as_str());
        proof {
            reveal_strlit("/");
            assert(path@ =~= icon_path_spec(self.base(), name@));
        }
        path
    }
}

} // verus!
