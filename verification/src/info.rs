//! The public description of a plugin assembled for the marketplace: the
//! manifest a plugin repository ships (`Volt`), the registered repository
//! rows, and the assembled `PluginInfo`. Fetching the manifest, the readme
//! and the release tags is I/O and stays with the application shell; the
//! assembly is verified here.

use vstd::prelude::*;
use vstd::string::StringExecFns;

use crate::data::User;

verus! {

/// A plugin registered as a github repository.
#[derive(Debug)]
pub struct PluginRepo {
    pub id: u32,
    pub user_id: u64,
    pub owner: String,
    pub repo: String,
}

/// A repository registration to insert.
#[derive(Debug)]
pub struct NewPluginRepo {
    pub user_id: i64,
    pub owner: String,
    pub repo: String,
}

/// The manifest a plugin ships in its repository.
#[derive(Debug)]
pub struct Volt {
    pub name: String,
    pub version: String,
    pub author: String,
    pub display_name: String,
    pub description: String,
    pub wasm: Option<String>,
    pub themes: Option<Vec<String>>,
}

/// What the marketplace shows about a plugin.
#[derive(Debug)]
pub struct PluginInfo {
    pub name: String,
    pub display_name: String,
    pub repository: String,
    pub author: String,
    pub publisher_id: u64,
    pub publisher_name: String,
    pub wasm_file_name: Option<String>,
    pub description: String,
    pub themes: Option<Vec<String>>,
    pub versions: Vec<String>,
    pub readme: Option<String>,
}

/// The clone URL of a github repository:
/// `https://github.com/<owner>/<repo>.git/`.
pub open spec fn repository_url(owner: Seq<char>, repo: Seq<char>) -> Seq<char> {
    "https://github.com/"@ + owner + seq!['/'] + repo + ".git/"@
}

/// Builds the clone URL of a github repository.
pub fn make_repository_url(owner: &String, repo: &String) -> (r: String)
    ensures
        r@ == repository_url(owner@, repo@),
{
    let mut url = String::from_str("https://github.com/");
    url.append(owner.as_str());
    url.append("/");
    url.append(repo.as_str());
    url.append(".git/");
    proof {
        reveal_strlit("https://github.com/");
        reveal_strlit("/");
        reveal_strlit(".git/");
        assert(url@ =~= repository_url(owner@, repo@));
    }
    url
}

/// Assembles the marketplace description of a plugin from its manifest, its
/// publisher, its repository coordinates, its release tags and its readme.
/// Pure assembly: every field of the result is pinned to an input.
pub fn assemble_plugin_info(
    user: &User,
    owner: &String,
    repo: &String,
    volt: Volt,
    versions: Vec<String>,
    readme: Option<String>,
) -> (r: PluginInfo)
    requires
        user.id >= 0,
    ensures
        r.name@ == volt.name@,
        r.display_name@ == volt.display_name@,
        r.repository@ == repository_url(owner@, repo@),
        r.author@ == volt.author@,
        r.publisher_id == user.id as u64,
        r.publisher_name@ == user.name@,
        r.wasm_file_name == volt.wasm,
        r.description@ == volt.description@,
        r.themes == volt.themes,
        r.versions == versions,
        r.readme == readme,
{
    PluginInfo {
        name: volt.name,
        display_name: volt.display_name,
        repository: make_repository_url(owner, repo),
        author: volt.author,
        publisher_id: user.id as u64,
        publisher_name: user.name.clone(),
        wasm_file_name: volt.wasm,
        description: volt.description,
        themes: volt.themes,
        versions,
        readme,
    }
}

} // verus!
