//! Storage of compiled plugin modules keyed by a numeric plugin id: the
//! capability interface, and the path computation of its filesystem-backed
//! implementation. The file I/O itself is left to the application shell;
//! what is verified here is where each module goes.

use vstd::prelude::*;
use vstd::string::StringExecFns;

verus! {

/// Declares `std::io::Error` — the error type of the storage capability —
/// as an opaque type, so that signatures may carry it through.
#[verifier::external_type_specification]
#[verifier::external_body]
pub struct ExIoError(std::io::Error);

/// Storage capability for compiled plugin modules, keyed by plugin id. Its
/// implementations do file I/O, so they live with the application shell;
/// this trait fixes only the interface.
pub trait PluginWasmStore {
    /// Stores the module of plugin `id`.
    fn store(&self, id: u32, bytes: Vec<u8>) -> Result<(), std::io::Error>;

    /// The stored module of plugin `id`.
    fn get(&self, id: u32) -> Result<Vec<u8>, std::io::Error>;

    /// Whether a module is stored for plugin `id`.
    fn module_exists(&self, id: u32) -> Result<bool, std::io::Error>;
}

/// The decimal digit character for `d`.
pub open spec fn digit_char(d: nat) -> char
    recommends
        d < 10,
{
    ((0x30 + d) as u8) as char
}

/// The decimal digits of `n`, most significant first, with no leading
/// zeros (a single zero for 0).
pub open spec fn decimal_digits(n: nat) -> Seq<char>
    decreases n,
{
    if n < 10 {
        seq![digit_char(n)]
    } else {
        decimal_digits(n / 10).push(digit_char(n % 10))
    }
}

/// Writes `n` in decimal.
pub fn u32_to_string(n: u32) -> (s: String)
    ensures
        s@ == decimal_digits(n as nat),
    decreases n,
{
    let d = n % 10;
    let digit: &str = if d == 0 {
        "0"
    } else if d == 1 {
        "1"
    } else if d == 2 {
        "2"
    } else if d == 3 {
        "3"
    } else if d == 4 {
        "4"
    } else if d == 5 {
        "5"
    } else if d == 6 {
        "6"
    } else if d == 7 {
        "7"
    } else if d == 8 {
        "8"
    } else {
        "9"
    };
    proof {
        reveal_strlit("0");
        reveal_strlit("1");
        reveal_strlit("2");
        reveal_strlit("3");
        reveal_strlit("4");
        reveal_strlit("5");
        reveal_strlit("6");
        reveal_strlit("7");
        reveal_strlit("8");
        reveal_strlit("9");
        assert(digit@ =~= seq![digit_char(d as nat)]);
    }
    if n < 10 {
        let mut s = String::new();
        s.append(digit);
        proof {
            assert(s@ =~= decimal_digits(n as nat));
        }
        s
    } else {
        let mut s = u32_to_string(n / 10);
        s.append(digit);
        proof {
            assert(s@ =~= decimal_digits(n as nat));
        }
        s
    }
}

/// The path under `directory` where the module of plugin `id` is stored:
/// `<directory>/<id>.wasm`.
pub open spec fn wasm_path(directory: Seq<char>, id: nat) -> Seq<char> {
    directory + seq!['/'] + decimal_digits(id) + ".wasm"@
}

/// The filesystem layout of the module store: modules live under one
/// directory, one file per plugin id.
pub struct FileSystemPluginWasmStore {
    directory: String,
}

impl FileSystemPluginWasmStore {
    /// The directory the modules live under.
    pub closed spec fn dir(&self) -> Seq<char> {
        self.directory@
    }

    /// A store rooted at `directory`.
    pub fn new(directory: String) -> (s: Self)
        ensures
            s.dir() == directory@,
    {
        Self { directory }
    }

    /// The file path of the module of plugin `id`.
    pub fn get_path(&self, id: u32) -> (r: String)
        ensures
            r@ == wasm_path(self.dir(), id as nat),
    {
        let mut path = self.directory.clone();
        path.append("/");
        let digits = u32_to_string(id);
        path.append(digits.as_str());
        path.append(".wasm");
        proof {
            reveal_strlit("/");
            assert(path@ =~= wasm_path(self.dir(), id as nat));
        }
        path
    }
}

impl Default for FileSystemPluginWasmStore {
    /// A store rooted at the conventional registry directory.
    fn default() -> (s: Self)
        ensures
            s.dir() == "./fs-registry/"@,
    {
        Self { directory: String::from_str("./fs-registry/") }
    }
}

} // verus!
