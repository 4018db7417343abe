//! Content fingerprint of a plugin version: the SHA-1 digest, written as
//! lowercase hex, of the binary content parts (wasm module, then each theme
//! text in list order), followed by the version string and the plugin name.
//! The digest is stored with the version row as an integrity fingerprint;
//! blobs are never located by it.

use vstd::prelude::*;
use vstd::utf8::encode_utf8;

use crate::data::opt_bytes_view;

use sha1::{Digest, Sha1};

verus! {

/// The 20-byte SHA-1 digest of `bytes`. A pure function of the input.
pub uninterp spec fn sha1_of(bytes: Seq<u8>) -> Seq<u8>;

/// Relies on `sha1::Sha1` through the `Digest` trait: the digest is a pure
/// function of the bytes fed to the hasher, and is always 20 bytes long.
#[verifier::external_body]
fn sha1_digest(bytes: &[u8]) -> (r: Vec<u8>)
    ensures
        r@ == sha1_of(bytes@),
        r@.len() == 20,
{
    let mut hasher = Sha1::new();
    hasher.update(bytes);
    hasher.finalize().to_vec()
}

/// The lowercase hex digit for a nibble.
pub open spec fn hex_digit(d: u8) -> char
    recommends
        d < 16,
{
    if d < 10 {
        ((d + 0x30) as u8) as char
    } else {
        ((d + 0x57) as u8) as char
    }
}

/// Lowercase hex encoding: each byte becomes two digits, high nibble first.
pub open spec fn hex_encoding(bytes: Seq<u8>) -> Seq<char> {
    Seq::new(
        bytes.len() * 2,
        |i: int| if i % 2 == 0 {
            hex_digit(bytes[i / 2] / 16)
        } else {
            hex_digit(bytes[i / 2] % 16)
        },
    )
}

/// Relies on `hex::encode`: each input byte becomes two lowercase hex
/// digits, high nibble first, in input order.
#[verifier::external_body]
fn hex_encode(bytes: &[u8]) -> (r: String)
    ensures
        r@ == hex_encoding(bytes@),
{
    hex::encode(bytes)
}

/// The UTF-8 bytes of each theme text, concatenated in list order with no
/// separator.
pub open spec fn themes_bytes(themes: Seq<Seq<char>>) -> Seq<u8>
    decreases themes.len(),
{
    if themes.len() == 0 {
        Seq::empty()
    } else {
        encode_utf8(themes[0]) + themes_bytes(themes.drop_first())
    }
}

/// The exact byte string that is hashed for a version: wasm bytes (if any),
/// then each theme text, then the version string, then the plugin name.
pub open spec fn digest_input(
    version: Seq<char>,
    plugin_name: Seq<char>,
    themes: Seq<Seq<char>>,
    wasm: Option<Seq<u8>>,
) -> Seq<u8> {
    (match wasm {
        Some(w) => w,
        None => Seq::empty(),
    }) + themes_bytes(themes) + encode_utf8(version) + encode_utf8(plugin_name)
}

/// The stored digest string of a version: lowercase hex of the SHA-1 of the
/// digest input.
pub open spec fn version_digest(
    version: Seq<char>,
    plugin_name: Seq<char>,
    themes: Seq<Seq<char>>,
    wasm: Option<Seq<u8>>,
) -> Seq<char> {
    hex_encoding(sha1_of(digest_input(version, plugin_name, themes, wasm)))
}

/// Appends all of `bytes` to `buf`.
fn push_bytes(buf: &mut Vec<u8>, bytes: &[u8])
    ensures
        final(buf)@ == old(buf)@ + bytes@,
{
    let mut i: usize = 0;
    while i < bytes.len()
        invariant
            i <= bytes@.len(),
            buf@ == old(buf)@ + bytes@.take(i as int),
        decreases bytes@.len() - i,
    {
        buf.push(bytes[i]);
        i = i + 1;
        proof {
            assert(buf@ =~= old(buf)@ + bytes@.take(i as int));
        }
    }
    proof {
        assert(buf@ =~= old(buf)@ + bytes@);
    }
}

proof fn lemma_themes_bytes_push(themes: Seq<Seq<char>>, theme: Seq<char>)
    ensures
        themes_bytes(themes.push(theme)) == themes_bytes(themes) + encode_utf8(theme),
    decreases themes.len(),
{
    if themes.len() == 0 {
        assert(themes.push(theme).drop_first() =~= Seq::<Seq<char>>::empty());
        assert(themes.push(theme)[0] == theme);
        assert(themes_bytes(themes.push(theme)) == encode_utf8(theme) + themes_bytes(
            themes.push(theme).drop_first(),
        ));
        assert(themes_bytes(themes.push(theme)) =~= themes_bytes(themes) + encode_utf8(theme));
    } else {
        assert(themes.push(theme).drop_first() =~= themes.drop_first().push(theme));
        assert(themes.push(theme)[0] == themes[0]);
        lemma_themes_bytes_push(themes.drop_first(), theme);
        assert(themes_bytes(themes.push(theme)) == encode_utf8(themes[0]) + themes_bytes(
            themes.drop_first().push(theme),
        ));
        assert(themes_bytes(themes.push(theme)) =~= themes_bytes(themes) + encode_utf8(theme));
    }
}

/// Computes the stored digest string for a version: SHA-1, in lowercase hex,
/// over the wasm bytes (if any), each theme text in list order, the version
/// string, and the plugin name, in that fixed order. Deterministic and
/// order-sensitive: reordering the themes changes the hashed bytes.
pub fn digest_version(
    version: &str,
    plugin_name: &str,
    themes: &Vec<String>,
    wasm: &Option<Vec<u8>>,
) -> (r: String)
    ensures
        r@ == version_digest(version@, plugin_name@, themes.deep_view(), opt_bytes_view(*wasm)),
{
    let ghost tv: Seq<Seq<char>> = themes.deep_view();
    let mut buf: Vec<u8> = Vec::new();
    match wasm {
        Some(wasm_file) => {
            push_bytes(&mut buf, wasm_file.as_slice());
        },
        None => {},
    }
    proof {
        assert(buf@ =~= (match opt_bytes_view(*wasm) {
            Some(w) => w,
            None => Seq::<u8>::empty(),
        }));
    }
    let ghost wasm_part: Seq<u8> = buf@;
    let mut j: usize = 0;
    while j < themes.len()
        invariant
            j <= themes@.len(),
            tv == themes.deep_view(),
            tv.len() == themes@.len(),
            buf@ == wasm_part + themes_bytes(tv.take(j as int)),
        decreases themes@.len() - j,
    {
        proof {
            assert(tv[j as int] == themes@[j as int]@);
            lemma_themes_bytes_push(tv.take(j as int), tv[j as int]);
            assert(tv.take(j as int).push(tv[j as int]) =~= tv.take(j as int + 1));
        }
        push_bytes(&mut buf, themes[j].as_str().as_bytes());
        j = j + 1;
    }
    proof {
        assert(tv.take(themes@.len() as int) =~= tv);
    }
    push_bytes(&mut buf, version.as_bytes());
    push_bytes(&mut buf, plugin_name.as_bytes());
    proof {
        assert(buf@ =~= digest_input(version@, plugin_name@, tv, opt_bytes_view(*wasm)));
    }
    let digest = sha1_digest(buf.as_slice());
    hex_encode(digest.as_slice())
}

/// The digest is deterministic: equal version strings, plugin names, theme
/// lists and wasm payloads always produce the equal digest string.
pub proof fn lemma_digest_deterministic(
    v1: Seq<char>,
    n1: Seq<char>,
    t1: Seq<Seq<char>>,
    w1: Option<Seq<u8>>,
    v2: Seq<char>,
    n2: Seq<char>,
    t2: Seq<Seq<char>>,
    w2: Option<Seq<u8>>,
)
    requires
        v1 == v2,
        n1 == n2,
        t1 == t2,
        w1 == w2,
    ensures
        version_digest(v1, n1, t1, w1) == version_digest(v2, n2, t2, w2),
{
}

/// Changing any single byte of the wasm content, while keeping its length,
/// changes the bytes that are hashed for the digest.
pub proof fn lemma_digest_input_changes_with_content(
    version: Seq<char>,
    plugin_name: Seq<char>,
    themes: Seq<Seq<char>>,
    w1: Seq<u8>,
    w2: Seq<u8>,
)
    requires
        w1.len() == w2.len(),
        w1 != w2,
    ensures
        digest_input(version, plugin_name, themes, Some(w1)) != digest_input(
            version,
            plugin_name,
            themes,
            Some(w2),
        ),
{
    if forall|i: int| 0 <= i < w1.len() ==> w1[i] == w2[i] {
        assert(w1 =~= w2);
    }
    let i = choose|i: int| 0 <= i < w1.len() && w1[i] != w2[i];
    let d1 = digest_input(version, plugin_name, themes, Some(w1));
    let d2 = digest_input(version, plugin_name, themes, Some(w2));
    assert(d1[i] == w1[i]);
    assert(d2[i] == w2[i]);
}

/// Changing the trailing parts of the hashed bytes (the version string or
/// the plugin name, as UTF-8) while the leading parts keep their lengths
/// changes the bytes that are hashed for the digest.
pub proof fn lemma_digest_input_changes_with_tail(
    v1: Seq<char>,
    n1: Seq<char>,
    v2: Seq<char>,
    n2: Seq<char>,
    themes: Seq<Seq<char>>,
    wasm: Option<Seq<u8>>,
)
    requires
        encode_utf8(v1) + encode_utf8(n1) != encode_utf8(v2) + encode_utf8(n2),
    ensures
        digest_input(v1, n1, themes, wasm) != digest_input(v2, n2, themes, wasm),
{
    let head = (match wasm {
        Some(w) => w,
        None => Seq::<u8>::empty(),
    }) + themes_bytes(themes);
    let t1 = encode_utf8(v1) + encode_utf8(n1);
    let t2 = encode_utf8(v2) + encode_utf8(n2);
    let d1 = digest_input(v1, n1, themes, wasm);
    let d2 = digest_input(v2, n2, themes, wasm);
    assert(d1 =~= head + t1);
    assert(d2 =~= head + t2);
    if d1 == d2 {
        assert(t1 =~= t2) by {
            assert(forall|i: int|
                0 <= i < t1.len() ==> t1[i] == d1[head.len() + i] && t2[i] == d2[head.len() + i]);
        }
    }
}

} // verus!
