//! Host-side paths derived from the language: the image name is normalized
//! (`/` and `:` become `+`) and appended to fixed base directories for the
//! rootfs tree, the environment file and the default runner.

use vstd::prelude::*;
use vstd::string::{StringExecFns, StrSliceExecFns};
use crate::request::Language;

verus! {

/// Image-name normalization: path separators and tag colons become `+`.
pub open spec fn normalized_chars(s: Seq<char>) -> Seq<char> {
    s.map_values(
        |c: char|
            if c == '/' || c == ':' {
                '+'
            } else {
                c
            },
    )
}

/// The normalized form of an image name, used as a file name.
pub fn normalize_image(s: &str) -> (r: String)
    ensures
        r@ == normalized_chars(s@),
{
    let mut r = String::new();
    let n = s.unicode_len();
    let mut i: usize = 0;
    while i < n
        invariant
            i <= n == s@.len(),
            r@ =~= normalized_chars(s@.take(i as int)),
        decreases n - i,
    {
        let c = s.get_char(i);
        if c == '/' || c == ':' {
            r.push('+');
        } else {
            r.push(c);
        }
        i = i + 1;
        assert(r@ =~= normalized_chars(s@.take(i as int)));
    }
    assert(s@.take(s@.len() as int) =~= s@);
    r
}

/// The rootfs directory of an image.
pub open spec fn rootfs_chars(image: Seq<char>) -> Seq<char> {
    "/usr/local/lib/ATO/rootfs/"@ + normalized_chars(image)
}

/// The environment-file path of an image.
pub open spec fn env_file_chars(image: Seq<char>) -> Seq<char> {
    "/usr/local/lib/ATO/env/"@ + normalized_chars(image)
}

/// The default-runner path of a language identifier.
pub open spec fn runner_chars(language_id: Seq<char>) -> Seq<char> {
    "/usr/local/share/ATO/runners/"@ + language_id
}

/// Where the language's read-only image tree lives on the host.
pub fn rootfs_path(language: &Language) -> (r: String)
    ensures
        r@ == rootfs_chars(language.image@),
{
    let mut r = String::new();
    r.append("/usr/local/lib/ATO/rootfs/");
    let norm = normalize_image(language.image.as_str());
    r.append(norm.as_str());
    assert(r@ =~= rootfs_chars(language.image@));
    r
}

/// Where the language's environment block (null-terminated records) lives.
pub fn env_file_path(language: &Language) -> (r: String)
    ensures
        r@ == env_file_chars(language.image@),
{
    let mut r = String::new();
    r.append("/usr/local/lib/ATO/env/");
    let norm = normalize_image(language.image.as_str());
    r.append(norm.as_str());
    assert(r@ =~= env_file_chars(language.image@));
    r
}

/// Where the language's default runner executable lives.
pub fn default_runner_path(language_id: &str) -> (r: String)
    ensures
        r@ == runner_chars(language_id@),
{
    let mut r = String::new();
    r.append("/usr/local/share/ATO/runners/");
    r.append(language_id);
    assert(r@ =~= runner_chars(language_id@));
    r
}

} // verus!
