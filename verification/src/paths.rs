//! The files kept beside a data file: the file being written, the previous
//! version while it is replaced, the backup, and the message database.
//! What a path's file name and extension are is left to `std::path`.
use vstd::prelude::*;
use std::path::Path;
use crate::text::{join2, str_equals};

verus! {

/// The last component of a path, as `Path::file_name` reads it.
pub uninterp spec fn path_file_name_of(path: Seq<char>) -> Option<Seq<char>>;

/// The path with its last component replaced, as `Path::with_file_name` builds it.
pub uninterp spec fn path_with_file_name_of(path: Seq<char>, name: Seq<char>) -> Seq<char>;

/// The extension of a path, as `Path::extension` reads it.
pub uninterp spec fn path_extension_of(path: Seq<char>) -> Option<Seq<char>>;

/// The path with its extension replaced, as `Path::with_extension` builds it.
pub uninterp spec fn path_with_extension_of(path: Seq<char>, extension: Seq<char>) -> Seq<char>;

/// `Path::file_name` of `path`, as text. The contract names the result.
#[verifier::external_body]
fn file_name(path: &str) -> (r: Option<String>)
    ensures
        match r {
            Some(n) => path_file_name_of(path@) == Some(n@),
            None => path_file_name_of(path@) is None,
        },
{
    Path::new(path).file_name().map(|name| name.to_string_lossy().into_owned())
}

/// A name that `Path::push` appends as one normal component, on every
/// platform: not empty, not `.` or `..`, and free of separators and of the
/// `:` that can start a drive prefix.
pub open spec fn plain_file_name(name: Seq<char>) -> bool {
    &&& name.len() > 0
    &&& name != "."@
    &&& name != ".."@
    &&& !name.contains('/')
    &&& !name.contains('\\')
    &&& !name.contains(':')
}

/// `Path::with_file_name` of `path` and `name`, as text. The contract names
/// the result, and says what the std documentation promises of it: it has
/// the given file name (when the name is one plain component; the call
/// drops the last component, if any, and pushes the name).
#[verifier::external_body]
fn with_file_name(path: &str, name: &str) -> (r: String)
    ensures
        r@ == path_with_file_name_of(path@, name@),
        plain_file_name(name@) ==> path_file_name_of(r@) == Some(name@),
{
    Path::new(path).with_file_name(name).to_string_lossy().into_owned()
}

/// `Path::extension` of `path`, when it is text. The contract names the result.
#[verifier::external_body]
fn extension(path: &str) -> (r: Option<String>)
    ensures
        match r {
            Some(e) => path_extension_of(path@) == Some(e@),
            None => path_extension_of(path@) is None,
        },
{
    Path::new(path).extension().and_then(|ext| ext.to_str()).map(|ext| ext.to_string())
}

/// `Path::with_extension` of `path` and `ext`, as text. The contract names
/// the result. `PathBuf::set_extension` panics when the extension holds a
/// path separator, so such an extension is not admitted: `/`, and `\\`,
/// which is one on Windows, where the library is built too.
#[verifier::external_body]
fn with_extension(path: &str, ext: &str) -> (r: String)
    requires
        !ext@.contains('/'),
        !ext@.contains('\\'),
    ensures
        r@ == path_with_extension_of(path@, ext@),
{
    Path::new(path).with_extension(ext).to_string_lossy().into_owned()
}

/// The file beside `path` named after it with `.` and `suffix` added
/// (`data` when the path has no file name).
pub open spec fn sibling_with_suffix(path: Seq<char>, suffix: Seq<char>) -> Seq<char> {
    let name = match path_file_name_of(path) {
        Some(n) => n,
        None => "data"@,
    };
    path_with_file_name_of(path, name + "."@ + suffix)
}

/// Whether the file name of `path` is free of separators and of `:`, so
/// that the names of its siblings are plain.
pub open spec fn has_plain_siblings(path: Seq<char>) -> bool {
    match path_file_name_of(path) {
        Some(n) => !n.contains('/') && !n.contains('\\') && !n.contains(':'),
        None => true,
    }
}

/// The name a sibling of `path` gets.
pub open spec fn sibling_name(path: Seq<char>, suffix: Seq<char>) -> Seq<char> {
    (match path_file_name_of(path) {
        Some(n) => n,
        None => "data"@,
    }) + "."@ + suffix
}

/// The file being written, the version left aside and the backup of a data
/// file are three files, none of them the data file itself, wherever its
/// file name has no separator or `:` and each sibling has its own name.
pub(crate) proof fn lemma_siblings_are_distinct(path: Seq<char>)
    requires
        has_plain_siblings(path),
        path_file_name_of(sibling_with_suffix(path, "tmp"@)) == Some(sibling_name(path, "tmp"@)),
        path_file_name_of(sibling_with_suffix(path, "old"@)) == Some(sibling_name(path, "old"@)),
        path_file_name_of(sibling_with_suffix(path, "bak"@)) == Some(sibling_name(path, "bak"@)),
    ensures
        ({
            let temp = sibling_with_suffix(path, "tmp"@);
            let old = sibling_with_suffix(path, "old"@);
            let bak = sibling_with_suffix(path, "bak"@);
            path != temp && path != old && path != bak && temp != old && temp != bak && old != bak
        }),
{
    reveal_strlit("tmp");
    reveal_strlit("old");
    reveal_strlit("bak");
    reveal_strlit("data");
    reveal_strlit(".");
    reveal_strlit("..");
    let base = match path_file_name_of(path) {
        Some(n) => n,
        None => "data"@,
    };
    let tmp_name = base + "."@ + "tmp"@;
    let old_name = base + "."@ + "old"@;
    let bak_name = base + "."@ + "bak"@;
    assert(tmp_name.len() == base.len() + 4);
    assert(old_name.len() == base.len() + 4);
    assert(bak_name.len() == base.len() + 4);
    assert(tmp_name[base.len() + 1int] != old_name[base.len() + 1int]);
    assert(tmp_name[base.len() + 1int] != bak_name[base.len() + 1int]);
    assert(old_name[base.len() + 1int] != bak_name[base.len() + 1int]);
}

/// The name of a sibling is one plain component when the file's name has no
/// separator or `:`.
proof fn lemma_sibling_name_is_plain(path: Seq<char>, suffix: Seq<char>)
    requires
        has_plain_siblings(path),
        suffix.len() > 1,
        !suffix.contains('/'),
        !suffix.contains('\\'),
        !suffix.contains(':'),
    ensures
        plain_file_name(sibling_name(path, suffix)),
{
    reveal_strlit("data");
    reveal_strlit(".");
    reveal_strlit("..");
    let base = match path_file_name_of(path) {
        Some(n) => n,
        None => "data"@,
    };
    let name = base + "."@ + suffix;
    assert(name == sibling_name(path, suffix));
    assert(name.len() >= 3);
    assert(name != "."@ && name != ".."@ && name.len() > 0) by {
        assert("."@.len() == 1 && ".."@.len() == 2);
    }
    if name.contains('/') {
        let i = choose|i: int| 0 <= i < name.len() && name[i] == '/';
        if i < base.len() {
            assert(base[i] == '/');
        } else if i > base.len() {
            assert(suffix[i - base.len() - 1] == '/');
        }
    }
    if name.contains('\\') {
        let i = choose|i: int| 0 <= i < name.len() && name[i] == '\\';
        if i < base.len() {
            assert(base[i] == '\\');
        } else if i > base.len() {
            assert(suffix[i - base.len() - 1] == '\\');
        }
    }
    if name.contains(':') {
        let i = choose|i: int| 0 <= i < name.len() && name[i] == ':';
        if i < base.len() {
            assert(base[i] == ':');
        } else if i > base.len() {
            assert(suffix[i - base.len() - 1] == ':');
        }
    }
}

/// The name of the sibling file: the file's name (`data` when there is
/// none) with `.` and `suffix` added.
pub fn sibling_file_name(file_name: Option<String>, suffix: &str) -> (r: String)
    ensures
        r@ == match file_name {
            Some(n) => n@,
            None => "data"@,
        } + "."@ + suffix@,
{
    let name = match file_name {
        Some(n) => n,
        None => String::from_str("data"),
    };
    let mut sibling = join2(name.as_str(), ".");
    sibling.append(suffix);
    sibling
}

/// The file beside `path` named after it with `.` and `suffix` added.
pub fn sibling_path_with_suffix(path: &str, suffix: &str) -> (r: String)
    ensures
        r@ == sibling_with_suffix(path@, suffix@),
        plain_file_name(sibling_name(path@, suffix@)) ==> path_file_name_of(r@) == Some(sibling_name(path@, suffix@)),
{
    let sibling = sibling_file_name(file_name(path), suffix);
    with_file_name(path, sibling.as_str())
}

/// Where a new version of `path` is written first.
pub fn temp_path(path: &str) -> (r: String)
    ensures
        r@ == sibling_with_suffix(path@, "tmp"@),
        has_plain_siblings(path@) ==> path_file_name_of(r@) == Some(sibling_name(path@, "tmp"@)),
{
    proof {
        reveal_strlit("tmp");
        if has_plain_siblings(path@) {
            lemma_sibling_name_is_plain(path@, "tmp"@);
        }
    }
    sibling_path_with_suffix(path, "tmp")
}

/// Where the current version of `path` waits while it is replaced.
pub fn replacing_path(path: &str) -> (r: String)
    ensures
        r@ == sibling_with_suffix(path@, "old"@),
        has_plain_siblings(path@) ==> path_file_name_of(r@) == Some(sibling_name(path@, "old"@)),
{
    proof {
        reveal_strlit("old");
        if has_plain_siblings(path@) {
            lemma_sibling_name_is_plain(path@, "old"@);
        }
    }
    sibling_path_with_suffix(path, "old")
}

/// Where the last good version of `path` is kept.
pub fn backup_path(path: &str) -> (r: String)
    ensures
        r@ == sibling_with_suffix(path@, "bak"@),
        has_plain_siblings(path@) ==> path_file_name_of(r@) == Some(sibling_name(path@, "bak"@)),
{
    proof {
        reveal_strlit("bak");
        if has_plain_siblings(path@) {
            lemma_sibling_name_is_plain(path@, "bak"@);
        }
    }
    sibling_path_with_suffix(path, "bak")
}

/// The message database of a data file: `messages.sqlite` beside a `.yaml`
/// file, else the data file with its extension replaced by `messages.sqlite`.
pub open spec fn message_db_file(data_file: Seq<char>) -> Seq<char> {
    if path_extension_of(data_file) == Some("yaml"@) {
        path_with_file_name_of(data_file, "messages.sqlite"@)
    } else {
        path_with_extension_of(data_file, "messages.sqlite"@)
    }
}

/// The message database that belongs to the data file `data_file_path`.
pub fn message_db_path(data_file_path: &str) -> (r: String)
    ensures
        r@ == message_db_file(data_file_path@),
{
    let is_yaml = match extension(data_file_path) {
        Some(ext) => str_equals(ext.as_str(), "yaml"),
        None => false,
    };
    proof {
        reveal_strlit("messages.sqlite");
    }
    if is_yaml {
        with_file_name(data_file_path, "messages.sqlite")
    } else {
        with_extension(data_file_path, "messages.sqlite")
    }
}

/// The earlier versions tried, in order, when a file cannot be read: the
/// one left while replacing it, then the backup.
pub fn fallback_paths(path: &str) -> (r: Vec<String>)
    ensures
        r@.len() == 2,
        r@[0]@ == sibling_with_suffix(path@, "old"@),
        r@[1]@ == sibling_with_suffix(path@, "bak"@),
{
    let mut r: Vec<String> = Vec::new();
    r.push(replacing_path(path));
    r.push(backup_path(path));
    r
}

/// Whether a path is absolute, as `Path::is_absolute` decides.
pub uninterp spec fn path_is_absolute_of(path: Seq<char>) -> bool;

/// `Path::is_absolute` of `path`. The contract names the result.
#[verifier::external_body]
fn is_absolute(path: &str) -> (r: bool)
    ensures
        r == path_is_absolute_of(path@),
{
    Path::new(path).is_absolute()
}

/// Refuses a new data file path that is not absolute.
pub fn check_new_data_path(new_path: &str) -> (r: Result<(), String>)
    ensures
        path_is_absolute_of(new_path@) <==> r is Ok,
        r matches Err(e) ==> e@ == "Please provide an absolute path"@,
{
    if is_absolute(new_path) {
        Ok(())
    } else {
        Err(String::from_str("Please provide an absolute path"))
    }
}

/// The data file to open: the configured one when it exists or its folder
/// does (`custom_usable`), else the default one.
pub fn choose_data_file(custom_path: Option<String>, custom_usable: bool, default_path: String) -> (r: String)
    ensures
        r == match custom_path {
            Some(p) => if custom_usable {
                p
            } else {
                default_path
            },
            None => default_path,
        },
{
    match custom_path {
        Some(p) => if custom_usable {
            p
        } else {
            default_path
        },
        None => default_path,
    }
}

} // verus!
