//! Destination-name construction: splitting a file name into stem and
//! extension, and joining stem, timestamp, fingerprint and extension
//! into the new name.
//!
//! The input here is a path's final component, already read off the
//! path by the caller, together with the fact whether the path denotes
//! an existing regular file. A name splits at its last dot; a dot in
//! first position starts a hidden file and begins no extension.

use vstd::prelude::*;

use vstd::string::StrSliceExecFns;

verus! {

/// Why no destination name could be built.
#[derive(Clone, Copy, Debug, PartialEq, Eq, Structural)]
pub enum NameError {
    /// The source path does not denote an existing regular file.
    NotAFile,
    /// The source path has no final component to name the copy after.
    NoFileName,
}

impl NameError {
    /// The message shown for this error, word for word.
    pub fn message(&self) -> (r: String)
        ensures
            *self is NotAFile ==> r@ == "uniqopy only works on files"@,
            *self is NoFileName ==> r@ == "File has no name?"@,
    {
        match self {
            NameError::NotAFile => "uniqopy only works on files".to_owned(),
            NameError::NoFileName => "File has no name?".to_owned(),
        }
    }
}

/// The index of the last dot at or before position `i`, or -1 where
/// there is none.
pub open spec fn last_dot_from(s: Seq<char>, i: int) -> int
    decreases i + 1,
{
    if i < 0 || i >= s.len() {
        -1
    } else if s[i] == '.' {
        i
    } else {
        last_dot_from(s, i - 1)
    }
}

/// The index of the last dot of the name, or -1 where there is none.
pub open spec fn last_dot(s: Seq<char>) -> int {
    last_dot_from(s, s.len() - 1)
}

/// Whether the name splits into stem and extension: it does exactly
/// when a dot stands after the first position.
pub open spec fn has_extension(s: Seq<char>) -> bool {
    last_dot(s) >= 1
}

/// The stem: everything before the last dot, or the whole name when
/// there is no extension.
pub open spec fn stem_of(s: Seq<char>) -> Seq<char> {
    if has_extension(s) {
        s.subrange(0, last_dot(s))
    } else {
        s
    }
}

/// The extension: everything after the last dot, where one exists.
pub open spec fn extension_of(s: Seq<char>) -> Option<Seq<char>> {
    if has_extension(s) {
        Some(s.subrange(last_dot(s) + 1, s.len() as int))
    } else {
        None
    }
}

/// Split a file name into stem and extension at its last dot. A name
/// without a dot, or whose only dot leads it, has no extension and is
/// its own stem.
pub fn split_file_name(name: &str) -> (r: (String, Option<String>))
    ensures
        r.0@ == stem_of(name@),
        r.1 matches Some(e) ==> extension_of(name@) == Some(e@),
        r.1 is None ==> extension_of(name@) is None,
{
    let n = name.unicode_len();
    let mut dot: Option<usize> = None;
    let mut i: usize = 0;
    while i < n
        invariant
            n == name@.len(),
            i <= n,
            dot matches Some(k) ==> k < i && last_dot_from(name@, i - 1) == k,
            dot is None ==> last_dot_from(name@, i - 1) == -1,
        decreases n - i,
    {
        if name.get_char(i) == '.' {
            dot = Some(i);
        }
        i += 1;
    }
    match dot {
        Some(k) if k >= 1 => {
            let stem = name.substring_char(0, k).to_owned();
            let ext = name.substring_char(k + 1, n).to_owned();
            (stem, Some(ext))
        },
        _ => (name.to_owned(), None),
    }
}

/// The destination name: stem, timestamp and fingerprint joined by
/// dots, with the extension, where one exists, kept at the end.
pub open spec fn joined(ts: Seq<char>, fp: Seq<char>, stem: Seq<char>, ext: Option<Seq<char>>) -> Seq<
    char,
> {
    let base = stem + seq!['.'] + ts + seq!['.'] + fp;
    match ext {
        Some(e) => base + seq!['.'] + e,
        None => base,
    }
}

/// Join stem, timestamp, fingerprint and optional extension with dots.
pub fn build_name(ts: &str, fp: &str, stem: &str, ext: Option<&str>) -> (r: String)
    ensures
        r@ == joined(ts@, fp@, stem@, match ext {
            Some(e) => Some(e@),
            None => None,
        }),
{
    let mut r = stem.to_owned();
    r.append(".");
    r.append(ts);
    r.append(".");
    r.append(fp);
    if let Some(e) = ext {
        r.append(".");
        r.append(e);
    }
    proof {
        reveal_strlit(".");
        assert(r@ =~= joined(ts@, fp@, stem@, match ext {
            Some(e) => Some(e@),
            None => None,
        }));
    }
    r
}

/// Build the destination name for a source path, given the path's final
/// component (where it has one), whether the path denotes an existing
/// regular file, the timestamp and the fingerprint.
///
/// Fails on anything but a regular file, and on a path without a final
/// component; otherwise the name is the source's stem with timestamp
/// and fingerprint spliced in before the kept extension.
pub fn new_name(file_name: Option<&str>, is_file: bool, ts: &str, fp: &str) -> (r: Result<
    String,
    NameError,
>)
    ensures
        !is_file ==> (r matches Err(e) && e is NotAFile),
        is_file && file_name is None ==> (r matches Err(e) && e is NoFileName),
        file_name matches Some(n) ==> (is_file ==> (r matches Ok(s) && s@ == joined(
            ts@,
            fp@,
            stem_of(n@),
            extension_of(n@),
        ))),
{
    if !is_file {
        return Err(NameError::NotAFile);
    }
    match file_name {
        None => Err(NameError::NoFileName),
        Some(n) => {
            let (stem, ext) = split_file_name(n);
            let r = build_name(ts, fp, stem.as_str(), match &ext {
                Some(e) => Some(e.as_str()),
                None => None,
            });
            Ok(r)
        },
    }
}

} // verus!
