//! Unix paths as text: a directory and the name of a file in it.
use vstd::prelude::*;

use crate::text;

verus! {

/// `rel` taken in the directory `base`. An absolute `rel` stands for itself.
pub open spec fn join_path(base: Seq<char>, rel: Seq<char>) -> Seq<char> {
    if base.len() == 0 || (rel.len() > 0 && rel.first() == '/') {
        rel
    } else if base.last() == '/' {
        base + rel
    } else {
        base.push('/') + rel
    }
}

/// Where the last full stop of `name` stands.
pub open spec fn last_dot(name: Seq<char>) -> Option<int>
    decreases name.len(),
{
    if name.len() == 0 {
        None
    } else if name.last() == '.' {
        Some(name.len() - 1)
    } else {
        last_dot(name.drop_last())
    }
}

/// Where the extension of a file name begins, if it has one. A full stop at
/// the front begins no extension, and `..` has none.
pub open spec fn extension_dot(name: Seq<char>) -> Option<int> {
    match last_dot(name) {
        Some(i) => if i > 0 && name != ".."@ {
            Some(i)
        } else {
            None
        },
        None => None,
    }
}

/// A file name without its extension.
pub open spec fn file_stem(name: Seq<char>) -> Seq<char> {
    match extension_dot(name) {
        Some(i) => name.take(i),
        None => name,
    }
}

/// A name that stands for a file, not for a directory or for nothing at all.
pub open spec fn names_a_file(name: Seq<char>) -> bool {
    name.len() > 0 && name != "."@ && name != ".."@
}

/// A file name with `ext` in place of its extension, or without extension
/// where `ext` is empty. What names no file stays as it is.
pub open spec fn replace_extension(name: Seq<char>, ext: Seq<char>) -> Seq<char> {
    if !names_a_file(name) {
        name
    } else if ext.len() == 0 {
        file_stem(name)
    } else {
        file_stem(name).push('.') + ext
    }
}

/// `rel` taken in the directory `base`.
pub fn joined_path(base: &str, rel: &str) -> (r: String)
    ensures
        r@ == join_path(base@, rel@),
{
    let b: Vec<char> = text::chars_of(base);
    let c: Vec<char> = text::chars_of(rel);
    if b.len() == 0 || (c.len() > 0 && c[0] == '/') {
        return rel.to_owned();
    }
    let mut r: String = base.to_owned();
    if b[b.len() - 1] != '/' {
        r.append("/");
        proof {
            reveal_strlit("/");
            assert(r@ =~= base@.push('/'));
        }
    }
    r.append(rel);
    r
}

/// Where the extension of a file name begins, if it has one.
fn find_extension(name: &str) -> (r: Option<usize>)
    ensures
        match r {
            Some(i) => i < name@.len() && extension_dot(name@) == Some(i as int),
            None => extension_dot(name@) is None,
        },
{
    let c: Vec<char> = text::chars_of(name);
    let mut i: usize = c.len();
    assert(name@.take(i as int) =~= name@);
    while i > 0
        invariant
            i <= c.len(),
            c@ == name@,
            last_dot(name@.take(i as int)) == last_dot(name@),
        decreases i,
    {
        i = i - 1;
        assert(name@.take(i + 1).drop_last() =~= name@.take(i as int));
        assert(name@.take(i + 1).last() == name@[i as int]);
        if c[i] == '.' {
            if i > 0 && !text::same_text(name, "..") {
                return Some(i);
            }
            return None;
        }
    }
    assert(name@.take(0) =~= Seq::empty());
    None
}

/// What is left of `name` where its extension is `ext`.
pub open spec fn stem_before(name: Seq<char>, ext: Seq<char>) -> Option<Seq<char>> {
    match extension_dot(name) {
        Some(i) => if name.skip(i + 1) == ext {
            Some(name.take(i))
        } else {
            None
        },
        None => None,
    }
}

/// The stem of `name` where its extension is `ext`.
pub fn stem_with_extension(name: &str, ext: &str) -> (r: Option<String>)
    ensures
        text::opt_text(r) == stem_before(name@, ext@),
{
    if let Some(i) = find_extension(name) {
        let n: usize = text::chars_of(name).len();
        let tail: String = text::piece(name, i + 1, n);
        assert(tail@ =~= name@.skip(i + 1));
        if text::same_text(tail.as_str(), ext) {
            let stem: String = text::piece(name, 0, i);
            assert(stem@ =~= name@.take(i as int));
            return Some(stem);
        }
    }
    None
}

/// A file: the directory that it is in, and its name there, which has no `/` in
/// it.
#[derive(Debug, PartialEq, Eq)]
pub struct FilePath {
    pub dir: String,
    pub name: String,
}

/// The text of a file's directory and name.
#[verifier::ext_equal]
pub struct FilePathView {
    pub dir: Seq<char>,
    pub name: Seq<char>,
}

impl View for FilePath {
    type V = FilePathView;

    open spec fn view(&self) -> FilePathView {
        FilePathView { dir: self.dir@, name: self.name@ }
    }
}

impl Clone for FilePath {
    fn clone(&self) -> (r: Self)
        ensures
            r@ == self@,
    {
        FilePath { dir: self.dir.clone(), name: self.name.clone() }
    }
}

impl FilePathView {
    /// The path as one text.
    pub open spec fn path(self) -> Seq<char> {
        join_path(self.dir, self.name)
    }
}

impl FilePath {
    pub fn new(dir: &str, name: &str) -> (r: FilePath)
        ensures
            r@ == (FilePathView { dir: dir@, name: name@ }),
    {
        FilePath { dir: dir.to_owned(), name: name.to_owned() }
    }

    /// The path as one text.
    pub fn to_text(&self) -> (r: String)
        ensures
            r@ == self@.path(),
    {
        joined_path(self.dir.as_str(), self.name.as_str())
    }

    /// Another file in the same directory.
    pub fn with_file_name(&self, name: &str) -> (r: FilePath)
        ensures
            r@ == (FilePathView { name: name@, ..self@ }),
    {
        FilePath { dir: self.dir.clone(), name: name.to_owned() }
    }

    /// The file beside this one that has `ext` in place of its extension, or
    /// none where `ext` is empty. What names no file stays as it is.
    pub fn with_extension(&self, ext: &str) -> (r: FilePath)
        ensures
            r@ == (FilePathView { name: replace_extension(self@.name, ext@), ..self@ }),
    {
        if self.name.as_str().is_empty() || text::same_text(self.name.as_str(), ".")
            || text::same_text(self.name.as_str(), "..") {
            return self.clone();
        }
        let mut name: String = self.name.clone();
        if let Some(i) = find_extension(self.name.as_str()) {
            name = text::piece(self.name.as_str(), 0, i);
            assert(name@ =~= self.name@.take(i as int));
        }
        if !ext.is_empty() {
            name.append(".");
            proof {
                reveal_strlit(".");
                assert(name@ =~= file_stem(self.name@).push('.'));
            }
            name.append(ext);
        }
        FilePath { dir: self.dir.clone(), name }
    }
}

} // verus!
