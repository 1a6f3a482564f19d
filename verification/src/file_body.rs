//! A file as the body of a response.

use vstd::prelude::*;

use crate::content_type::ContentType;
use crate::decimal::{decimal, decimal_text};
use crate::response::{
    with_default, Payload, PayloadModel, Response, ResponseModel, Sendable,
};

verus! {

/// The model of a `FileBody`.
pub struct FileModel {
    pub path: Seq<char>,
    pub extension: Seq<char>,
    pub size: Option<u64>,
}

/// A file that is streamed as the body of a response: its path, the
/// extension of that path, and its size in bytes where that is known.
#[derive(Debug)]
pub struct FileBody {
    path: String,
    extension: String,
    size: Option<u64>,
}

impl View for FileBody {
    type V = FileModel;

    closed spec fn view(&self) -> FileModel {
        FileModel { path: self.path@, extension: self.extension@, size: self.size }
    }
}

/// The last position of `c` in `s`.
pub open spec fn last_index(s: Seq<char>, c: char) -> Option<int>
    decreases s.len(),
{
    if s.len() == 0 {
        None
    } else if s.last() == c {
        Some(s.len() - 1)
    } else {
        last_index(s.drop_last(), c)
    }
}

/// What stands in `path` after its last slash: all of it where it has none.
pub open spec fn last_segment(path: Seq<char>) -> Seq<char> {
    match last_index(path, '/') {
        Some(i) => path.skip(i + 1),
        None => path,
    }
}

/// The path is read alike wherever the program runs: it holds no backslash
/// and no colon, does not begin with two slashes, and what stands after its
/// last slash is the name of a file, so neither empty nor `.` nor `..`.
pub open spec fn plain_path(path: Seq<char>) -> bool {
    &&& !path.contains('\\')
    &&& !path.contains(':')
    &&& !(path.len() >= 2 && path[0] == '/' && path[1] == '/')
    &&& last_segment(path).len() > 0
    &&& last_segment(path) != seq!['.']
    &&& last_segment(path) != seq!['.', '.']
}

/// The extension of a file name: what stands after its last dot, unless the
/// name has no dot or only the one it begins with.
pub open spec fn name_extension(name: Seq<char>) -> Option<Seq<char>> {
    match last_index(name, '.') {
        Some(i) => if i > 0 {
            Some(name.skip(i + 1))
        } else {
            None
        },
        None => None,
    }
}

/// The extension of a plain path, empty where its file name has none.
pub open spec fn extension_text(path: Seq<char>) -> Seq<char> {
    match name_extension(last_segment(path)) {
        Some(extension) => extension,
        None => Seq::empty(),
    }
}

/// `Path::extension` of the standard library, as text. Of a plain path the
/// last component is what stands after the last slash, on every platform, and
/// its extension is what the standard library documents: what follows the
/// last dot of the file name, and none where the name has no dot or only the
/// one it begins with. Of any other path nothing is claimed.
#[verifier::external_body]
fn extension_of(path: &str) -> (extension: Option<String>)
    ensures
        plain_path(path@) ==> match extension {
            Some(text) => name_extension(last_segment(path@)) == Some(text@),
            None => name_extension(last_segment(path@)) is None,
        },
{
    match std::path::Path::new(path).extension() {
        Some(extension) => match extension.to_str() {
            Some(text) => Some(text.to_owned()),
            None => None,
        },
        None => None,
    }
}

impl FileBody {
    /// The file at `path`, of `size` bytes where the size is known. The
    /// extension is taken from the path, and is empty where the path has none.
    pub fn new(path: &str, size: Option<u64>) -> (body: FileBody)
        ensures
            body@.path == path@,
            body@.size == size,
            plain_path(path@) ==> body@.extension == extension_text(path@),
    {
        let extension = match extension_of(path) {
            Some(extension) => extension,
            None => String::new(),
        };
        FileBody { path: path.to_owned(), extension, size }
    }

    /// The file at `path` with the extension `extension`, of `size` bytes
    /// where the size is known.
    pub fn with_extension(path: &str, extension: &str, size: Option<u64>) -> (body: FileBody)
        ensures
            body@ == (FileModel { path: path@, extension: extension@, size: size }),
    {
        FileBody { path: path.to_owned(), extension: extension.to_owned(), size }
    }

    /// The path of the file.
    pub fn path(&self) -> (path: &str)
        ensures
            path@ == self@.path,
    {
        self.path.as_str()
    }

    /// The extension of the path.
    pub fn extension(&self) -> (extension: &str)
        ensures
            extension@ == self@.extension,
    {
        self.extension.as_str()
    }
}

/// What `last_index` returns is a position of `c` with none after it.
pub proof fn lemma_last_index(s: Seq<char>, c: char)
    ensures
        match last_index(s, c) {
            Some(i) => 0 <= i < s.len() && s[i] == c && forall|j: int|
                i < j < s.len() ==> s[j] != c,
            None => forall|j: int| 0 <= j < s.len() ==> s[j] != c,
        },
    decreases s.len(),
{
    if s.len() > 0 && s.last() != c {
        lemma_last_index(s.drop_last(), c);
        assert forall|j: int| 0 <= j < s.len() - 1 implies s[j] == s.drop_last()[j] by {}
    }
}

/// A position of `c` with none after it is what `last_index` returns.
pub proof fn lemma_last_index_is(s: Seq<char>, c: char, i: int)
    requires
        0 <= i < s.len(),
        s[i] == c,
        forall|j: int| i < j < s.len() ==> s[j] != c,
    ensures
        last_index(s, c) == Some(i),
    decreases s.len(),
{
    if i < s.len() - 1 {
        assert(s.drop_last()[i] == s[i]);
        lemma_last_index_is(s.drop_last(), c, i);
    }
}

/// A plain path that ends in `.json` after the start of a file name has the
/// extension `json`.
pub proof fn lemma_json_path(front: Seq<char>)
    requires
        front.len() > 0,
        front.last() != '/',
        plain_path(front + ".json"@),
    ensures
        extension_text(front + ".json"@) == "json"@,
{
    reveal_strlit(".json");
    reveal_strlit("json");
    let path = front + ".json"@;
    let n = front.len() as int;
    lemma_last_index(path, '/');
    let name = last_segment(path);
    let start = path.len() - name.len();
    assert(start <= n - 1) by {
        match last_index(path, '/') {
            Some(i) => {
                if i >= n - 1 {
                    if i == n - 1 {
                        assert(path[i] == front[i]);
                    } else {
                        assert(path[i] == ".json"@[i - n]);
                    }
                }
            },
            None => {},
        }
    }
    let dot = n - start;
    assert(name == path.skip(start));
    assert(name[dot] == '.') by {
        assert(name[dot] == path[n]);
        assert(path[n] == ".json"@[0]);
    }
    assert forall|j: int| dot < j < name.len() implies name[j] != '.' by {
        assert(name[j] == path[start + j]);
        assert(path[start + j] == ".json"@[start + j - n]);
    }
    lemma_last_index_is(name, '.', dot);
    assert(name.skip(dot + 1) == "json"@);
}

impl Sendable for FileBody {
    /// A response without a `Content-Type` gets the one that the extension names.
    open spec fn prepared(&self, r: ResponseModel) -> ResponseModel {
        ResponseModel {
            headers: with_default(
                r.headers,
                "Content-Type"@,
                ContentType::of_extension(self@.extension).rendered(),
            ),
            ..r
        }
    }

    /// The size of the file, or 0 where it is not known.
    open spec fn length_text(&self) -> Seq<char> {
        match self@.size {
            Some(n) => decimal(n as nat),
            None => decimal(0),
        }
    }

    open spec fn payload_model(&self) -> PayloadModel {
        PayloadModel::File(self@.path)
    }

    fn prepare(&self, res: &mut Response) {
        if !res.headers().contains_key("Content-Type") {
            res.content_type(ContentType::from_ext(self.extension.as_str()));
        }
    }

    fn content_length(&self) -> (s: String) {
        match self.size {
            Some(n) => decimal_text(n),
            None => decimal_text(0),
        }
    }

    fn payload(&self) -> (p: Payload) {
        Payload::File(self.path.clone())
    }
}

} // verus!
