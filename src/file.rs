//! Stored files and the layout of the data directory.
use crate::ids::random_id;
use vstd::prelude::*;

verus! {

/// `base` joined with `part` by the target platform's path rules.
pub uninterp spec fn path_joined(base: Seq<char>, part: Seq<char>) -> Seq<char>;

/// The MIME type guessed from a file name's extension.
pub uninterp spec fn guessed_mime(name: Seq<char>) -> Seq<char>;

/// Relies on `std::path::Path::join`: the joined path, as a string; it
/// depends on the two paths alone.
#[verifier::external_body]
fn join_path(base: &str, part: &str) -> (r: String)
    ensures
        r@ == path_joined(base@, part@),
{
    std::path::Path::new(base).join(part).to_string_lossy().into_owned()
}

/// Relies on `mime_guess::from_path` and `MimeGuess::first_or_octet_stream`:
/// the first MIME type known for the name's extension, else
/// `application/octet-stream`; it depends on the name alone.
#[verifier::external_body]
fn guess_mime(name: &str) -> (r: String)
    ensures
        r@ == guessed_mime(name@),
{
    mime_guess::from_path(name).first_or_octet_stream().to_string()
}

/// The data directory of a server instance.
#[derive(Clone, Debug)]
pub struct DataDir(pub String);

impl DataDir {
    pub fn new(dir: String) -> (r: DataDir)
        ensures
            r.0 == dir,
    {
        DataDir(dir)
    }

    /// Where the session signing key is kept.
    pub fn key_path(&self) -> (r: String)
        ensures
            r@ == path_joined(self.0@, "KEY"@),
    {
        join_path(self.0.as_str(), "KEY")
    }

    /// Where the file metadata database is kept.
    pub fn db_path(&self) -> (r: String)
        ensures
            r@ == path_joined(self.0@, "db-path"@),
    {
        join_path(self.0.as_str(), "db-path")
    }

    /// Where the stored files are kept.
    pub fn files_dir(&self) -> (r: String)
        ensures
            r@ == path_joined(self.0@, "files"@),
    {
        join_path(self.0.as_str(), "files")
    }

    /// The directory itself.
    pub fn path(&self) -> (r: &str)
        ensures
            r@ == self.0@,
    {
        self.0.as_str()
    }
}

/// The length a stored session signing key must have, in bytes.
pub const KEY_LEN: usize = 64;

/// Whether a stored session signing key can be used: it has at least
/// `KEY_LEN` bytes; a shorter one is replaced by a fresh key.
pub fn is_usable_key(key: &Vec<u8>) -> (r: bool)
    ensures
        r == (key@.len() >= KEY_LEN),
{
    key.len() >= KEY_LEN
}

/// The metadata of a stored file.
#[derive(Clone, Debug)]
pub struct UserFile {
    pub id: String,
    pub name: String,
    /// Size in bytes.
    pub size: i64,
    pub user_id: String,
}

/// Whether `s` starts with `prefix`.
pub open spec fn starts_with(s: Seq<char>, prefix: Seq<char>) -> bool {
    prefix.len() <= s.len() && s.subrange(0, prefix.len() as int) == prefix
}

/// Whether `s` starts with `prefix`.
pub fn has_prefix(s: &str, prefix: &str) -> (r: bool)
    ensures
        r == starts_with(s@, prefix@),
{
    let n = prefix.unicode_len();
    if n > s.unicode_len() {
        return false;
    }
    let mut i: usize = 0;
    while i < n
        invariant
            n == prefix@.len(),
            n <= s@.len(),
            i <= n,
            s@.subrange(0, i as int) == prefix@.subrange(0, i as int),
        decreases n - i,
    {
        if s.get_char(i) != prefix.get_char(i) {
            assert(s@.subrange(0, n as int)[i as int] != prefix@[i as int]);
            return false;
        }
        i += 1;
        assert(s@.subrange(0, i as int) =~= s@.subrange(0, i - 1).push(s@[i - 1]));
        assert(prefix@.subrange(0, i as int) =~= prefix@.subrange(0, i - 1).push(prefix@[i - 1]));
    }
    assert(prefix@.subrange(0, n as int) =~= prefix@);
    true
}

impl UserFile {
    /// Metadata for a new file of `user_id`, with a fresh random id of 21
    /// characters, an empty name and size zero.
    pub fn new(user_id: String) -> (r: UserFile)
        ensures
            r.id@.len() == 21,
            r.name@.len() == 0,
            r.size == 0,
            r.user_id == user_id,
    {
        UserFile { id: random_id(21), name: String::new(), size: 0, user_id }
    }

    /// The file's path under `dir`: the directory joined with the file id.
    pub fn file_path_in(&self, dir: &str) -> (r: String)
        ensures
            r@ == path_joined(dir@, self.id@),
    {
        join_path(dir, self.id.as_str())
    }

    /// The MIME type guessed from the file name.
    pub fn mime(&self) -> (r: String)
        ensures
            r@ == guessed_mime(self.name@),
    {
        guess_mime(self.name.as_str())
    }

    /// The content type to announce when serving the file: the guessed type,
    /// except that HTML is not announced (`None`).
    pub fn content_type(&self) -> (r: Option<String>)
        ensures
            starts_with(guessed_mime(self.name@), "text/html"@) ==> r is None,
            !starts_with(guessed_mime(self.name@), "text/html"@) ==> r is Some && r->Some_0@
                == guessed_mime(self.name@),
    {
        let mime = self.mime();
        if has_prefix(mime.as_str(), "text/html") {
            None
        } else {
            Some(mime)
        }
    }
}

} // verus!
