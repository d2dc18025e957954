use vstd::prelude::*;

verus! {

/// The subdirectory of the application data directory that holds the files.
pub const STORAGE_DIR: &'static str = "storage";

/// Whether `c` separates the parts of a path on some platform.
pub open spec fn is_separator(c: char) -> bool {
    c == '/' || c == '\\'
}

/// Whether a key names a file inside the storage directory: no separator and
/// no NUL, so the file cannot lie elsewhere. With the extension added, a key
/// such as `..` is an ordinary file name.
pub open spec fn is_valid_key(key: Seq<char>) -> bool {
    forall|i: int| 0 <= i < key.len() ==> !is_separator(#[trigger] key[i]) && key[i] != '\0'
}

/// Whether every character of `s` is printable ASCII.
pub open spec fn is_printable_ascii(s: Seq<char>) -> bool {
    forall|i: int| 0 <= i < s.len() ==> ' ' <= #[trigger] s[i] <= '~'
}

/// The name of the file that holds the value of `key`.
pub open spec fn file_name_of(key: Seq<char>) -> Seq<char> {
    key + ".txt"@
}

/// The message for a key that would name a file outside the storage directory.
pub open spec fn invalid_key_message(key: Seq<char>) -> Seq<char> {
    "invalid storage key: "@ + key
}

/// The message for a key that has no file yet.
pub open spec fn not_found_message() -> Seq<char> {
    "file not found"@
}

/// What came of reading the file of a key.
#[derive(Clone, Debug)]
pub enum ReadOutcome {
    /// No file exists for the key.
    Missing,
    /// The file's whole text.
    Contents(String),
    /// The file exists but could not be read; the cause.
    Failed(String),
}

/// What `load_from_local_storage` returns for the outcome of its read.
pub open spec fn load_verdict(o: ReadOutcome) -> Result<Seq<char>, Seq<char>> {
    match o {
        ReadOutcome::Missing => Err(not_found_message()),
        ReadOutcome::Contents(s) => Ok(s@),
        ReadOutcome::Failed(e) => Err("failed to read file: "@ + e@),
    }
}

/// Checks a key and gives the name of its file in the storage directory, or
/// the message that refuses it.
pub fn storage_file_name(key: &str) -> (r: Result<String, String>)
    ensures
        r is Ok <==> is_valid_key(key@),
        r matches Ok(name) ==> name@ == file_name_of(key@),
        r matches Err(e) ==> e@ == invalid_key_message(key@),
{
    let n = key.unicode_len();
    let mut i: usize = 0;
    while i < n
        invariant
            n == key@.len(),
            i <= n,
            forall|j: int| 0 <= j < i ==> !is_separator(#[trigger] key@[j]) && key@[j] != '\0',
        decreases n - i,
    {
        let c = key.get_char(i);
        if c == '/' || c == '\\' || c == '\0' {
            let mut m = String::from_str("invalid storage key: ");
            m.append(key);
            return Err(m);
        }
        i = i + 1;
    }
    let mut name = String::from_str(key);
    name.append(".txt");
    Ok(name)
}

/// Decides what loading a key returns: the file's text, or the not-found or
/// the read message.
pub fn load_result(outcome: ReadOutcome) -> (r: Result<String, String>)
    ensures
        match r {
            Ok(s) => load_verdict(outcome) == Ok::<Seq<char>, Seq<char>>(s@),
            Err(e) => load_verdict(outcome) == Err::<Seq<char>, Seq<char>>(e@),
        },
{
    match outcome {
        ReadOutcome::Missing => Err(String::from_str("file not found")),
        ReadOutcome::Contents(s) => Ok(s),
        ReadOutcome::Failed(e) => {
            let mut m = String::from_str("failed to read file: ");
            m.append(e.as_str());
            Err(m)
        },
    }
}

/// The message for an application data directory that cannot be found.
pub fn data_dir_error() -> (r: String)
    ensures
        r@ == "cannot resolve application data directory"@,
{
    String::from_str("cannot resolve application data directory")
}

/// The message for a storage directory that could not be created.
pub fn create_dir_error(detail: &str) -> (r: String)
    ensures
        r@ == "failed to create storage directory: "@ + detail@,
{
    let mut m = String::from_str("failed to create storage directory: ");
    m.append(detail);
    m
}

/// The message for a file that could not be written.
pub fn write_error(detail: &str) -> (r: String)
    ensures
        r@ == "failed to write file: "@ + detail@,
{
    let mut m = String::from_str("failed to write file: ");
    m.append(detail);
    m
}

/// Saving under a printable key and loading it back: the key is accepted, it
/// names a file that no other accepted key names, and loading that file hands
/// back exactly the text that was written to it.
pub proof fn lemma_save_then_load(key: Seq<char>, other: Seq<char>, value: String)
    requires
        is_printable_ascii(key),
        forall|i: int| 0 <= i < key.len() ==> !is_separator(#[trigger] key[i]),
    ensures
        is_valid_key(key),
        is_valid_key(other) && file_name_of(other) == file_name_of(key) ==> other == key,
        load_verdict(ReadOutcome::Contents(value)) == Ok::<Seq<char>, Seq<char>>(value@),
{
    assert forall|i: int| 0 <= i < key.len() implies !is_separator(#[trigger] key[i]) && key[i]
        != '\0' by {
        assert(' ' <= key[i]);
    }
    if file_name_of(other) == file_name_of(key) {
        assert(file_name_of(other).len() == other.len() + ".txt"@.len());
        assert(file_name_of(key).len() == key.len() + ".txt"@.len());
        assert(other.len() == key.len());
        assert(other =~= file_name_of(other).subrange(0, other.len() as int));
        assert(key =~= file_name_of(key).subrange(0, key.len() as int));
    }
}

} // verus!
