//! What the scanner decides about files before and after it reads them:
//! which files to scan, which directories to enter, their MIME type and
//! executability, their digests and the printable strings in their bytes.
use vstd::prelude::*;
use vstd::string::StringExecFns;
use sha1::Digest as Sha1Digest;
use sha2::Digest as Sha2Digest;
use crate::paths::{extension, extension_of, file_name, file_name_of, path_starts_with, starts_with_path};
use crate::text::{is_hex_digit, lowercase, owned, push_char, str_eq, to_lowercase};
use crate::pe_analyzer::{has_pe_signature, pe_signature_ok};
use crate::error::{AntivirusError, ScanEngineError};
use crate::text::{decimal, u64_to_string};
use crate::types::Timestamp;

verus! {

/// What the scanner knows of a file before scanning it.
#[derive(Debug, Clone)]
pub struct FileInfo {
    pub path: String,
    pub size: u64,
    pub modified: Timestamp,
    pub created: Timestamp,
    pub is_executable: bool,
    pub extension: Option<String>,
    pub mime_type: Option<String>,
}

/// The digests of a file, in lowercase hexadecimal.
#[derive(Debug, Clone)]
pub struct FileHashes {
    pub sha256: String,
    pub md5: String,
    pub sha1: String,
}

/// Settings of the file scanner.
pub struct FileScanner {
    max_file_size: u64,
    buffer_size: usize,
    excluded_extensions: Vec<String>,
    excluded_paths: Vec<String>,
}

/// The extensions that the scanner skips by default.
pub open spec fn default_excluded_extensions() -> Seq<Seq<char>> {
    seq!["tmp"@, "log"@, "bak"@]
}

/// The views of a sequence of strings.
pub open spec fn string_views(v: Seq<String>) -> Seq<Seq<char>> {
    Seq::new(v.len(), |i: int| v[i]@)
}

/// Whether the scanner with these settings scans the file.
pub open spec fn scan_wanted(
    max_file_size: u64,
    excluded_extensions: Seq<Seq<char>>,
    excluded_paths: Seq<Seq<char>>,
    info: FileInfo,
) -> bool {
    &&& info.size <= max_file_size
    &&& match info.extension {
        Some(ext) => !excluded_extensions.contains(ext@),
        None => true,
    }
    &&& forall|i: int|
        0 <= i < excluded_paths.len() ==> !path_starts_with(info.path@, #[trigger] excluded_paths[i])
}

fn contains_string(v: &Vec<String>, s: &str) -> (r: bool)
    ensures
        r == string_views(v@).contains(s@),
{
    let mut i: usize = 0;
    while i < v.len()
        invariant
            i <= v@.len(),
            forall|j: int| 0 <= j < i ==> v@[j]@ != s@,
        decreases v@.len() - i,
    {
        if str_eq(v[i].as_str(), s) {
            assert(string_views(v@)[i as int] == s@);
            return true;
        }
        i = i + 1;
    }
    proof {
        if string_views(v@).contains(s@) {
            let k = choose|k: int| 0 <= k < string_views(v@).len() && string_views(v@)[k] == s@;
            assert(v@[k]@ == s@);
        }
    }
    false
}

impl FileScanner {
    /// A scanner of files up to 100 MiB, reading 64 KiB at a time, that
    /// skips `tmp`, `log` and `bak` files.
    pub fn new() -> (r: Self)
        ensures
            r.max_file_size() == 100 * 1024 * 1024,
            r.buffer_size() == 64 * 1024,
            r.excluded_extension_list() == default_excluded_extensions(),
            r.excluded_path_list().len() == 0,
    {
        let mut excluded_extensions: Vec<String> = Vec::new();
        excluded_extensions.push(owned("tmp"));
        excluded_extensions.push(owned("log"));
        excluded_extensions.push(owned("bak"));
        let r = FileScanner {
            max_file_size: 100 * 1024 * 1024,
            buffer_size: 64 * 1024,
            excluded_extensions,
            excluded_paths: Vec::new(),
        };
        assert(string_views(r.excluded_extensions@) =~= default_excluded_extensions());
        r
    }

    /// The refusal of a file of `len` bytes that is too large to read,
    /// if it is: access denied, with its size.
    pub fn size_error(&self, len: u64) -> (r: Option<AntivirusError>)
        ensures
            len <= self.max_file_size() ==> r is None,
            len > self.max_file_size() ==> (r matches Some(AntivirusError::ScanEngine(ScanEngineError::FileAccessDenied(m)))
                && m@ == "File too large: "@ + decimal(len as nat) + " bytes"@),
    {
        if len <= self.max_file_size {
            return None;
        }
        let mut m = owned("File too large: ");
        let t = u64_to_string(len);
        m.append(t.as_str());
        m.append(" bytes");
        Some(AntivirusError::ScanEngine(ScanEngineError::FileAccessDenied(m)))
    }

    /// The signature bytes of a file: its first 16 bytes, or all of them
    /// when it is shorter.
    pub fn signature_bytes(&self, head: &[u8]) -> (r: Vec<u8>)
        ensures
            r@ == head@.take(if head@.len() < 16 { head@.len() as int } else { 16 }),
    {
        let n: usize = if head.len() < 16 { head.len() } else { 16 };
        let mut v: Vec<u8> = Vec::new();
        for i in 0..n
            invariant
                n <= head@.len(),
                v@ == head@.take(i as int),
        {
            v.push(head[i]);
            assert(v@ == head@.take(i + 1));
        }
        v
    }

    /// The largest file that is scanned, in bytes.
    #[verifier::when_used_as_spec(spec_max_file_size)]
    pub fn max_file_size(&self) -> (r: u64)
        ensures
            r == self.spec_max_file_size(),
    {
        self.max_file_size
    }

    /// The largest file that is scanned, in bytes.
    pub closed spec fn spec_max_file_size(&self) -> u64 {
        self.max_file_size
    }

    /// The size of the read buffer, in bytes.
    #[verifier::when_used_as_spec(spec_buffer_size)]
    pub fn buffer_size(&self) -> (r: usize)
        ensures
            r == self.spec_buffer_size(),
    {
        self.buffer_size
    }

    /// The size of the read buffer, in bytes.
    pub closed spec fn spec_buffer_size(&self) -> usize {
        self.buffer_size
    }

    /// The skipped extensions.
    pub closed spec fn excluded_extension_list(&self) -> Seq<Seq<char>> {
        string_views(self.excluded_extensions@)
    }

    /// The skipped directories.
    pub closed spec fn excluded_path_list(&self) -> Seq<Seq<char>> {
        string_views(self.excluded_paths@)
    }

    /// The settings as the scanner's decision reads them.
    pub open spec fn wants(&self, info: FileInfo) -> bool {
        scan_wanted(self.spec_max_file_size(), self.excluded_extension_list(), self.excluded_path_list(), info)
    }

    /// Sets the largest file that is scanned.
    pub fn with_max_file_size(self, size: u64) -> (r: Self)
        ensures
            r.max_file_size() == size,
            r.buffer_size() == self.buffer_size(),
            r.excluded_extension_list() == self.excluded_extension_list(),
            r.excluded_path_list() == self.excluded_path_list(),
    {
        let mut s = self;
        s.max_file_size = size;
        s
    }

    /// Sets the size of the read buffer.
    pub fn with_buffer_size(self, size: usize) -> (r: Self)
        ensures
            r.max_file_size() == self.max_file_size(),
            r.buffer_size() == size,
            r.excluded_extension_list() == self.excluded_extension_list(),
            r.excluded_path_list() == self.excluded_path_list(),
    {
        let mut s = self;
        s.buffer_size = size;
        s
    }

    /// Replaces the skipped extensions.
    pub fn with_excluded_extensions(self, extensions: Vec<String>) -> (r: Self)
        ensures
            r.max_file_size() == self.max_file_size(),
            r.buffer_size() == self.buffer_size(),
            r.excluded_extension_list() == string_views(extensions@),
            r.excluded_path_list() == self.excluded_path_list(),
    {
        let mut s = self;
        s.excluded_extensions = extensions;
        s
    }

    /// Replaces the skipped directories.
    pub fn with_excluded_paths(self, paths: Vec<String>) -> (r: Self)
        ensures
            r.max_file_size() == self.max_file_size(),
            r.buffer_size() == self.buffer_size(),
            r.excluded_extension_list() == self.excluded_extension_list(),
            r.excluded_path_list() == string_views(paths@),
    {
        let mut s = self;
        s.excluded_paths = paths;
        s
    }

    /// Whether the file is scanned: not larger than the limit, its extension
    /// not excluded, and under none of the excluded paths.
    pub fn should_scan_file(&self, file_info: &FileInfo) -> (r: bool)
        ensures
            r == self.wants(*file_info),
    {
        if file_info.size > self.max_file_size {
            return false;
        }
        match &file_info.extension {
            Some(ext) => {
                if contains_string(&self.excluded_extensions, ext.as_str()) {
                    return false;
                }
            },
            None => {},
        }
        let mut i: usize = 0;
        while i < self.excluded_paths.len()
            invariant
                i <= self.excluded_paths@.len(),
                forall|j: int|
                    0 <= j < i ==> !path_starts_with(
                        file_info.path@,
                        #[trigger] string_views(self.excluded_paths@)[j],
                    ),
            decreases self.excluded_paths@.len() - i,
        {
            if starts_with_path(file_info.path.as_str(), self.excluded_paths[i].as_str()) {
                assert(string_views(self.excluded_paths@)[i as int] == self.excluded_paths@[i as int]@);
                return false;
            }
            i = i + 1;
        }
        true
    }

    /// The file at `path` is an executable: its extension is one of the
    /// executable ones, or, where permission bits are known, one of the
    /// execute bits is set.
    pub fn is_executable_file(&self, path: &str, unix_mode: Option<u32>) -> (r: bool)
        ensures
            r == (match extension(path@) {
                Some(e) => executable_extension(lowercase(e)),
                None => false,
            } || match unix_mode {
                Some(m) => m & 0o111u32 != 0,
                None => false,
            }),
    {
        match extension_of(path) {
            Some(e) => {
                let ext = to_lowercase(e.as_str());
                if is_executable_extension(ext.as_str()) {
                    return true;
                }
            },
            None => {},
        }
        match unix_mode {
            Some(m) => m & 0o111u32 != 0,
            None => false,
        }
    }

    /// The MIME type that the file's extension, lowercased, announces.
    pub fn detect_mime_type(&self, path: &str) -> (r: Option<String>)
        ensures
            match r {
                Some(m) => extension(path@) is Some && mime_for(lowercase(extension(path@)->0))
                    == Some(m@),
                None => extension(path@) is None || mime_for(lowercase(extension(path@)->0)) is None,
            },
    {
        match extension_of(path) {
            Some(e) => {
                let ext = to_lowercase(e.as_str());
                mime_type_for(ext.as_str())
            },
            None => None,
        }
    }

    /// What is known of the file at `path` from its size, times and, where
    /// the platform has them, its permission bits: its extension,
    /// lowercased, whether it is executable, and the MIME type its extension
    /// announces.
    pub fn get_file_info(
        &self,
        path: &str,
        size: u64,
        modified: Timestamp,
        created: Timestamp,
        unix_mode: Option<u32>,
    ) -> (r: FileInfo)
        ensures
            r.path@ == path@,
            r.size == size,
            r.modified == modified,
            r.created == created,
            match r.extension {
                Some(e) => extension(path@) matches Some(x) && e@ == lowercase(x),
                None => extension(path@) is None,
            },
            r.is_executable == (match extension(path@) {
                Some(e) => executable_extension(lowercase(e)),
                None => false,
            } || match unix_mode {
                Some(m) => m & 0o111u32 != 0,
                None => false,
            }),
            match r.mime_type {
                Some(m) => extension(path@) is Some && mime_for(lowercase(extension(path@)->0))
                    == Some(m@),
                None => extension(path@) is None || mime_for(lowercase(extension(path@)->0)) is None,
            },
    {
        let ext = match extension_of(path) {
            Some(e) => Some(to_lowercase(e.as_str())),
            None => None,
        };
        FileInfo {
            path: owned(path),
            size,
            modified,
            created,
            is_executable: self.is_executable_file(path, unix_mode),
            extension: ext,
            mime_type: self.detect_mime_type(path),
        }
    }

    /// Whether the file's bytes carry the DOS and PE signatures.
    pub fn is_pe_file(&self, content: &[u8]) -> (r: bool)
        ensures
            r == pe_signature_ok(content@),
    {
        has_pe_signature(content)
    }

    /// The digests of the file's bytes.
    pub fn calculate_hashes(&self, data: &[u8]) -> (r: FileHashes)
        ensures
            r.sha256@ == hex_lower(sha256_of(data@)),
            r.md5@ == hex_lower(md5_of(data@)),
            r.sha1@ == hex_lower(sha1_of(data@)),
    {
        let a = sha256_digest(data);
        let b = md5_digest(data);
        let c = sha1_digest(data);
        FileHashes { sha256: to_hex(&a), md5: to_hex(&b), sha1: to_hex(&c) }
    }

    /// The SHA-256 digest of the file's bytes.
    pub fn calculate_sha256(&self, data: &[u8]) -> (r: String)
        ensures
            r@ == hex_lower(sha256_of(data@)),
            r@.len() == 64,
    {
        let a = sha256_digest(data);
        to_hex(&a)
    }
}

/// The extensions of executable files.
pub open spec fn executable_extension(e: Seq<char>) -> bool {
    e == "exe"@ || e == "dll"@ || e == "sys"@ || e == "com"@ || e == "scr"@ || e == "bat"@
        || e == "cmd"@ || e == "ps1"@ || e == "vbs"@ || e == "js"@
}

fn is_executable_extension(e: &str) -> (r: bool)
    ensures
        r == executable_extension(e@),
{
    str_eq(e, "exe") || str_eq(e, "dll") || str_eq(e, "sys") || str_eq(e, "com") || str_eq(e, "scr")
        || str_eq(e, "bat") || str_eq(e, "cmd") || str_eq(e, "ps1") || str_eq(e, "vbs")
        || str_eq(e, "js")
}

/// The MIME type announced by a lowercase extension.
pub open spec fn mime_for(e: Seq<char>) -> Option<Seq<char>> {
    if e == "exe"@ || e == "dll"@ || e == "sys"@ {
        Some("application/x-msdownload"@)
    } else if e == "pdf"@ {
        Some("application/pdf"@)
    } else if e == "doc"@ || e == "docx"@ {
        Some("application/msword"@)
    } else if e == "xls"@ || e == "xlsx"@ {
        Some("application/vnd.ms-excel"@)
    } else if e == "ppt"@ || e == "pptx"@ {
        Some("application/vnd.ms-powerpoint"@)
    } else if e == "zip"@ {
        Some("application/zip"@)
    } else if e == "rar"@ {
        Some("application/x-rar-compressed"@)
    } else if e == "7z"@ {
        Some("application/x-7z-compressed"@)
    } else if e == "txt"@ {
        Some("text/plain"@)
    } else if e == "html"@ || e == "htm"@ {
        Some("text/html"@)
    } else if e == "js"@ {
        Some("application/javascript"@)
    } else if e == "json"@ {
        Some("application/json"@)
    } else if e == "xml"@ {
        Some("application/xml"@)
    } else if e == "jpg"@ || e == "jpeg"@ {
        Some("image/jpeg"@)
    } else if e == "png"@ {
        Some("image/png"@)
    } else if e == "gif"@ {
        Some("image/gif"@)
    } else if e == "mp3"@ {
        Some("audio/mpeg"@)
    } else if e == "mp4"@ {
        Some("video/mp4"@)
    } else if e == "avi"@ {
        Some("video/x-msvideo"@)
    } else {
        None
    }
}

fn mime_type_for(e: &str) -> (r: Option<String>)
    ensures
        match r {
            Some(m) => mime_for(e@) == Some(m@),
            None => mime_for(e@) is None,
        },
{
    if str_eq(e, "exe") || str_eq(e, "dll") || str_eq(e, "sys") {
        Some(owned("application/x-msdownload"))
    } else if str_eq(e, "pdf") {
        Some(owned("application/pdf"))
    } else if str_eq(e, "doc") || str_eq(e, "docx") {
        Some(owned("application/msword"))
    } else if str_eq(e, "xls") || str_eq(e, "xlsx") {
        Some(owned("application/vnd.ms-excel"))
    } else if str_eq(e, "ppt") || str_eq(e, "pptx") {
        Some(owned("application/vnd.ms-powerpoint"))
    } else if str_eq(e, "zip") {
        Some(owned("application/zip"))
    } else if str_eq(e, "rar") {
        Some(owned("application/x-rar-compressed"))
    } else if str_eq(e, "7z") {
        Some(owned("application/x-7z-compressed"))
    } else if str_eq(e, "txt") {
        Some(owned("text/plain"))
    } else if str_eq(e, "html") || str_eq(e, "htm") {
        Some(owned("text/html"))
    } else if str_eq(e, "js") {
        Some(owned("application/javascript"))
    } else if str_eq(e, "json") {
        Some(owned("application/json"))
    } else if str_eq(e, "xml") {
        Some(owned("application/xml"))
    } else if str_eq(e, "jpg") || str_eq(e, "jpeg") {
        Some(owned("image/jpeg"))
    } else if str_eq(e, "png") {
        Some(owned("image/png"))
    } else if str_eq(e, "gif") {
        Some(owned("image/gif"))
    } else if str_eq(e, "mp3") {
        Some(owned("audio/mpeg"))
    } else if str_eq(e, "mp4") {
        Some(owned("video/mp4"))
    } else if str_eq(e, "avi") {
        Some(owned("video/x-msvideo"))
    } else {
        None
    }
}

/// What `sha2::Sha256::digest` gives for the bytes.
pub uninterp spec fn sha256_of(data: Seq<u8>) -> Seq<u8>;

/// What `md5::Md5::digest` gives for the bytes.
pub uninterp spec fn md5_of(data: Seq<u8>) -> Seq<u8>;

/// What `sha1::Sha1::digest` gives for the bytes.
pub uninterp spec fn sha1_of(data: Seq<u8>) -> Seq<u8>;

/// `sha2::Sha256::digest`: the 32-byte SHA-256 digest of the bytes, taken as
/// the named result `sha256_of`.
#[verifier::external_body]
pub(crate) fn sha256_digest(data: &[u8]) -> (r: Vec<u8>)
    ensures
        r@ == sha256_of(data@),
        r@.len() == 32,
{
    sha2::Sha256::digest(data).to_vec()
}

/// `md5::Md5::digest`: the 16-byte MD5 digest of the bytes, taken as the
/// named result `md5_of`.
#[verifier::external_body]
fn md5_digest(data: &[u8]) -> (r: Vec<u8>)
    ensures
        r@ == md5_of(data@),
        r@.len() == 16,
{
    md5::Md5::digest(data).to_vec()
}

/// `sha1::Sha1::digest`: the 20-byte SHA-1 digest of the bytes, taken as the
/// named result `sha1_of`.
#[verifier::external_body]
fn sha1_digest(data: &[u8]) -> (r: Vec<u8>)
    ensures
        r@ == sha1_of(data@),
        r@.len() == 20,
{
    sha1::Sha1::digest(data).to_vec()
}

/// The lowercase hexadecimal digit of a value below 16.
pub open spec fn hex_digit(d: int) -> char {
    if d < 10 {
        (('0' as int) + d) as char
    } else {
        (('a' as int) + d - 10) as char
    }
}

/// Bytes in lowercase hexadecimal, two digits each, as `{:x}` prints a digest.
pub open spec fn hex_lower(b: Seq<u8>) -> Seq<char>
    decreases b.len(),
{
    if b.len() == 0 {
        Seq::empty()
    } else {
        hex_lower(b.drop_last()).push(hex_digit(b.last() as int / 16)).push(hex_digit(b.last() as int % 16))
    }
}

/// Lowercase hexadecimal text of bytes holds only hexadecimal digits.
pub proof fn lemma_hex_lower_digits(b: Seq<u8>)
    ensures
        hex_lower(b).len() == 2 * b.len(),
        forall|i: int| 0 <= i < hex_lower(b).len() ==> is_hex_digit(#[trigger] hex_lower(b)[i]),
    decreases b.len(),
{
    if b.len() > 0 {
        lemma_hex_lower_digits(b.drop_last());
        let p = hex_lower(b.drop_last());
        let x = b.last() as int;
        assert(0 <= x / 16 < 16 && 0 <= x % 16 < 16);
        assert(is_hex_digit(hex_digit(x / 16)));
        assert(is_hex_digit(hex_digit(x % 16)));
        assert forall|i: int| 0 <= i < hex_lower(b).len() implies is_hex_digit(#[trigger] hex_lower(b)[i]) by {
            if i < p.len() {
                assert(hex_lower(b)[i] == p[i]);
            }
        }
    }
}

proof fn lemma_hex_len(b: Seq<u8>)
    ensures
        hex_lower(b).len() == 2 * b.len(),
    decreases b.len(),
{
    if b.len() > 0 {
        lemma_hex_len(b.drop_last());
    }
}

fn hex_char(d: u8) -> (c: char)
    requires
        d < 16,
    ensures
        c == hex_digit(d as int),
{
    let table: [char; 16] = ['0', '1', '2', '3', '4', '5', '6', '7', '8', '9', 'a', 'b', 'c', 'd', 'e', 'f'];
    let c = table[d as usize];
    assert(c == hex_digit(d as int)) by {
        assert(table@[d as int] == hex_digit(d as int));
    }
    c
}

/// Bytes in lowercase hexadecimal.
pub fn to_hex(b: &[u8]) -> (r: String)
    ensures
        r@ == hex_lower(b@),
        r@.len() == 2 * b@.len(),
{
    let mut s = String::new();
    let n = b.len();
    for i in 0..n
        invariant
            n == b@.len(),
            s@ == hex_lower(b@.take(i as int)),
    {
        let x = b[i];
        assert(b@.take(i + 1).drop_last() =~= b@.take(i as int));
        push_char(&mut s, hex_char(x / 16));
        push_char(&mut s, hex_char(x % 16));
    }
    assert(b@.take(n as int) =~= b@);
    proof {
        lemma_hex_len(b@);
    }
    s
}

/// Traversal settings of the directory walker.
pub struct DirectoryWalker {
    max_depth: Option<usize>,
    follow_symlinks: bool,
    excluded_dirs: Vec<String>,
}

/// The directory names that the walker skips by default.
pub open spec fn default_excluded_dirs() -> Seq<Seq<char>> {
    seq![
        "System Volume Information"@,
        "$Recycle.Bin"@,
        "Windows"@,
        "Program Files"@,
        "Program Files (x86)"@,
    ]
}

impl DirectoryWalker {
    /// A walker without depth limit that does not follow symbolic links and
    /// skips the system directories.
    pub fn new() -> (r: Self)
        ensures
            r.max_depth() is None,
            !r.follow_symlinks(),
            r.excluded_dir_list() == default_excluded_dirs(),
    {
        let mut excluded_dirs: Vec<String> = Vec::new();
        excluded_dirs.push(owned("System Volume Information"));
        excluded_dirs.push(owned("$Recycle.Bin"));
        excluded_dirs.push(owned("Windows"));
        excluded_dirs.push(owned("Program Files"));
        excluded_dirs.push(owned("Program Files (x86)"));
        let r = DirectoryWalker { max_depth: None, follow_symlinks: false, excluded_dirs };
        assert(string_views(r.excluded_dirs@) =~= default_excluded_dirs());
        r
    }

    /// The skipped directory names.
    pub closed spec fn excluded_dir_list(&self) -> Seq<Seq<char>> {
        string_views(self.excluded_dirs@)
    }

    /// The deepest level that is entered, if limited.
    #[verifier::when_used_as_spec(spec_max_depth)]
    pub fn max_depth(&self) -> (r: Option<usize>)
        ensures
            r == self.spec_max_depth(),
    {
        self.max_depth
    }

    /// The deepest level that is entered, if limited.
    pub closed spec fn spec_max_depth(&self) -> Option<usize> {
        self.max_depth
    }

    /// Whether symbolic links to directories are followed.
    #[verifier::when_used_as_spec(spec_follow_symlinks)]
    pub fn follow_symlinks(&self) -> (r: bool)
        ensures
            r == self.spec_follow_symlinks(),
    {
        self.follow_symlinks
    }

    /// Whether symbolic links to directories are followed.
    pub closed spec fn spec_follow_symlinks(&self) -> bool {
        self.follow_symlinks
    }

    /// Limits the depth of the walk.
    pub fn with_max_depth(self, depth: usize) -> (r: Self)
        ensures
            r.max_depth() == Some(depth),
            r.follow_symlinks() == self.follow_symlinks(),
            r.excluded_dir_list() == self.excluded_dir_list(),
    {
        let mut s = self;
        s.max_depth = Some(depth);
        s
    }

    /// Sets whether symbolic links are followed.
    pub fn with_follow_symlinks(self, follow: bool) -> (r: Self)
        ensures
            r.max_depth() == self.max_depth(),
            r.follow_symlinks() == follow,
            r.excluded_dir_list() == self.excluded_dir_list(),
    {
        let mut s = self;
        s.follow_symlinks = follow;
        s
    }

    /// Replaces the skipped directory names.
    pub fn with_excluded_dirs(self, dirs: Vec<String>) -> (r: Self)
        ensures
            r.max_depth() == self.max_depth(),
            r.follow_symlinks() == self.follow_symlinks(),
            r.excluded_dir_list() == string_views(dirs@),
    {
        let mut s = self;
        s.excluded_dirs = dirs;
        s
    }

    /// Whether the walk enters the directory `dir` found at `depth`: within
    /// the depth limit and not named like an excluded directory.
    pub fn should_enter(&self, dir: &str, depth: usize) -> (r: bool)
        ensures
            r == ((match self.max_depth() {
                Some(m) => depth <= m,
                None => true,
            }) && match file_name(dir@) {
                Some(n) => !self.excluded_dir_list().contains(n),
                None => true,
            }),
    {
        match self.max_depth {
            Some(m) => {
                if depth > m {
                    return false;
                }
            },
            None => {},
        }
        match file_name_of(dir) {
            Some(n) => !contains_string(&self.excluded_dirs, n.as_str()),
            None => true,
        }
    }

    /// Whether the walk descends into a subdirectory, given whether it is
    /// reached through a symbolic link.
    pub fn should_descend(&self, is_symlink: bool) -> (r: bool)
        ensures
            r == (self.follow_symlinks() || !is_symlink),
    {
        self.follow_symlinks || !is_symlink
    }
}

/// A byte that starts or continues a printable string: ASCII graphic or space.
pub open spec fn printable(b: u8) -> bool {
    0x20 <= b <= 0x7E
}

/// The state of the string extraction after reading `data`: the strings
/// found so far and the run of printable bytes under way.
pub open spec fn strings_state(data: Seq<u8>, min_length: nat) -> (Seq<Seq<char>>, Seq<char>)
    decreases data.len(),
{
    if data.len() == 0 {
        (Seq::empty(), Seq::empty())
    } else {
        let (found, cur) = strings_state(data.drop_last(), min_length);
        let b = data.last();
        if printable(b) {
            (found, cur.push(b as char))
        } else if cur.len() >= min_length {
            (found.push(cur), Seq::empty())
        } else {
            (found, Seq::empty())
        }
    }
}

/// The runs of at least `min_length` printable bytes in `data`, as strings.
pub open spec fn printable_strings(data: Seq<u8>, min_length: nat) -> Seq<Seq<char>> {
    let (found, cur) = strings_state(data, min_length);
    if cur.len() >= min_length {
        found.push(cur)
    } else {
        found
    }
}

/// The runs of at least `min_length` printable ASCII bytes (graphic
/// characters and spaces) in `data`, in order.
pub fn extract_strings(data: &[u8], min_length: usize) -> (r: Vec<String>)
    ensures
        string_views(r@) == printable_strings(data@, min_length as nat),
{
    let mut strings: Vec<String> = Vec::new();
    let mut current = String::new();
    let n = data.len();
    for i in 0..n
        invariant
            n == data@.len(),
            string_views(strings@) == strings_state(data@.take(i as int), min_length as nat).0,
            current@ == strings_state(data@.take(i as int), min_length as nat).1,
    {
        let b = data[i];
        assert(data@.take(i + 1).drop_last() =~= data@.take(i as int));
        if 0x20 <= b && b <= 0x7E {
            push_char(&mut current, b as char);
        } else {
            if current.as_str().unicode_len() >= min_length {
                let ghost before = string_views(strings@);
                let c = current.clone();
                strings.push(c);
                assert(string_views(strings@) =~= before.push(current@));
            }
            current = String::new();
        }
    }
    assert(data@.take(n as int) =~= data@);
    if current.as_str().unicode_len() >= min_length {
        let ghost before = string_views(strings@);
        let ghost cur = current@;
        strings.push(current);
        assert(string_views(strings@) =~= before.push(cur));
    }
    strings
}

} // verus!
