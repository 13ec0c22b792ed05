//! Static inspection of Windows PE images: the DOS/PE signature check, the
//! table of suspicious imports, packer signatures, code caves and the
//! characteristics that make an image suspicious.
use vstd::prelude::*;
use vstd::string::StringExecFns;
use crate::float_bits::{f64_lt, lt_bits, SEVEN, SIX_AND_HALF};
use crate::heuristic::{CodeCave, ExportFunction, ImportFunction, PEAnalysisResult, PESection, ResourceEntry};
use crate::text::{decimal, lowercase, owned, seq_contains, str_contains, to_lowercase, u64_to_string};

verus! {

/// How many bytes of `s` equal `b`.
pub open spec fn count_byte(s: Seq<u8>, b: u8) -> nat
    decreases s.len(),
{
    if s.len() == 0 {
        0
    } else {
        count_byte(s.drop_last(), b) + if s.last() == b { 1nat } else { 0nat }
    }
}

proof fn lemma_count_byte_le(s: Seq<u8>, b: u8)
    ensures
        count_byte(s, b) <= s.len(),
    decreases s.len(),
{
    if s.len() > 0 {
        lemma_count_byte_le(s.drop_last(), b);
    }
}

/// The frequency of each byte value in `data`, the basis of its Shannon
/// entropy: entry `b` counts the bytes equal to `b`.
pub fn byte_counts(data: &[u8]) -> (r: Vec<u64>)
    ensures
        r@.len() == 256,
        forall|b: int| 0 <= b < 256 ==> #[trigger] r@[b] == count_byte(data@, b as u8),
{
    let mut counts: Vec<u64> = Vec::new();
    for k in 0..256usize
        invariant
            counts@.len() == k,
            forall|b: int| 0 <= b < k ==> #[trigger] counts@[b] == 0,
    {
        counts.push(0);
    }
    let n = data.len();
    assert(data@.take(0) =~= Seq::<u8>::empty());
    for i in 0..n
        invariant
            n == data@.len(),
            counts@.len() == 256,
            forall|b: int| 0 <= b < 256 ==> #[trigger] counts@[b] == count_byte(data@.take(i as int), b as u8),
    {
        let x = data[i];
        let ix = x as usize;
        proof {
            assert(data@.take(i + 1).drop_last() =~= data@.take(i as int));
            assert(data@.take(i + 1).last() == x);
            lemma_count_byte_le(data@.take(i as int), x);
            assert(counts@[ix as int] == count_byte(data@.take(i as int), ix as u8));
            assert(ix as u8 == x);
        }
        let c = counts[ix];
        counts.set(ix, c + 1);
        proof {
            assert forall|b: int| 0 <= b < 256 implies #[trigger] counts@[b] == count_byte(data@.take(i + 1), b as u8) by {
                if b == ix as int {
                    assert(b as u8 == x);
                } else {
                    assert((b as u8) != x);
                }
            }
        }
    }
    assert(data@.take(n as int) =~= data@);
    counts
}

/// A Windows API import that malware commonly uses.
#[derive(Debug, Clone)]
pub struct SuspiciousImport {
    pub dll: String,
    pub function: String,
    pub risk_level: u8,
    pub description: String,
    pub category: String,
}

/// The marks that a packer leaves in an image.
#[derive(Debug, Clone)]
pub struct PackerSignature {
    pub name: String,
    pub signature: Vec<u8>,
    pub offset: usize,
    pub section_name: Option<String>,
}

/// The PE analyzer: suspicious imports grouped by library, and packer
/// signatures.
pub struct AdvancedPEAnalyzer {
    suspicious_imports: Vec<(String, Vec<SuspiciousImport>)>,
    packer_signatures: Vec<PackerSignature>,
}

/// An import row: function, risk level, description, category.
pub type ImportRow = (Seq<char>, u8, Seq<char>, Seq<char>);

/// The suspicious imports, grouped by library, in the analyzer's order.
pub open spec fn import_table() -> Seq<(Seq<char>, Seq<ImportRow>)> {
    seq![
        ("kernel32.dll"@, seq![
            ("CreateRemoteThread"@, 9u8, "Used for code injection"@, "Code Injection"@),
            ("WriteProcessMemory"@, 8u8, "Used to write to other process memory"@, "Code Injection"@),
            ("VirtualAllocEx"@, 7u8, "Allocates memory in other processes"@, "Code Injection"@),
            ("SetWindowsHookEx"@, 8u8, "Used for keylogging and API hooking"@, "Hooking"@),
            ("CreateToolhelp32Snapshot"@, 6u8, "Used to enumerate processes"@, "Process Enumeration"@),
            ("OpenProcess"@, 6u8, "Opens handle to other processes"@, "Process Manipulation"@),
        ]),
        ("user32.dll"@, seq![
            ("GetAsyncKeyState"@, 9u8, "Used for keylogging"@, "Keylogging"@),
            ("GetKeyState"@, 8u8, "Used for keylogging"@, "Keylogging"@),
            ("SetWindowsHookEx"@, 8u8, "Used for API hooking"@, "Hooking"@),
            ("FindWindow"@, 5u8, "Used to find specific windows"@, "Window Manipulation"@),
        ]),
        ("advapi32.dll"@, seq![
            ("RegSetValueEx"@, 7u8, "Modifies registry values"@, "Registry Modification"@),
            ("RegCreateKeyEx"@, 6u8, "Creates registry keys"@, "Registry Modification"@),
            ("CryptEncrypt"@, 8u8, "Used for encryption (potential ransomware)"@, "Cryptography"@),
            ("CryptGenKey"@, 7u8, "Generates cryptographic keys"@, "Cryptography"@),
        ]),
        ("wininet.dll"@, seq![
            ("InternetOpenUrl"@, 6u8, "Opens internet connections"@, "Network Communication"@),
            ("HttpSendRequest"@, 6u8, "Sends HTTP requests"@, "Network Communication"@),
        ]),
    ]
}

/// The import describes the row of the library `dll`.
pub open spec fn import_is(i: SuspiciousImport, dll: Seq<char>, row: ImportRow) -> bool {
    &&& i.dll@ == dll
    &&& i.function@ == row.0
    &&& i.risk_level == row.1
    &&& i.description@ == row.2
    &&& i.category@ == row.3
}

/// The imports of one library match the rows.
pub open spec fn imports_are(v: Seq<SuspiciousImport>, dll: Seq<char>, rows: Seq<ImportRow>) -> bool {
    v.len() == rows.len() && forall|j: int| 0 <= j < v.len() ==> import_is(#[trigger] v[j], dll, rows[j])
}

/// The grouped imports match the table.
pub open spec fn table_is(t: Seq<(String, Vec<SuspiciousImport>)>, spec_t: Seq<(Seq<char>, Seq<ImportRow>)>) -> bool {
    &&& t.len() == spec_t.len()
    &&& forall|i: int|
        0 <= i < t.len() ==> (#[trigger] t[i]).0@ == spec_t[i].0 && imports_are(t[i].1@, spec_t[i].0, spec_t[i].1)
}

/// A packer signature: name, bytes and section name.
pub type PackerRow = (Seq<char>, Seq<u8>, Seq<char>);

/// The known packers.
pub open spec fn packer_table() -> Seq<PackerRow> {
    seq![
        ("UPX"@, seq![0x55u8, 0x50, 0x58, 0x21], "UPX0"@),
        (
            "ASPack"@,
            seq![0x2Eu8, 0x61, 0x73, 0x70, 0x61, 0x63, 0x6B],
            ".aspack"@,
        ),
        (
            "PECompact"@,
            seq![0x50u8, 0x45, 0x43, 0x6F, 0x6D, 0x70, 0x61, 0x63, 0x74, 0x32],
            "PEC2TO"@,
        ),
        (
            "Themida"@,
            seq![0x2Eu8, 0x74, 0x68, 0x65, 0x6D, 0x69, 0x64, 0x61],
            ".themida"@,
        ),
    ]
}

/// The signature matches its row: offset 0 and a section name.
pub open spec fn packer_is(p: PackerSignature, row: PackerRow) -> bool {
    &&& p.name@ == row.0
    &&& p.signature@ == row.1
    &&& p.offset == 0
    &&& p.section_name matches Some(s) && s@ == row.2
}

/// The signatures match the table of known packers.
pub open spec fn packers_are(v: Seq<PackerSignature>) -> bool {
    v.len() == packer_table().len() && forall|i: int|
        0 <= i < v.len() ==> packer_is(#[trigger] v[i], packer_table()[i])
}

fn import(dll: &str, function: &str, risk_level: u8, description: &str, category: &str) -> (r: SuspiciousImport)
    ensures
        r.dll@ == dll@,
        r.function@ == function@,
        r.risk_level == risk_level,
        r.description@ == description@,
        r.category@ == category@,
{
    SuspiciousImport {
        dll: owned(dll),
        function: owned(function),
        risk_level,
        description: owned(description),
        category: owned(category),
    }
}

fn packer(name: &str, signature: Vec<u8>, section: &str) -> (r: PackerSignature)
    ensures
        r.name@ == name@,
        r.signature@ == signature@,
        r.offset == 0,
        r.section_name matches Some(s) && s@ == section@,
{
    PackerSignature { name: owned(name), signature, offset: 0, section_name: Some(owned(section)) }
}

/// Where the PE header starts: the little-endian word at byte 60, except
/// that a word of 60, which points at the word itself (where the signature
/// can never stand, as its first byte is 60), is read as the end of the
/// 64-byte DOS header, offset 64.
pub open spec fn pe_header_offset(c: Seq<u8>) -> int {
    let word = c[60] as int + 256 * (c[61] as int) + 65536 * (c[62] as int) + 16777216 * (c[63] as int);
    if word == 60 {
        64
    } else {
        word
    }
}

/// The PE signature check: at least 64 bytes, `MZ` first, and `PE\0\0` at
/// the PE header offset.
pub open spec fn pe_signature_ok(c: Seq<u8>) -> bool {
    &&& c.len() >= 64
    &&& c[0] == 0x4D
    &&& c[1] == 0x5A
    &&& {
        let off = pe_header_offset(c);
        &&& off + 4 <= c.len()
        &&& c[off] == 0x50
        &&& c[off + 1] == 0x45
        &&& c[off + 2] == 0x00
        &&& c[off + 3] == 0x00
    }
}

/// Whether the bytes carry the DOS and PE signatures.
pub fn has_pe_signature(content: &[u8]) -> (r: bool)
    ensures
        r == pe_signature_ok(content@),
{
    if content.len() < 64 {
        return false;
    }
    if content[0] != 0x4D || content[1] != 0x5A {
        return false;
    }
    let off: u64 = content[60] as u64 + 256 * (content[61] as u64) + 65536 * (content[62] as u64)
        + 16777216 * (content[63] as u64);
    let off: u64 = if off == 60 { 64 } else { off };
    if (content.len() as u64) < 4 || off > content.len() as u64 - 4 {
        return false;
    }
    let o = off as usize;
    content[o] == 0x50 && content[o + 1] == 0x45 && content[o + 2] == 0x00 && content[o + 3] == 0x00
}

/// The `len` bytes of `c` from position `j`.
pub open spec fn window(c: Seq<u8>, j: int, len: int) -> Seq<u8> {
    c.subrange(j, j + len)
}

/// `sig` occurs in `c` at `i`, and at no earlier position.
pub open spec fn first_at(c: Seq<u8>, sig: Seq<u8>, i: int) -> bool {
    &&& 0 <= i && i + sig.len() <= c.len()
    &&& window(c, i, sig.len() as int) == sig
    &&& forall|j: int| 0 <= j < i ==> #[trigger] window(c, j, sig.len() as int) != sig
}

/// `sig` occurs nowhere in `c`.
pub open spec fn absent(c: Seq<u8>, sig: Seq<u8>) -> bool {
    forall|j: int| 0 <= j && j + sig.len() <= c.len() ==> #[trigger] window(c, j, sig.len() as int) != sig
}

/// The names that mark a section as packed.
pub open spec fn packed_section_names() -> Seq<Seq<char>> {
    seq![".packed"@, ".upx"@, ".aspack"@, ".themida"@, ".vmp"@]
}

/// A section is suspicious: entropy above 7, writable code, or a packer's
/// name in its lowercased name.
pub open spec fn section_suspicious(s: PESection) -> bool {
    ||| f64_lt(SEVEN, s.entropy)
    ||| (s.is_executable && s.is_writable)
    ||| exists|k: int| 0 <= k < 5 && seq_contains(lowercase(s.name@), #[trigger] packed_section_names()[k])
}

/// The state of the cave scan after `n` bytes: where the current run of
/// 0x00/0x90 bytes started and how long it is, and the caves found so far
/// (offset and size).
pub open spec fn cave_scan(c: Seq<u8>, n: int) -> (Option<int>, int, Seq<(int, int)>)
    decreases n,
{
    if n <= 0 {
        (None, 0, Seq::empty())
    } else {
        let (start, count, found) = cave_scan(c, n - 1);
        let b = c[n - 1];
        if b == 0x00 || b == 0x90 {
            (if start is None { Some(n - 1) } else { start }, count + 1, found)
        } else {
            match start {
                Some(s) => if count >= 32 {
                    (None, 0, found.push((s, count)))
                } else {
                    (None, 0, found)
                },
                None => (None, 0, found),
            }
        }
    }
}

/// The caves of the content: runs of at least 32 bytes of 0x00 or 0x90 that
/// some other byte ends.
pub open spec fn caves_of(c: Seq<u8>) -> Seq<(int, int)> {
    cave_scan(c, c.len() as int).2
}

/// The caves reported for the sections: the content's caves once for each
/// executable section, labelled with its name.
pub open spec fn caves_for(c: Seq<u8>, sections: Seq<PESection>) -> Seq<(int, int, Seq<char>)>
    decreases sections.len(),
{
    if sections.len() == 0 {
        Seq::empty()
    } else {
        let prior = caves_for(c, sections.drop_last());
        if sections.last().is_executable {
            prior + caves_of(c).map_values(|cv: (int, int)| (cv.0, cv.1, sections.last().name@))
        } else {
            prior
        }
    }
}

/// The caves as offsets, sizes and section names.
pub open spec fn cave_views(v: Seq<CodeCave>) -> Seq<(int, int, Seq<char>)> {
    Seq::new(v.len(), |i: int| (v[i].offset as int, v[i].size as int, v[i].section@))
}

impl AdvancedPEAnalyzer {
    /// Every packer signature has at least one byte.
    #[verifier::type_invariant]
    closed spec fn signatures_nonempty(&self) -> bool {
        forall|i: int| 0 <= i < self.packer_signatures@.len() ==> (#[trigger] self.packer_signatures@[i]).signature@.len() > 0
    }

    /// An analyzer with the built-in import table and packer signatures.
    pub fn new() -> (r: Self)
        ensures
            table_is(r.imports_table(), import_table()),
            packers_are(r.packers()),
    {
        AdvancedPEAnalyzer {
            suspicious_imports: Self::load_suspicious_imports(),
            packer_signatures: Self::load_packer_signatures(),
        }
    }

    /// The suspicious imports, grouped by library.
    pub closed spec fn imports_table(&self) -> Seq<(String, Vec<SuspiciousImport>)> {
        self.suspicious_imports@
    }

    /// The packer signatures.
    pub closed spec fn packers(&self) -> Seq<PackerSignature> {
        self.packer_signatures@
    }

    /// The number of libraries with suspicious imports.
    pub fn import_library_count(&self) -> (r: usize)
        ensures
            r == self.imports_table().len(),
    {
        self.suspicious_imports.len()
    }

    /// The number of packer signatures.
    pub fn packer_signature_count(&self) -> (r: usize)
        ensures
            r == self.packers().len(),
    {
        self.packer_signatures.len()
    }

    #[verifier::rlimit(40)]
    fn load_suspicious_imports() -> (r: Vec<(String, Vec<SuspiciousImport>)>)
        ensures
            table_is(r@, import_table()),
    {
        let mut imports: Vec<(String, Vec<SuspiciousImport>)> = Vec::new();
        let mut k: Vec<SuspiciousImport> = Vec::new();
        k.push(import("kernel32.dll", "CreateRemoteThread", 9, "Used for code injection", "Code Injection"));
        k.push(import("kernel32.dll", "WriteProcessMemory", 8, "Used to write to other process memory", "Code Injection"));
        k.push(import("kernel32.dll", "VirtualAllocEx", 7, "Allocates memory in other processes", "Code Injection"));
        k.push(import("kernel32.dll", "SetWindowsHookEx", 8, "Used for keylogging and API hooking", "Hooking"));
        k.push(import("kernel32.dll", "CreateToolhelp32Snapshot", 6, "Used to enumerate processes", "Process Enumeration"));
        k.push(import("kernel32.dll", "OpenProcess", 6, "Opens handle to other processes", "Process Manipulation"));
        assert(imports_are(k@, import_table()[0].0, import_table()[0].1));
        imports.push((owned("kernel32.dll"), k));
        let mut u: Vec<SuspiciousImport> = Vec::new();
        u.push(import("user32.dll", "GetAsyncKeyState", 9, "Used for keylogging", "Keylogging"));
        u.push(import("user32.dll", "GetKeyState", 8, "Used for keylogging", "Keylogging"));
        u.push(import("user32.dll", "SetWindowsHookEx", 8, "Used for API hooking", "Hooking"));
        u.push(import("user32.dll", "FindWindow", 5, "Used to find specific windows", "Window Manipulation"));
        assert(imports_are(u@, import_table()[1].0, import_table()[1].1));
        imports.push((owned("user32.dll"), u));
        let mut a: Vec<SuspiciousImport> = Vec::new();
        a.push(import("advapi32.dll", "RegSetValueEx", 7, "Modifies registry values", "Registry Modification"));
        a.push(import("advapi32.dll", "RegCreateKeyEx", 6, "Creates registry keys", "Registry Modification"));
        a.push(import("advapi32.dll", "CryptEncrypt", 8, "Used for encryption (potential ransomware)", "Cryptography"));
        a.push(import("advapi32.dll", "CryptGenKey", 7, "Generates cryptographic keys", "Cryptography"));
        assert(imports_are(a@, import_table()[2].0, import_table()[2].1));
        imports.push((owned("advapi32.dll"), a));
        let mut w: Vec<SuspiciousImport> = Vec::new();
        w.push(import("wininet.dll", "InternetOpenUrl", 6, "Opens internet connections", "Network Communication"));
        w.push(import("wininet.dll", "HttpSendRequest", 6, "Sends HTTP requests", "Network Communication"));
        assert(imports_are(w@, import_table()[3].0, import_table()[3].1));
        imports.push((owned("wininet.dll"), w));
        imports
    }

    fn load_packer_signatures() -> (r: Vec<PackerSignature>)
        ensures
            packers_are(r@),
    {
        let mut v: Vec<PackerSignature> = Vec::new();
        v.push(packer("UPX", vec![0x55u8, 0x50, 0x58, 0x21], "UPX0"));
        v.push(packer("ASPack", vec![0x2Eu8, 0x61, 0x73, 0x70, 0x61, 0x63, 0x6B], ".aspack"));
        v.push(packer(
            "PECompact",
            vec![0x50u8, 0x45, 0x43, 0x6F, 0x6D, 0x70, 0x61, 0x63, 0x74, 0x32],
            "PEC2TO",
        ));
        v.push(packer("Themida", vec![0x2Eu8, 0x74, 0x68, 0x65, 0x6D, 0x69, 0x64, 0x61], ".themida"));
        v
    }

    /// Whether the bytes carry the DOS and PE signatures.
    pub fn is_pe_file(&self, content: &[u8]) -> (r: bool)
        ensures
            r == pe_signature_ok(content@),
    {
        has_pe_signature(content)
    }

    /// The byte frequencies of the two sections whose entropies the
    /// analysis reports: `.text` (0x1000 bytes at 0x400) and `.data` (0x800
    /// bytes at 0x1400); none for a section past the end of the content.
    pub fn section_counts(&self, content: &[u8]) -> (r: (Option<Vec<u64>>, Option<Vec<u64>>))
        ensures
            0x1400 > content@.len() ==> r.0 is None,
            0x1400 <= content@.len() ==> (r.0 matches Some(v) && v@.len() == 256 && forall|b: int|
                0 <= b < 256 ==> #[trigger] v@[b] == count_byte(content@.subrange(0x400, 0x1400), b as u8)),
            0x1C00 > content@.len() ==> r.1 is None,
            0x1C00 <= content@.len() ==> (r.1 matches Some(v) && v@.len() == 256 && forall|b: int|
                0 <= b < 256 ==> #[trigger] v@[b] == count_byte(content@.subrange(0x1400, 0x1C00), b as u8)),
    {
        (self.section_byte_counts(content, 0x400, 0x1000), self.section_byte_counts(content, 0x1400, 0x800))
    }

    /// The two sections that the analyzer reports, `.text` and `.data`, with
    /// the given entropies and their suspicion worked out.
    pub fn parse_sections(&self, text_entropy: u64, data_entropy: u64) -> (r: Vec<PESection>)
        ensures
            r@.len() == 2,
            r@[0].name@ == ".text"@,
            r@[0].virtual_size == 0x1000,
            r@[0].raw_size == 0x1000,
            r@[0].characteristics == 0x60000020,
            r@[0].entropy == text_entropy,
            r@[0].is_executable,
            !r@[0].is_writable,
            r@[1].name@ == ".data"@,
            r@[1].virtual_size == 0x800,
            r@[1].raw_size == 0x800,
            r@[1].characteristics == 0xC0000040,
            r@[1].entropy == data_entropy,
            !r@[1].is_executable,
            r@[1].is_writable,
            forall|i: int| 0 <= i < 2 ==> (#[trigger] r@[i]).is_suspicious == section_suspicious(r@[i]),
    {
        let mut text = PESection {
            name: owned(".text"),
            virtual_size: 0x1000,
            raw_size: 0x1000,
            characteristics: 0x60000020,
            entropy: text_entropy,
            is_executable: true,
            is_writable: false,
            is_suspicious: false,
        };
        let mut data = PESection {
            name: owned(".data"),
            virtual_size: 0x800,
            raw_size: 0x800,
            characteristics: 0xC0000040,
            entropy: data_entropy,
            is_executable: false,
            is_writable: true,
            is_suspicious: false,
        };
        text.is_suspicious = self.is_section_suspicious(&text);
        data.is_suspicious = self.is_section_suspicious(&data);
        let mut r: Vec<PESection> = Vec::new();
        r.push(text);
        r.push(data);
        r
    }

    /// Whether a section looks packed or tampered with.
    pub fn is_section_suspicious(&self, section: &PESection) -> (r: bool)
        ensures
            r == section_suspicious(*section),
    {
        if lt_bits(SEVEN, section.entropy) {
            return true;
        }
        if section.is_executable && section.is_writable {
            return true;
        }
        let lower = to_lowercase(section.name.as_str());
        let names: [&str; 5] = [".packed", ".upx", ".aspack", ".themida", ".vmp"];
        let mut k: usize = 0;
        while k < 5
            invariant
                k <= 5,
                lower@ == lowercase(section.name@),
                forall|j: int| 0 <= j < 5 ==> (#[trigger] names@[j])@ == packed_section_names()[j],
                forall|j: int| 0 <= j < k ==> !seq_contains(lower@, #[trigger] packed_section_names()[j]),
            decreases 5 - k,
        {
            if str_contains(lower.as_str(), names[k]) {
                return true;
            }
            k = k + 1;
        }
        false
    }

    /// The imports that the analyzer reports: every row of its table,
    /// library by library, marked suspicious.
    pub fn parse_imports(&self) -> (r: Vec<ImportFunction>)
        ensures
            import_views(r@) == flat_imports(self.imports_table()),
    {
        let mut out: Vec<ImportFunction> = Vec::new();
        let n = self.suspicious_imports.len();
        for i in 0..n
            invariant
                n == self.suspicious_imports@.len(),
                import_views(out@) == flat_imports(self.suspicious_imports@.take(i as int)),
        {
            let (dll, functions) = &self.suspicious_imports[i];
            assert(self.suspicious_imports@.take(i + 1).drop_last() =~= self.suspicious_imports@.take(i as int));
            let m = functions.len();
            let ghost base = import_views(out@);
            let ghost rows = functions@.map_values(|f: SuspiciousImport| (dll@, f.function@, true, f.risk_level));
            for j in 0..m
                invariant
                    m == functions@.len(),
                    rows == functions@.map_values(|f: SuspiciousImport| (dll@, f.function@, true, f.risk_level)),
                    import_views(out@) == base + rows.take(j as int),
            {
                let f = &functions[j];
                let ghost before = import_views(out@);
                out.push(ImportFunction {
                    dll: dll.clone(),
                    function: f.function.clone(),
                    is_suspicious: true,
                    risk_level: f.risk_level,
                });
                assert(import_views(out@) =~= before.push(rows[j as int]));
                assert(rows.take(j + 1) =~= rows.take(j as int).push(rows[j as int]));
            }
            assert(rows.take(m as int) =~= rows);
        }
        assert(self.suspicious_imports@.take(n as int) =~= self.suspicious_imports@);
        out
    }

    /// The exports that the analyzer reports: `DllMain`, ordinal 1.
    pub fn parse_exports(&self) -> (r: Vec<ExportFunction>)
        ensures
            r@.len() == 1,
            r@[0].function@ == "DllMain"@,
            r@[0].ordinal == 1,
            !r@[0].is_suspicious,
    {
        let mut v: Vec<ExportFunction> = Vec::new();
        v.push(ExportFunction { function: owned("DllMain"), ordinal: 1, is_suspicious: false });
        v
    }

    /// The resources that the analyzer reports: one 1 KiB icon of entropy 6.5.
    pub fn parse_resources(&self) -> (r: Vec<ResourceEntry>)
        ensures
            r@.len() == 1,
            r@[0].resource_type@ == "RT_ICON"@,
            r@[0].size == 1024,
            r@[0].entropy == SIX_AND_HALF,
            !r@[0].is_suspicious,
    {
        let mut v: Vec<ResourceEntry> = Vec::new();
        v.push(ResourceEntry {
            resource_type: owned("RT_ICON"),
            size: 1024,
            entropy: SIX_AND_HALF,
            is_suspicious: false,
        });
        v
    }

    /// The first position at which `signature` occurs in `content`.
    pub fn find_signature(&self, content: &[u8], signature: &[u8]) -> (r: Option<usize>)
        requires
            signature@.len() > 0,
        ensures
            match r {
                Some(i) => first_at(content@, signature@, i as int),
                None => absent(content@, signature@),
            },
    {
        let n = content.len();
        let m = signature.len();
        if m > n {
            return None;
        }
        let mut i: usize = 0;
        while i <= n - m
            invariant
                m == signature@.len(),
                n == content@.len(),
                m <= n,
                i <= n - m + 1,
                forall|j: int| 0 <= j < i ==> #[trigger] window(content@, j, m as int) != signature@,
            decreases n - m + 1 - i,
        {
            let mut k: usize = 0;
            let mut same = true;
            while k < m
                invariant
                    m == signature@.len(),
                    n == content@.len(),
                    i + m <= n,
                    k <= m,
                    same <==> forall|t: int| 0 <= t < k ==> content@[i + t] == signature@[t],
                decreases m - k,
            {
                if content[i + k] != signature[k] {
                    same = false;
                }
                k = k + 1;
            }
            if same {
                assert(window(content@, i as int, m as int) =~= signature@);
                return Some(i);
            }
            proof {
                let t = choose|t: int| 0 <= t < m && content@[i + t] != signature@[t];
                assert(window(content@, i as int, m as int)[t] != signature@[t]);
            }
            i = i + 1;
        }
        None
    }

    /// The overlay size that the analyzer reports: always 0.
    /// The byte frequencies of the section at `offset` of `size` bytes, the
    /// basis of its entropy; none when the section runs past the content
    /// (its entropy is then zero).
    pub fn section_byte_counts(&self, content: &[u8], offset: usize, size: usize) -> (r: Option<Vec<u64>>)
        ensures
            offset + size > content@.len() ==> r is None,
            offset + size <= content@.len() ==> (r matches Some(v) && v@.len() == 256 && forall|b: int|
                0 <= b < 256 ==> #[trigger] v@[b] == count_byte(content@.subrange(offset as int, offset + size), b as u8)),
    {
        if offset > content.len() || size > content.len() - offset {
            return None;
        }
        let section = &content[offset..offset + size];
        assert(section@ =~= content@.subrange(offset as int, offset + size));
        Some(byte_counts(section))
    }

    pub fn calculate_overlay_size(&self, _content: &[u8]) -> (r: u64)
        ensures
            r == 0,
    {
        0
    }
}

/// The imports as library, function, suspicion and risk level.
pub open spec fn import_views(v: Seq<ImportFunction>) -> Seq<(Seq<char>, Seq<char>, bool, u8)> {
    Seq::new(v.len(), |i: int| (v[i].dll@, v[i].function@, v[i].is_suspicious, v[i].risk_level))
}

/// The rows of a grouped table, library by library, as suspicious imports.
pub open spec fn flat_imports(t: Seq<(String, Vec<SuspiciousImport>)>) -> Seq<(Seq<char>, Seq<char>, bool, u8)>
    decreases t.len(),
{
    if t.len() == 0 {
        Seq::empty()
    } else {
        flat_imports(t.drop_last()) + t.last().1@.map_values(
            |f: SuspiciousImport| (t.last().0@, f.function@, true, f.risk_level),
        )
    }
}

/// The first packer from `k` on whose signature occurs in the content.
pub open spec fn signature_hit(c: Seq<u8>, sigs: Seq<PackerSignature>, k: int) -> Option<Seq<char>>
    decreases sigs.len() - k,
{
    if k < 0 || k >= sigs.len() {
        None
    } else if !absent(c, sigs[k].signature@) {
        Some(sigs[k].name@)
    } else {
        signature_hit(c, sigs, k + 1)
    }
}

/// The first packer from `k` on whose section name, lowercased, the
/// lowercased section name contains.
pub open spec fn name_hit(name: Seq<char>, sigs: Seq<PackerSignature>, k: int) -> Option<Seq<char>>
    decreases sigs.len() - k,
{
    if k < 0 || k >= sigs.len() {
        None
    } else if sigs[k].section_name is Some && seq_contains(
        lowercase(name),
        lowercase(sigs[k].section_name->0@),
    ) {
        Some(sigs[k].name@)
    } else {
        name_hit(name, sigs, k + 1)
    }
}

/// The packer named by the first section from `i` on that names one.
pub open spec fn section_hit(sections: Seq<PESection>, sigs: Seq<PackerSignature>, i: int) -> Option<Seq<char>>
    decreases sections.len() - i,
{
    if i < 0 || i >= sections.len() {
        None
    } else if name_hit(sections[i].name@, sigs, 0) is Some {
        name_hit(sections[i].name@, sigs, 0)
    } else {
        section_hit(sections, sigs, i + 1)
    }
}

/// The number of sections with entropy above 7.
pub open spec fn high_entropy_count(sections: Seq<PESection>) -> nat
    decreases sections.len(),
{
    if sections.len() == 0 {
        0
    } else {
        high_entropy_count(sections.drop_last()) + if f64_lt(SEVEN, sections.last().entropy) { 1nat } else { 0nat }
    }
}

/// The packer that the analyzer reports: one whose signature occurs in the
/// content, else one named by a section, else an unknown one when more than
/// one section has entropy above 7.
pub open spec fn packer_verdict(c: Seq<u8>, sigs: Seq<PackerSignature>, sections: Seq<PESection>) -> Option<Seq<char>> {
    if signature_hit(c, sigs, 0) is Some {
        signature_hit(c, sigs, 0)
    } else if section_hit(sections, sigs, 0) is Some {
        section_hit(sections, sigs, 0)
    } else if high_entropy_count(sections) > 1 {
        Some("Unknown Packer"@)
    } else {
        None
    }
}

proof fn lemma_no_signature_hit(c: Seq<u8>, sigs: Seq<PackerSignature>, k: int)
    requires
        0 <= k,
        forall|j: int| 0 <= j < sigs.len() ==> absent(c, #[trigger] sigs[j].signature@),
    ensures
        signature_hit(c, sigs, k) is None,
    decreases sigs.len() - k,
{
    if k < sigs.len() {
        lemma_no_signature_hit(c, sigs, k + 1);
    }
}

proof fn lemma_name_hit_found(name: Seq<char>, sigs: Seq<PackerSignature>, j: int, k: int)
    requires
        0 <= j <= k < sigs.len(),
        sigs[k].section_name is Some,
        seq_contains(lowercase(name), lowercase(sigs[k].section_name->0@)),
    ensures
        name_hit(name, sigs, j) is Some,
    decreases k - j,
{
    if j < k {
        lemma_name_hit_found(name, sigs, j + 1, k);
    }
}

proof fn lemma_name_hit_sound(name: Seq<char>, sigs: Seq<PackerSignature>, j: int)
    ensures
        name_hit(name, sigs, j) matches Some(n) ==> exists|k: int|
            0 <= k < sigs.len() && (#[trigger] sigs[k]).section_name is Some && seq_contains(
                lowercase(name),
                lowercase(sigs[k].section_name->0@),
            ) && n == sigs[k].name@,
    decreases sigs.len() - j,
{
    if 0 <= j < sigs.len() {
        lemma_name_hit_sound(name, sigs, j + 1);
    }
}

proof fn lemma_section_hit_found(sections: Seq<PESection>, sigs: Seq<PackerSignature>, i0: int, i: int)
    requires
        0 <= i0 <= i < sections.len(),
        name_hit(sections[i].name@, sigs, 0) is Some,
    ensures
        section_hit(sections, sigs, i0) is Some,
    decreases i - i0,
{
    if i0 < i {
        lemma_section_hit_found(sections, sigs, i0 + 1, i);
    }
}

proof fn lemma_section_hit_sound(sections: Seq<PESection>, sigs: Seq<PackerSignature>, i0: int)
    ensures
        section_hit(sections, sigs, i0) matches Some(n) ==> exists|i: int, k: int|
            0 <= i < sections.len() && 0 <= k < sigs.len() && (#[trigger] sigs[k]).section_name is Some
                && seq_contains(lowercase((#[trigger] sections[i]).name@), lowercase(sigs[k].section_name->0@))
                && n == sigs[k].name@,
    decreases sections.len() - i0,
{
    if 0 <= i0 < sections.len() {
        lemma_section_hit_sound(sections, sigs, i0 + 1);
        lemma_name_hit_sound(sections[i0].name@, sigs, 0);
    }
}

/// A packer is recognised by its section name: when no packer's byte
/// signature occurs in the content and some section's lowercased name
/// contains a packer's lowercased section name, the file is reported
/// packed, under the name of a packer whose section name one of the
/// sections carries.
pub proof fn lemma_packer_found_by_section_name(
    c: Seq<u8>,
    sigs: Seq<PackerSignature>,
    sections: Seq<PESection>,
    i: int,
    k: int,
)
    requires
        forall|j: int| 0 <= j < sigs.len() ==> absent(c, #[trigger] sigs[j].signature@),
        0 <= i < sections.len(),
        0 <= k < sigs.len(),
        sigs[k].section_name is Some,
        seq_contains(lowercase(sections[i].name@), lowercase(sigs[k].section_name->0@)),
    ensures
        packer_verdict(c, sigs, sections) matches Some(n) && exists|i2: int, k2: int|
            0 <= i2 < sections.len() && 0 <= k2 < sigs.len() && (#[trigger] sigs[k2]).section_name is Some
                && seq_contains(lowercase((#[trigger] sections[i2]).name@), lowercase(sigs[k2].section_name->0@))
                && n == sigs[k2].name@,
{
    lemma_no_signature_hit(c, sigs, 0);
    lemma_name_hit_found(sections[i].name@, sigs, 0, k);
    lemma_section_hit_found(sections, sigs, 0, i);
    lemma_section_hit_sound(sections, sigs, 0);
}

/// The number of suspicious sections.
pub open spec fn suspicious_count(sections: Seq<PESection>) -> nat
    decreases sections.len(),
{
    if sections.len() == 0 {
        0
    } else {
        suspicious_count(sections.drop_last()) + if sections.last().is_suspicious { 1nat } else { 0nat }
    }
}

/// The number of imports of risk level 8 or more.
pub open spec fn high_risk_count(imports: Seq<ImportFunction>) -> nat
    decreases imports.len(),
{
    if imports.len() == 0 {
        0
    } else {
        high_risk_count(imports.drop_last()) + if imports.last().risk_level >= 8 { 1nat } else { 0nat }
    }
}

/// The characteristics that the analyzer lists for the sections and imports.
pub open spec fn characteristics_of(sections: Seq<PESection>, imports: Seq<ImportFunction>) -> Seq<Seq<char>> {
    let a: Seq<Seq<char>> = if suspicious_count(sections) > 0 {
        seq!["Contains "@ + decimal(suspicious_count(sections)) + " suspicious sections"@]
    } else {
        Seq::empty()
    };
    let b: Seq<Seq<char>> = if high_risk_count(imports) > 0 {
        seq!["Contains "@ + decimal(high_risk_count(imports)) + " high-risk API imports"@]
    } else {
        Seq::empty()
    };
    let c: Seq<Seq<char>> = if exists|i: int| 0 <= i < sections.len() && #[trigger] sections[i].is_executable && sections[i].is_writable {
        seq!["Contains executable and writable sections"@]
    } else {
        Seq::empty()
    };
    let d: Seq<Seq<char>> = if high_entropy_count(sections) > 0 {
        seq!["Contains "@ + decimal(high_entropy_count(sections)) + " high entropy sections (possible packing)"@]
    } else {
        Seq::empty()
    };
    a + b + c + d
}

/// The views of a list of strings.
pub open spec fn text_views(v: Seq<String>) -> Seq<Seq<char>> {
    Seq::new(v.len(), |i: int| v[i]@)
}

fn count_message(prefix: &str, n: u64, suffix: &str) -> (r: String)
    ensures
        r@ == prefix@ + decimal(n as nat) + suffix@,
{
    let mut s = owned(prefix);
    let d = u64_to_string(n);
    s.append(d.as_str());
    s.append(suffix);
    s
}

/// The analysis of an image's bytes with the given import table and
/// packer signatures, given the entropies of its `.text` and `.data`
/// sections: bytes without the PE signatures give an empty, non-PE result;
/// otherwise the two sections, the import table flattened, the packer
/// verdict, the code caves and the suspicious characteristics.
pub open spec fn pe_analysis_of(
    r: PEAnalysisResult,
    imports_table: Seq<(String, Vec<SuspiciousImport>)>,
    packers: Seq<PackerSignature>,
    content: Seq<u8>,
    text_entropy: u64,
    data_entropy: u64,
) -> bool {
    &&& r.is_pe == pe_signature_ok(content)
    &&& !r.is_pe ==> !r.is_packed && r.packer_name is None && r.sections@.len() == 0
        && r.imports@.len() == 0 && r.exports@.len() == 0 && r.resources@.len() == 0
        && r.suspicious_characteristics@.len() == 0 && r.code_caves@.len() == 0
    &&& r.is_pe ==> {
        &&& r.sections@.len() == 2
        &&& r.sections@[0].entropy == text_entropy
        &&& r.sections@[1].entropy == data_entropy
        &&& import_views(r.imports@) == flat_imports(imports_table)
        &&& r.is_packed == packer_verdict(content, packers, r.sections@) is Some
        &&& (match r.packer_name {
            Some(n) => packer_verdict(content, packers, r.sections@) == Some(n@),
            None => packer_verdict(content, packers, r.sections@) is None,
        })
        &&& cave_views(r.code_caves@) == caves_for(content, r.sections@)
        &&& text_views(r.suspicious_characteristics@) == characteristics_of(r.sections@, r.imports@)
    }
    &&& r.overlay_size == 0
}

impl AdvancedPEAnalyzer {
    /// Whether the image is packed, and by which packer.
    pub fn detect_packer(&self, content: &[u8], sections: &[PESection]) -> (r: (bool, Option<String>))
        ensures
            r.0 == packer_verdict(content@, self.packers(), sections@) is Some,
            match r.1 {
                Some(n) => packer_verdict(content@, self.packers(), sections@) == Some(n@),
                None => packer_verdict(content@, self.packers(), sections@) is None,
            },
    {
        proof {
            use_type_invariant(self);
        }
        let sigs = &self.packer_signatures;
        let ns = sigs.len();
        let mut k: usize = 0;
        while k < ns
            invariant
                ns == sigs@.len(),
                sigs@ == self.packers(),
                k <= ns,
                forall|i: int| 0 <= i < sigs@.len() ==> (#[trigger] sigs@[i]).signature@.len() > 0,
                signature_hit(content@, sigs@, 0) == signature_hit(content@, sigs@, k as int),
            decreases ns - k,
        {
            let sig = &sigs[k];
            match self.find_signature(content, sig.signature.as_slice()) {
                Some(_) => {
                    return (true, Some(sig.name.clone()));
                },
                None => {},
            }
            k = k + 1;
        }
        let nsec = sections.len();
        let mut i: usize = 0;
        while i < nsec
            invariant
                nsec == sections@.len(),
                ns == sigs@.len(),
                sigs@ == self.packers(),
                signature_hit(content@, sigs@, 0) is None,
                i <= nsec,
                section_hit(sections@, sigs@, 0) == section_hit(sections@, sigs@, i as int),
            decreases nsec - i,
        {
            let section = &sections[i];
            let lower = to_lowercase(section.name.as_str());
            let mut j: usize = 0;
            while j < ns
                invariant
                    ns == sigs@.len(),
                    nsec == sections@.len(),
                    i < nsec,
                    *section == sections@[i as int],
                    sigs@ == self.packers(),
                    signature_hit(content@, sigs@, 0) is None,
                    section_hit(sections@, sigs@, 0) == section_hit(sections@, sigs@, i as int),
                    j <= ns,
                    lower@ == lowercase(section.name@),
                    name_hit(section.name@, sigs@, 0) == name_hit(section.name@, sigs@, j as int),
                decreases ns - j,
            {
                let sig = &sigs[j];
                match &sig.section_name {
                    Some(sn) => {
                        let lsn = to_lowercase(sn.as_str());
                        if str_contains(lower.as_str(), lsn.as_str()) {
                            assert(name_hit(section.name@, sigs@, j as int) == Some(sig.name@));
                            return (true, Some(sig.name.clone()));
                        }
                    },
                    None => {},
                }
                j = j + 1;
            }
            i = i + 1;
        }
        let mut high: usize = 0;
        let mut t: usize = 0;
        while t < nsec
            invariant
                nsec == sections@.len(),
                t <= nsec,
                high == high_entropy_count(sections@.take(t as int)),
                high <= t,
            decreases nsec - t,
        {
            assert(sections@.take(t + 1).drop_last() =~= sections@.take(t as int));
            if lt_bits(SEVEN, sections[t].entropy) {
                high = high + 1;
            }
            t = t + 1;
        }
        assert(sections@.take(nsec as int) =~= sections@);
        if high > 1 {
            return (true, Some(owned("Unknown Packer")));
        }
        (false, None)
    }

    /// The code caves of the content, reported once for each executable
    /// section: runs of at least 32 bytes of 0x00 or 0x90 ended by another byte.
    pub fn detect_code_caves(&self, content: &[u8], sections: &[PESection]) -> (r: Vec<CodeCave>)
        ensures
            cave_views(r@) == caves_for(content@, sections@),
    {
        let mut out: Vec<CodeCave> = Vec::new();
        let ns = sections.len();
        for si in 0..ns
            invariant
                ns == sections@.len(),
                cave_views(out@) == caves_for(content@, sections@.take(si as int)),
        {
            let section = &sections[si];
            assert(sections@.take(si + 1).drop_last() =~= sections@.take(si as int));
            if section.is_executable {
                let ghost base = cave_views(out@);
                let ghost label = section.name@;
                let mut start: Option<usize> = None;
                let mut count: usize = 0;
                let n = content.len();
                assert(cave_scan(content@, 0).2.map_values(|cv: (int, int)| (cv.0, cv.1, label)) =~= Seq::<(int, int, Seq<char>)>::empty());
                for i in 0..n
                    invariant
                        n == content@.len(),
                        label == section.name@,
                        base == caves_for(content@, sections@.take(si as int)),
                        count <= i,
                        count == cave_scan(content@, i as int).1,
                        match start {
                            Some(s) => cave_scan(content@, i as int).0 == Some(s as int),
                            None => cave_scan(content@, i as int).0 is None,
                        },
                        cave_views(out@) == base + cave_scan(content@, i as int).2.map_values(
                            |cv: (int, int)| (cv.0, cv.1, label),
                        ),
                {
                    let b = content[i];
                    let ghost prev = cave_scan(content@, i as int).2;
                    if b == 0x00 || b == 0x90 {
                        if start.is_none() {
                            start = Some(i);
                        }
                        count = count + 1;
                    } else {
                        match start {
                            Some(s) => {
                                if count >= 32 {
                                    let ghost before = cave_views(out@);
                                    out.push(CodeCave { offset: s as u64, size: count as u64, section: section.name.clone() });
                                    assert(cave_views(out@) =~= before.push((s as int, count as int, label)));
                                    assert(prev.push((s as int, count as int)).map_values(|cv: (int, int)| (cv.0, cv.1, label))
                                        =~= prev.map_values(|cv: (int, int)| (cv.0, cv.1, label)).push((s as int, count as int, label)));
                                }
                            },
                            None => {},
                        }
                        start = None;
                        count = 0;
                    }
                }
            }
        }
        assert(sections@.take(ns as int) =~= sections@);
        out
    }

    /// The characteristics that make the image suspicious.
    pub fn analyze_suspicious_characteristics(&self, sections: &[PESection], imports: &[ImportFunction]) -> (r: Vec<String>)
        ensures
            text_views(r@) == characteristics_of(sections@, imports@),
    {
        let ns = sections.len();
        let mut suspicious: u64 = 0;
        let mut rwe = false;
        let mut high: u64 = 0;
        for i in 0..ns
            invariant
                ns == sections@.len(),
                suspicious == suspicious_count(sections@.take(i as int)),
                high == high_entropy_count(sections@.take(i as int)),
                suspicious <= i,
                high <= i,
                rwe == exists|j: int| 0 <= j < i && #[trigger] sections@[j].is_executable && sections@[j].is_writable,
        {
            assert(sections@.take(i + 1).drop_last() =~= sections@.take(i as int));
            let s = &sections[i];
            if s.is_suspicious {
                suspicious = suspicious + 1;
            }
            if s.is_executable && s.is_writable {
                rwe = true;
            }
            if lt_bits(SEVEN, s.entropy) {
                high = high + 1;
            }
        }
        assert(sections@.take(ns as int) =~= sections@);
        let ni = imports.len();
        let mut risky: u64 = 0;
        for i in 0..ni
            invariant
                ni == imports@.len(),
                risky == high_risk_count(imports@.take(i as int)),
                risky <= i,
        {
            assert(imports@.take(i + 1).drop_last() =~= imports@.take(i as int));
            if imports[i].risk_level >= 8 {
                risky = risky + 1;
            }
        }
        assert(imports@.take(ni as int) =~= imports@);
        let mut out: Vec<String> = Vec::new();
        if suspicious > 0 {
            out.push(count_message("Contains ", suspicious, " suspicious sections"));
        }
        if risky > 0 {
            out.push(count_message("Contains ", risky, " high-risk API imports"));
        }
        if rwe {
            out.push(owned("Contains executable and writable sections"));
        }
        if high > 0 {
            out.push(count_message("Contains ", high, " high entropy sections (possible packing)"));
        }
        assert(text_views(out@) =~= characteristics_of(sections@, imports@));
        out
    }

    /// The analysis of an image's bytes, given the entropies of its `.text`
    /// and `.data` sections. Bytes without the PE signatures give an empty,
    /// non-PE result.
    pub fn analyze_pe_content(&self, content: &[u8], text_entropy: u64, data_entropy: u64) -> (r: PEAnalysisResult)
        ensures
            pe_analysis_of(r, self.imports_table(), self.packers(), content@, text_entropy, data_entropy),
    {
        if !self.is_pe_file(content) {
            return PEAnalysisResult {
                is_pe: false,
                is_packed: false,
                packer_name: None,
                sections: Vec::new(),
                imports: Vec::new(),
                exports: Vec::new(),
                resources: Vec::new(),
                suspicious_characteristics: Vec::new(),
                code_caves: Vec::new(),
                overlay_size: 0,
            };
        }
        let sections = self.parse_sections(text_entropy, data_entropy);
        let imports = self.parse_imports();
        let exports = self.parse_exports();
        let resources = self.parse_resources();
        let (is_packed, packer_name) = self.detect_packer(content, sections.as_slice());
        let code_caves = self.detect_code_caves(content, sections.as_slice());
        let overlay_size = self.calculate_overlay_size(content);
        let suspicious_characteristics = self.analyze_suspicious_characteristics(sections.as_slice(), imports.as_slice());
        PEAnalysisResult {
            is_pe: true,
            is_packed,
            packer_name,
            sections,
            imports,
            exports,
            resources,
            suspicious_characteristics,
            code_caves,
            overlay_size,
        }
    }
}

} // verus!
