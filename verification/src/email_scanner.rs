//! The email scanner's policy for attachments: which extensions are blocked
//! or allowed, when an attachment is scanned at all, and what is done with
//! it once the scan engine has looked at it.
use vstd::prelude::*;
use crate::file_utils::string_views;
use crate::paths::{extension, extension_of};
use crate::text::{lowercase, owned, str_eq, to_lowercase};
use crate::types::{ScanId, ScanResult};

verus! {

/// An attachment taken out of an email.
#[derive(Debug, Clone)]
pub struct EmailAttachment {
    pub filename: String,
    pub content_type: String,
    pub size: u64,
    pub temp_path: String,
    pub email_subject: String,
    pub sender: String,
    pub recipient: String,
}

impl EmailAttachment {
    /// A copy of the attachment.
    pub fn copy(&self) -> (r: EmailAttachment)
        ensures
            r == *self,
    {
        EmailAttachment {
            filename: self.filename.clone(),
            content_type: self.content_type.clone(),
            size: self.size,
            temp_path: self.temp_path.clone(),
            email_subject: self.email_subject.clone(),
            sender: self.sender.clone(),
            recipient: self.recipient.clone(),
        }
    }
}

/// The outcome of scanning one attachment.
#[derive(Debug)]
pub struct EmailScanResult {
    pub attachment: EmailAttachment,
    pub scan_result: ScanResult,
    pub action_taken: EmailAction,
    pub scan_duration_ms: u64,
}

/// The attachment that an email announcing one yields: a binary of 1024
/// bytes standing for it, read from the email's own file.
pub open spec fn extracted_attachment(a: EmailAttachment, email_path: Seq<char>) -> bool {
    &&& a.filename@ == "extracted_attachment.bin"@
    &&& a.content_type@ == "application/octet-stream"@
    &&& a.size == 1024
    &&& a.temp_path@ == email_path
    &&& a.email_subject@ == "Test Email"@
    &&& a.sender@ == "unknown@example.com"@
    &&& a.recipient@ == "user@example.com"@
}

/// The email scanner's settings.
#[derive(Debug, Clone)]
pub struct EmailScanConfig {
    pub enabled: bool,
    pub scan_attachments: bool,
    pub scan_embedded_objects: bool,
    pub max_attachment_size_mb: u64,
    pub quarantine_infected: bool,
    pub block_suspicious_types: bool,
    pub allowed_extensions: Vec<String>,
    pub blocked_extensions: Vec<String>,
}

/// The extensions allowed by default: documents.
pub open spec fn default_allowed() -> Seq<Seq<char>> {
    seq!["txt"@, "pdf"@, "doc"@, "docx"@, "xls"@, "xlsx"@, "ppt"@, "pptx"@]
}

/// The extensions blocked by default: executables and scripts.
pub open spec fn default_blocked() -> Seq<Seq<char>> {
    seq!["exe"@, "scr"@, "bat"@, "cmd"@, "com"@, "pif"@, "vbs"@, "js"@]
}

impl Default for EmailScanConfig {
    fn default() -> (r: Self)
        ensures
            r.enabled,
            r.scan_attachments,
            r.scan_embedded_objects,
            r.max_attachment_size_mb == 50,
            r.quarantine_infected,
            r.block_suspicious_types,
            string_views(r.allowed_extensions@) == default_allowed(),
            string_views(r.blocked_extensions@) == default_blocked(),
    {
        let mut allowed: Vec<String> = Vec::new();
        allowed.push(owned("txt"));
        allowed.push(owned("pdf"));
        allowed.push(owned("doc"));
        allowed.push(owned("docx"));
        allowed.push(owned("xls"));
        allowed.push(owned("xlsx"));
        allowed.push(owned("ppt"));
        allowed.push(owned("pptx"));
        let mut blocked: Vec<String> = Vec::new();
        blocked.push(owned("exe"));
        blocked.push(owned("scr"));
        blocked.push(owned("bat"));
        blocked.push(owned("cmd"));
        blocked.push(owned("com"));
        blocked.push(owned("pif"));
        blocked.push(owned("vbs"));
        blocked.push(owned("js"));
        assert(string_views(allowed@) =~= default_allowed());
        assert(string_views(blocked@) =~= default_blocked());
        EmailScanConfig {
            enabled: true,
            scan_attachments: true,
            scan_embedded_objects: true,
            max_attachment_size_mb: 50,
            quarantine_infected: true,
            block_suspicious_types: true,
            allowed_extensions: allowed,
            blocked_extensions: blocked,
        }
    }
}

/// What is done with an attachment.
#[derive(Debug, Clone, Copy, PartialEq, Eq, Structural)]
pub enum EmailAction {
    Allow,
    Block,
    Quarantine,
    StripAttachment,
    Warn,
}

/// The size limit in bytes fits in 64 bits.
pub open spec fn limit_fits(c: EmailScanConfig) -> bool {
    c.max_attachment_size_mb * 1024 * 1024 <= u64::MAX
}

/// When attachments are scanned, the size limit in bytes fits in 64 bits.
pub open spec fn scanning_limit_fits(c: EmailScanConfig) -> bool {
    c.enabled && c.scan_attachments ==> limit_fits(c)
}

/// The attachment is larger than the limit.
pub open spec fn too_large(c: EmailScanConfig, a: EmailAttachment) -> bool {
    a.size > c.max_attachment_size_mb * 1024 * 1024
}

/// The file name's extension, lowercased, is in the list.
pub open spec fn extension_listed(list: Seq<String>, filename: Seq<char>) -> bool {
    match extension(filename) {
        Some(e) => string_views(list).contains(lowercase(e)),
        None => false,
    }
}

/// Whether an attachment passes the policy without a scan.
pub open spec fn attachment_allowed(c: EmailScanConfig, a: EmailAttachment) -> bool {
    &&& !extension_listed(c.blocked_extensions@, a.filename@)
    &&& (c.allowed_extensions@.len() == 0 || extension_listed(c.allowed_extensions@, a.filename@))
    &&& !too_large(c, a)
}

/// The action for an attachment after its scan.
pub open spec fn action_for(c: EmailScanConfig, a: EmailAttachment, threats: nat, errors: nat) -> EmailAction {
    if threats > 0 {
        if c.quarantine_infected { EmailAction::Quarantine } else { EmailAction::Block }
    } else if c.block_suspicious_types && extension_listed(c.blocked_extensions@, a.filename@) {
        EmailAction::Block
    } else if too_large(c, a) {
        EmailAction::Warn
    } else if errors > 0 {
        EmailAction::Warn
    } else {
        EmailAction::Allow
    }
}

/// Whether an attachment is handed to the scan engine, and if not, the
/// action taken without a scan.
pub open spec fn pre_scan(c: EmailScanConfig, a: EmailAttachment) -> Option<EmailAction> {
    if !c.enabled || !c.scan_attachments {
        Some(EmailAction::Allow)
    } else if too_large(c, a) {
        Some(EmailAction::Warn)
    } else {
        None
    }
}

/// An attachment over the size limit is never allowed through; when
/// scanning is on it is not handed to the engine but answered with a
/// warning; and a clean scan of it still warns unless its type is blocked.
pub proof fn lemma_oversized_attachment(c: EmailScanConfig, a: EmailAttachment, errors: nat)
    requires
        too_large(c, a),
    ensures
        !attachment_allowed(c, a),
        c.enabled && c.scan_attachments ==> pre_scan(c, a) == Some(EmailAction::Warn),
        !(c.block_suspicious_types && extension_listed(c.blocked_extensions@, a.filename@)) ==> action_for(
            c,
            a,
            0,
            errors,
        ) == EmailAction::Warn,
{
}

/// A scan that finds threats never lets the attachment through: it is
/// quarantined when the policy quarantines, blocked otherwise.
pub proof fn lemma_threats_never_allowed(c: EmailScanConfig, a: EmailAttachment, threats: nat, errors: nat)
    requires
        threats > 0,
    ensures
        action_for(c, a, threats, errors) == (if c.quarantine_infected {
            EmailAction::Quarantine
        } else {
            EmailAction::Block
        }),
        action_for(c, a, threats, errors) != EmailAction::Allow,
{
}

fn list_contains(v: &Vec<String>, s: &str) -> (r: bool)
    ensures
        r == string_views(v@).contains(s@),
{
    let mut i: usize = 0;
    while i < v.len()
        invariant
            i <= v@.len(),
            forall|j: int| 0 <= j < i ==> v@[j]@ != s@,
        decreases v@.len() - i,
    {
        if str_eq(v[i].as_str(), s) {
            assert(string_views(v@)[i as int] == s@);
            return true;
        }
        i = i + 1;
    }
    proof {
        if string_views(v@).contains(s@) {
            let k = choose|k: int| 0 <= k < string_views(v@).len() && string_views(v@)[k] == s@;
            assert(v@[k]@ == s@);
        }
    }
    false
}

fn listed(list: &Vec<String>, filename: &str) -> (r: bool)
    ensures
        r == extension_listed(list@, filename@),
{
    match extension_of(filename) {
        Some(e) => {
            let lower = to_lowercase(e.as_str());
            list_contains(list, lower.as_str())
        },
        None => false,
    }
}

/// The email scanner's policy, applied with its configuration.
pub struct EmailScannerImpl {
    config: EmailScanConfig,
}

impl EmailScannerImpl {
    /// A scanner with the default configuration.
    pub fn new() -> (r: Self)
        ensures
            r.config().enabled,
            r.config().scan_attachments,
            r.config().max_attachment_size_mb == 50,
            string_views(r.config().allowed_extensions@) == default_allowed(),
            string_views(r.config().blocked_extensions@) == default_blocked(),
    {
        EmailScannerImpl { config: EmailScanConfig::default() }
    }

    /// A scanner with the given configuration.
    pub fn with_config(config: EmailScanConfig) -> (r: Self)
        ensures
            r.config() == config,
    {
        EmailScannerImpl { config }
    }

    /// The configuration.
    pub closed spec fn config(&self) -> EmailScanConfig {
        self.config
    }

    /// The configuration.
    pub fn get_config(&self) -> (r: &EmailScanConfig)
        ensures
            *r == self.config(),
    {
        &self.config
    }

    /// Replaces the configuration.
    pub fn update_config(&mut self, config: EmailScanConfig)
        ensures
            final(self).config() == config,
    {
        self.config = config;
    }

    /// The file name's extension, lowercased, is blocked.
    pub fn is_extension_blocked(&self, filename: &str) -> (r: bool)
        ensures
            r == extension_listed(self.config().blocked_extensions@, filename@),
    {
        listed(&self.config.blocked_extensions, filename)
    }

    /// The file name's extension, lowercased, is allowed.
    pub fn is_extension_allowed(&self, filename: &str) -> (r: bool)
        ensures
            r == extension_listed(self.config().allowed_extensions@, filename@),
    {
        listed(&self.config.allowed_extensions, filename)
    }

    /// Whether the attachment passes the policy: extension not blocked,
    /// allowed when there is an allow list, and not larger than the limit.
    pub fn is_attachment_allowed(&self, attachment: &EmailAttachment) -> (r: bool)
        requires
            limit_fits(self.config()),
        ensures
            r == attachment_allowed(self.config(), *attachment),
    {
        if self.is_extension_blocked(attachment.filename.as_str()) {
            return false;
        }
        if self.config.allowed_extensions.len() > 0 && !self.is_extension_allowed(attachment.filename.as_str()) {
            return false;
        }
        if attachment.size > self.config.max_attachment_size_mb * 1024 * 1024 {
            return false;
        }
        true
    }

    /// The action taken without a scan, if the attachment is not scanned:
    /// allowed when scanning is off, a warning when it is too large.
    pub fn pre_scan_action(&self, attachment: &EmailAttachment) -> (r: Option<EmailAction>)
        requires
            scanning_limit_fits(self.config()),
        ensures
            r == pre_scan(self.config(), *attachment),
    {
        if !self.config.enabled || !self.config.scan_attachments {
            return Some(EmailAction::Allow);
        }
        if attachment.size > self.config.max_attachment_size_mb * 1024 * 1024 {
            return Some(EmailAction::Warn);
        }
        None
    }

    /// The action after the scan: quarantine or block what has threats,
    /// block blocked types, warn about large attachments and scan errors.
    pub fn determine_action(&self, attachment: &EmailAttachment, scan_result: &ScanResult) -> (r: EmailAction)
        requires
            limit_fits(self.config()),
        ensures
            r == action_for(self.config(), *attachment, scan_result.threats_found@.len(), scan_result.errors@.len()),
    {
        if scan_result.threats_found.len() > 0 {
            if self.config.quarantine_infected {
                return EmailAction::Quarantine;
            } else {
                return EmailAction::Block;
            }
        }
        if self.config.block_suspicious_types && self.is_extension_blocked(attachment.filename.as_str()) {
            return EmailAction::Block;
        }
        if attachment.size > self.config.max_attachment_size_mb * 1024 * 1024 {
            return EmailAction::Warn;
        }
        if scan_result.errors.len() > 0 {
            return EmailAction::Warn;
        }
        EmailAction::Allow
    }

    /// The attachments of the email at `email_path` whose text is
    /// `email_content`: one when the text announces an attachment, none
    /// otherwise.
    pub fn extract_attachments(&self, email_path: &str, email_content: &str) -> (r: Vec<EmailAttachment>)
        ensures
            crate::text::seq_contains(email_content@, "Content-Disposition: attachment"@) ==> r@.len() == 1
                && extracted_attachment(r@[0], email_path@),
            !crate::text::seq_contains(email_content@, "Content-Disposition: attachment"@) ==> r@.len() == 0,
    {
        let mut v: Vec<EmailAttachment> = Vec::new();
        if self.has_attachment_marker(email_content) {
            v.push(EmailAttachment {
                filename: owned("extracted_attachment.bin"),
                content_type: owned("application/octet-stream"),
                size: 1024,
                temp_path: owned(email_path),
                email_subject: owned("Test Email"),
                sender: owned("unknown@example.com"),
                recipient: owned("user@example.com"),
            });
        }
        v
    }

    /// The result for an attachment that is not scanned, if it is not: a
    /// clean result `scan_id` with the action the policy takes without a
    /// scan. `None` when the attachment goes to the scan engine.
    pub fn unscanned_result(&self, attachment: &EmailAttachment, scan_id: ScanId, duration_ms: u64) -> (r: Option<EmailScanResult>)
        requires
            scanning_limit_fits(self.config()),
        ensures
            match pre_scan(self.config(), *attachment) {
                Some(a) => r matches Some(x) && x.attachment == *attachment && x.action_taken == a
                    && x.scan_result.scan_id == scan_id && x.scan_result.threats_found@.len() == 0
                    && x.scan_result.errors@.len() == 0 && x.scan_duration_ms == duration_ms,
                None => r is None,
            },
    {
        match self.pre_scan_action(attachment) {
            Some(action) => Some(EmailScanResult {
                attachment: attachment.copy(),
                scan_result: ScanResult::new(scan_id),
                action_taken: action,
                scan_duration_ms: duration_ms,
            }),
            None => None,
        }
    }

    /// The result for an attachment that the scan engine looked at: the
    /// engine's result with the action the policy takes on it.
    pub fn scanned_result(&self, attachment: &EmailAttachment, scan_result: ScanResult, duration_ms: u64) -> (r: EmailScanResult)
        requires
            limit_fits(self.config()),
        ensures
            r.attachment == *attachment,
            r.scan_result == scan_result,
            r.action_taken == action_for(self.config(), *attachment, scan_result.threats_found@.len(), scan_result.errors@.len()),
            r.scan_duration_ms == duration_ms,
    {
        let action = self.determine_action(attachment, &scan_result);
        EmailScanResult { attachment: attachment.copy(), scan_result, action_taken: action, scan_duration_ms: duration_ms }
    }

    /// Whether an email's text announces an attachment.
    pub fn has_attachment_marker(&self, email_content: &str) -> (r: bool)
        ensures
            r == crate::text::seq_contains(email_content@, "Content-Disposition: attachment"@),
    {
        crate::text::str_contains(email_content, "Content-Disposition: attachment")
    }
}

} // verus!
