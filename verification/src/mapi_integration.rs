//! The mail-client integration: the session that must be open before
//! messages are read, the settings, and the names under which extracted
//! attachments are written.
use vstd::prelude::*;
use vstd::string::StringExecFns;
use crate::clock::{new_id_text, now_millis};
use crate::email_scanner::EmailAttachment;
use crate::error::{AntivirusError, EmailScanError};
use crate::text::{chars_of, decimal, owned, push_char, string_from_chars};
use crate::paths::joined;
use crate::types::Timestamp;

verus! {

/// An open session with the mail client.
#[derive(Debug, Clone)]
pub struct MapiSession {
    pub session_id: String,
    pub profile_name: String,
    pub connected: bool,
}

/// Settings of the Outlook integration.
#[derive(Debug, Clone)]
pub struct OutlookConfig {
    pub enabled: bool,
    pub monitor_incoming: bool,
    pub monitor_outgoing: bool,
    pub scan_on_receive: bool,
    pub scan_on_send: bool,
    pub temp_directory: String,
    pub max_concurrent_scans: u32,
}

/// The default settings, with attachments written under `temp_directory`:
/// enabled, watching incoming mail only, scanning on receive and on send,
/// at most five scans at once.
pub open spec fn default_outlook_config(c: OutlookConfig, temp_directory: String) -> bool {
    &&& c.enabled
    &&& c.monitor_incoming
    &&& !c.monitor_outgoing
    &&& c.scan_on_receive
    &&& c.scan_on_send
    &&& c.temp_directory == temp_directory
    &&& c.max_concurrent_scans == 5
}

impl OutlookConfig {
    /// The default settings, with attachments written under `temp_directory`.
    pub fn with_temp_directory(temp_directory: String) -> (r: Self)
        ensures
            default_outlook_config(r, temp_directory),
    {
        OutlookConfig {
            enabled: true,
            monitor_incoming: true,
            monitor_outgoing: false,
            scan_on_receive: true,
            scan_on_send: true,
            temp_directory,
            max_concurrent_scans: 5,
        }
    }
}

/// A message in the mail store.
#[derive(Debug, Clone)]
pub struct MapiMessage {
    pub entry_id: String,
    pub subject: String,
    pub sender_name: String,
    pub sender_email: String,
    pub recipient_emails: Vec<String>,
    pub received_time: Timestamp,
    pub message_class: String,
    pub has_attachments: bool,
    pub attachment_count: u32,
}

/// The integration's settings and session.
pub struct MapiIntegration {
    config: OutlookConfig,
    session: Option<MapiSession>,
    temp_dir: String,
}

/// A character that cannot stand in a file name.
pub open spec fn unsafe_name_char(c: char) -> bool {
    c == '/' || c == '\\' || c == ':' || c == '*' || c == '?' || c == '"' || c == '<' || c == '>' || c == '|'
}

/// The name with every unsafe character replaced by `_`.
pub open spec fn safe_name(s: Seq<char>) -> Seq<char> {
    Seq::new(s.len(), |i: int| if unsafe_name_char(s[i]) { '_' } else { s[i] })
}

/// The decimal text of an integer, with a leading `-` when negative.
pub open spec fn signed_decimal(t: int) -> Seq<char> {
    if t < 0 {
        seq!['-'] + decimal((-t) as nat)
    } else {
        decimal(t as nat)
    }
}

/// The message that the simulated mail store holds at `now`: one note with
/// one attachment, to a company address.
pub open spec fn simulated_message(m: MapiMessage, now: Timestamp) -> bool {
    &&& m.entry_id@ == "msg_001"@
    &&& m.subject@ == "Test Email with Attachment"@
    &&& m.sender_name@ == "Test Sender"@
    &&& m.sender_email@ == "sender@example.com"@
    &&& m.recipient_emails@.len() == 1
    &&& m.recipient_emails@[0]@ == "user@company.com"@
    &&& m.received_time == now
    &&& m.message_class@ == "IPM.Note"@
    &&& m.has_attachments
    &&& m.attachment_count == 1
}

/// The attachments of a message as they are extracted: none without
/// attachments; otherwise `attachment_i.bin`, 25 bytes each, written under
/// the given paths, carrying the message's subject, sender and first
/// recipient (`unknown` when there is none).
pub open spec fn descriptors_of(r: Seq<EmailAttachment>, message: MapiMessage, temp_paths: Seq<String>) -> bool {
    &&& !message.has_attachments ==> r.len() == 0
    &&& message.has_attachments ==> r.len() == message.attachment_count
    &&& message.has_attachments ==> forall|i: int| 0 <= i < r.len() ==> {
        &&& (#[trigger] r[i]).size == 25
        &&& r[i].temp_path == temp_paths[i]
        &&& r[i].email_subject@ == message.subject@
        &&& r[i].sender@ == message.sender_email@
        &&& r[i].content_type@ == "application/octet-stream"@
        &&& r[i].filename@ == "attachment_"@ + decimal(i as nat) + ".bin"@
        &&& r[i].recipient@ == (if message.recipient_emails@.len() > 0 { message.recipient_emails@[0]@ } else { "unknown"@ })
    }
}

/// The error of an operation that needs an open session.
pub open spec fn no_session_error(e: AntivirusError) -> bool {
    e matches AntivirusError::EmailScanning(EmailScanError::MapiInitializationFailed(m)) && m@ == "No active MAPI session"@
}

/// Whether the attachments of a new message are scanned: when it has some
/// and the settings scan messages on receipt.
pub fn message_scanned(config: &OutlookConfig, message: &MapiMessage) -> (r: bool)
    ensures
        r == (message.has_attachments && config.scan_on_receive),
{
    message.has_attachments && config.scan_on_receive
}

impl MapiIntegration {
    /// An integration with the default settings, writing attachments under
    /// `temp_directory`, without a session.
    pub fn new(temp_directory: String) -> (r: Self)
        ensures
            default_outlook_config(r.config(), temp_directory),
            r.session() is None,
            r.temp_dir() == temp_directory,
    {
        let config = OutlookConfig::with_temp_directory(temp_directory);
        let temp_dir = config.temp_directory.clone();
        MapiIntegration { config, session: None, temp_dir }
    }

    /// An integration with the given settings, without a session.
    pub fn with_config(config: OutlookConfig) -> (r: Self)
        ensures
            r.config() == config,
            r.session() is None,
            r.temp_dir() == config.temp_directory,
    {
        let temp_dir = config.temp_directory.clone();
        MapiIntegration { config, session: None, temp_dir }
    }

    /// The settings.
    pub closed spec fn config(&self) -> OutlookConfig {
        self.config
    }

    /// The open session, if any.
    pub closed spec fn session(&self) -> Option<MapiSession> {
        self.session
    }

    /// The directory of extracted attachments.
    pub closed spec fn temp_dir(&self) -> String {
        self.temp_dir
    }

    /// The directory attachments are written to.
    pub fn temp_directory(&self) -> (r: &String)
        ensures
            *r == self.temp_dir(),
    {
        &self.temp_dir
    }

    /// The settings.
    pub fn outlook_config(&self) -> (r: &OutlookConfig)
        ensures
            *r == self.config(),
    {
        &self.config
    }

    /// Whether a session is open.
    pub fn has_session(&self) -> (r: bool)
        ensures
            r == self.session() is Some,
    {
        self.session.is_some()
    }

    /// Opens a session under the profile (`Default` when none is named),
    /// unless the integration is disabled.
    pub fn initialize_session(&mut self, profile_name: Option<String>) -> (r: Result<MapiSession, AntivirusError>)
        ensures
            !old(self).config().enabled ==> (r matches Err(AntivirusError::EmailScanning(EmailScanError::MapiInitializationFailed(m)))
                && m@ == "MAPI integration disabled"@) && final(self).session() == old(self).session(),
            old(self).config().enabled ==> (r matches Ok(s) && s.connected && s.profile_name@ == (match profile_name {
                Some(p) => p@,
                None => "Default"@,
            }) && final(self).session() == Some(s)),
            final(self).config() == old(self).config(),
            final(self).temp_dir() == old(self).temp_dir(),
    {
        if !self.config.enabled {
            return Err(AntivirusError::EmailScanning(
                EmailScanError::MapiInitializationFailed(owned("MAPI integration disabled")),
            ));
        }
        let session = MapiSession {
            session_id: new_id_text(),
            profile_name: match profile_name {
                Some(p) => p,
                None => owned("Default"),
            },
            connected: true,
        };
        let kept = MapiSession {
            session_id: session.session_id.clone(),
            profile_name: session.profile_name.clone(),
            connected: session.connected,
        };
        self.session = Some(kept);
        Ok(session)
    }

    /// Closes the session, if any.
    pub fn close_session(&mut self) -> (r: Result<(), AntivirusError>)
        ensures
            r is Ok,
            final(self).session() is None,
            final(self).config() == old(self).config(),
            final(self).temp_dir() == old(self).temp_dir(),
    {
        self.session = None;
        Ok(())
    }

    /// Succeeds when a session is open, as reading messages, extracting
    /// attachments and registering for notifications require.
    pub fn require_session(&self) -> (r: Result<(), AntivirusError>)
        ensures
            r is Ok <==> self.session() is Some,
            r matches Err(e) ==> no_session_error(e),
    {
        if self.session.is_none() {
            return Err(AntivirusError::EmailScanning(
                EmailScanError::MapiInitializationFailed(owned("No active MAPI session")),
            ));
        }
        Ok(())
    }

    /// The name with every character that a file name cannot hold replaced
    /// by `_`.
    pub fn sanitize_name(original_name: &str) -> (r: String)
        ensures
            r@ == safe_name(original_name@),
    {
        let v = chars_of(original_name);
        let mut out: Vec<char> = Vec::new();
        let n = v.len();
        for i in 0..n
            invariant
                n == v@.len(),
                v@ == original_name@,
                out@ == safe_name(v@).take(i as int),
        {
            let c = v[i];
            let d = if c == '/' || c == '\\' || c == ':' || c == '*' || c == '?' || c == '"' || c == '<' || c == '>' || c == '|' {
                '_'
            } else {
                c
            };
            out.push(d);
            assert(out@ =~= safe_name(v@).take(i + 1));
        }
        assert(safe_name(v@).take(n as int) =~= safe_name(v@));
        string_from_chars(out.as_slice())
    }

    /// The path under which an attachment is written at time `timestamp`:
    /// the time, `_` and the sanitized name, joined onto the attachment
    /// directory as `Path::join` joins (a separator is added unless the
    /// directory is empty or already ends with one).
    pub fn temp_filename_at(&self, original_name: &str, timestamp: i64) -> (r: String)
        ensures
            r@ == joined(self.temp_dir()@, signed_decimal(timestamp as int) + "_"@ + safe_name(original_name@)),
    {
        let mut s = self.temp_dir.clone();
        let dir = self.temp_dir.as_str();
        let n = dir.unicode_len();
        if n > 0 && dir.get_char(n - 1) != '/' {
            s.append("/");
        }
        if timestamp < 0 {
            s.append("-");
            proof {
                reveal_strlit("-");
            }
        }
        let magnitude: u64 = if timestamp < 0 { (0i128 - timestamp as i128) as u64 } else { timestamp as u64 };
        let t = crate::text::u64_to_string(magnitude);
        s.append(t.as_str());
        s.append("_");
        let safe = Self::sanitize_name(original_name);
        s.append(safe.as_str());
        proof {
            reveal_strlit("/");
            reveal_strlit("_");
        }
        s
    }

    /// The name under which the `i`-th attachment of a message is written.
    pub fn attachment_name(i: u32) -> (r: String)
        ensures
            r@ == "attachment_"@ + decimal(i as nat) + ".bin"@,
    {
        let mut filename = owned("attachment_");
        let t = crate::text::u64_to_string(i as u64);
        filename.append(t.as_str());
        filename.append(".bin");
        filename
    }

    /// The path under which an attachment is written now.
    pub fn generate_temp_filename(&self, original_name: &str) -> (r: String)
        ensures
            exists|t: i64| r@ == joined(self.temp_dir()@, signed_decimal(t as int) + "_"@ + safe_name(original_name@)),
    {
        let now = now_millis();
        self.temp_filename_at(original_name, now)
    }

    /// The messages of the simulated mail store at `now`.
    pub fn simulated_messages_at(now: Timestamp) -> (r: Vec<MapiMessage>)
        ensures
            r@.len() == 1,
            simulated_message(r@[0], now),
    {
        let mut recipients: Vec<String> = Vec::new();
        recipients.push(owned("user@company.com"));
        let mut v: Vec<MapiMessage> = Vec::new();
        v.push(MapiMessage {
            entry_id: owned("msg_001"),
            subject: owned("Test Email with Attachment"),
            sender_name: owned("Test Sender"),
            sender_email: owned("sender@example.com"),
            recipient_emails: recipients,
            received_time: now,
            message_class: owned("IPM.Note"),
            has_attachments: true,
            attachment_count: 1,
        });
        v
    }

    /// The new messages at `now`, which needs an open session.
    pub fn get_new_messages_at(&self, now: Timestamp) -> (r: Result<Vec<MapiMessage>, AntivirusError>)
        ensures
            self.session() is None ==> (r matches Err(e) && no_session_error(e)),
            self.session() is Some ==> (r matches Ok(v) && v@.len() == 1 && simulated_message(v@[0], now)),
    {
        match self.require_session() {
            Err(e) => Err(e),
            Ok(()) => Ok(Self::simulated_messages_at(now)),
        }
    }

    /// The new messages, which needs an open session.
    pub fn get_new_messages(&self) -> (r: Result<Vec<MapiMessage>, AntivirusError>)
        ensures
            self.session() is None ==> (r matches Err(e) && no_session_error(e)),
            self.session() is Some ==> (r matches Ok(v) && v@.len() == 1 && exists|now: Timestamp| #[trigger] simulated_message(v@[0], now)),
    {
        self.get_new_messages_at(now_millis())
    }

    /// The attachments of a message, written under `temp_paths`, which
    /// needs an open session.
    pub fn extract_message_attachments(&self, message: &MapiMessage, temp_paths: Vec<String>) -> (r: Result<Vec<EmailAttachment>, AntivirusError>)
        requires
            temp_paths@.len() == message.attachment_count,
        ensures
            self.session() is None ==> (r matches Err(e) && no_session_error(e)),
            self.session() is Some ==> (r matches Ok(v) && descriptors_of(v@, *message, temp_paths@)),
    {
        match self.require_session() {
            Err(e) => Err(e),
            Ok(()) => Ok(self.attachment_descriptors(message, temp_paths)),
        }
    }

    /// Registers for notifications of new messages, which needs an open
    /// session.
    pub fn register_message_notifications(&self) -> (r: Result<(), AntivirusError>)
        ensures
            r is Ok <==> self.session() is Some,
            r matches Err(e) ==> no_session_error(e),
    {
        self.require_session()
    }

    /// Unregisters from notifications: always succeeds.
    pub fn unregister_message_notifications(&self) -> (r: Result<(), AntivirusError>)
        ensures
            r is Ok,
    {
        Ok(())
    }

    /// The attachments of a message as they are extracted: `attachment_i.bin`,
    /// 25 bytes each, written under the given paths, carrying the message's
    /// subject, sender and first recipient (`unknown` when there is none).
    pub fn attachment_descriptors(&self, message: &MapiMessage, temp_paths: Vec<String>) -> (r: Vec<EmailAttachment>)
        requires
            temp_paths@.len() == message.attachment_count,
        ensures
            descriptors_of(r@, *message, temp_paths@),
    {
        let mut out: Vec<EmailAttachment> = Vec::new();
        if !message.has_attachments {
            return out;
        }
        let n = message.attachment_count;
        let mut paths = temp_paths;
        let mut i: u32 = 0;
        while i < n
            invariant
                i <= n,
                n == message.attachment_count,
                message.has_attachments,
                out@.len() == i,
                paths@.len() == n - i,
                forall|k: int| 0 <= k < paths@.len() ==> paths@[k] == temp_paths@[k + i],
                forall|k: int| 0 <= k < i ==> {
                    &&& (#[trigger] out@[k]).size == 25
                    &&& out@[k].temp_path == temp_paths@[k]
                    &&& out@[k].email_subject@ == message.subject@
                    &&& out@[k].sender@ == message.sender_email@
                    &&& out@[k].content_type@ == "application/octet-stream"@
                    &&& out@[k].filename@ == "attachment_"@ + decimal(k as nat) + ".bin"@
                    &&& out@[k].recipient@ == (if message.recipient_emails@.len() > 0 { message.recipient_emails@[0]@ } else { "unknown"@ })
                },
            decreases n - i,
        {
            let mut filename = owned("attachment_");
            let t = crate::text::u64_to_string(i as u64);
            filename.append(t.as_str());
            filename.append(".bin");
            let path = paths.remove(0);
            let recipient = if message.recipient_emails.len() > 0 {
                message.recipient_emails[0].clone()
            } else {
                owned("unknown")
            };
            out.push(EmailAttachment {
                filename,
                content_type: owned("application/octet-stream"),
                size: 25,
                temp_path: path,
                email_subject: message.subject.clone(),
                sender: message.sender_email.clone(),
                recipient,
            });
            i = i + 1;
        }
        out
    }
}

/// Watches the mail store: opens a session when started, and while it
/// runs, picks the new messages whose attachments are scanned. Extracting
/// and scanning the attachments are the caller's.
pub struct EmailMonitor {
    mapi: MapiIntegration,
    config: OutlookConfig,
    running: bool,
}

impl EmailMonitor {
    /// A stopped monitor over the integration, with the default settings.
    pub fn new(mapi: MapiIntegration) -> (r: Self)
        ensures
            !r.running(),
            r.config().enabled,
            r.config().scan_on_receive,
            r.integration().config() == mapi.config(),
            r.integration().session() == mapi.session(),
    {
        let config = OutlookConfig::with_temp_directory(mapi.temp_dir.clone());
        EmailMonitor { mapi, config, running: false }
    }

    /// A stopped monitor over the integration, with the given settings.
    pub fn with_config(mapi: MapiIntegration, config: OutlookConfig) -> (r: Self)
        ensures
            !r.running(),
            r.config() == config,
            r.integration().config() == mapi.config(),
            r.integration().session() == mapi.session(),
    {
        EmailMonitor { mapi, config, running: false }
    }

    /// Whether the monitor runs.
    pub closed spec fn running(&self) -> bool {
        self.running
    }

    /// The monitor's settings.
    pub closed spec fn config(&self) -> OutlookConfig {
        self.config
    }

    /// The integration the monitor reads from.
    pub closed spec fn integration(&self) -> MapiIntegration {
        self.mapi
    }

    /// The integration the monitor reads from.
    pub fn mapi(&self) -> (r: &MapiIntegration)
        ensures
            *r == self.integration(),
    {
        &self.mapi
    }

    /// Whether the monitor runs.
    pub fn is_running(&self) -> (r: bool)
        ensures
            r == self.running(),
    {
        self.running
    }

    /// Starts monitoring: nothing happens when monitoring is disabled;
    /// otherwise a session is opened under the default profile and the
    /// monitor registers for notifications and runs.
    pub fn start_monitoring(&mut self) -> (r: Result<(), AntivirusError>)
        ensures
            final(self).config() == old(self).config(),
            !old(self).config().enabled ==> r is Ok && final(self).running() == old(self).running()
                && final(self).integration().session() == old(self).integration().session(),
            old(self).config().enabled && !old(self).integration().config().enabled ==> (r matches Err(
                AntivirusError::EmailScanning(EmailScanError::MapiInitializationFailed(m)),
            ) && m@ == "MAPI integration disabled"@) && final(self).running() == old(self).running(),
            old(self).config().enabled && old(self).integration().config().enabled ==> r is Ok && final(self).running()
                && (final(self).integration().session() matches Some(s) && s.connected && s.profile_name@ == "Default"@),
            final(self).integration().config() == old(self).integration().config(),
    {
        if !self.config.enabled {
            return Ok(());
        }
        match self.mapi.initialize_session(None) {
            Err(e) => {
                return Err(e);
            },
            Ok(_) => {},
        }
        match self.mapi.register_message_notifications() {
            Err(e) => {
                return Err(e);
            },
            Ok(()) => {},
        }
        self.running = true;
        Ok(())
    }

    /// Stops monitoring: the monitor stops, unregisters and closes the
    /// session.
    pub fn stop_monitoring(&mut self) -> (r: Result<(), AntivirusError>)
        ensures
            r is Ok,
            !final(self).running(),
            final(self).integration().session() is None,
            final(self).config() == old(self).config(),
            final(self).integration().config() == old(self).integration().config(),
    {
        self.running = false;
        let _ = self.mapi.unregister_message_notifications();
        self.mapi.close_session()
    }

    /// The new messages at `now` whose attachments are scanned: none while
    /// the monitor is stopped; otherwise those with attachments, when
    /// messages are scanned on receipt.
    pub fn messages_to_scan_at(&self, now: Timestamp) -> (r: Result<Vec<MapiMessage>, AntivirusError>)
        ensures
            !self.running() ==> (r matches Ok(v) && v@.len() == 0),
            self.running() && self.integration().session() is None ==> (r matches Err(e) && no_session_error(e)),
            self.running() && self.integration().session() is Some ==> (r matches Ok(v) && (if self.config().scan_on_receive {
                v@.len() == 1 && simulated_message(v@[0], now)
            } else {
                v@.len() == 0
            })),
    {
        if !self.running {
            return Ok(Vec::new());
        }
        let messages = match self.mapi.get_new_messages_at(now) {
            Err(e) => {
                return Err(e);
            },
            Ok(v) => v,
        };
        let mut out: Vec<MapiMessage> = Vec::new();
        let n = messages.len();
        for i in 0..n
            invariant
                n == messages@.len(),
                n == 1,
                simulated_message(messages@[0], now),
                i == 0 ==> out@.len() == 0,
                i == 1 ==> (if self.config.scan_on_receive {
                    out@.len() == 1 && simulated_message(out@[0], now)
                } else {
                    out@.len() == 0
                }),
        {
            let m = &messages[i];
            if m.has_attachments && self.config.scan_on_receive {
                out.push(m.clone_message());
            }
        }
        Ok(out)
    }
}

impl MapiMessage {
    /// A copy of the message.
    pub fn clone_message(&self) -> (r: MapiMessage)
        ensures
            r.entry_id == self.entry_id,
            r.subject == self.subject,
            r.sender_name == self.sender_name,
            r.sender_email == self.sender_email,
            r.recipient_emails@ == self.recipient_emails@,
            r.received_time == self.received_time,
            r.message_class == self.message_class,
            r.has_attachments == self.has_attachments,
            r.attachment_count == self.attachment_count,
    {
        let mut recipients: Vec<String> = Vec::new();
        let n = self.recipient_emails.len();
        for i in 0..n
            invariant
                n == self.recipient_emails@.len(),
                recipients@ == self.recipient_emails@.take(i as int),
        {
            recipients.push(self.recipient_emails[i].clone());
            assert(recipients@ == self.recipient_emails@.take(i + 1));
        }
        assert(self.recipient_emails@.take(n as int) == self.recipient_emails@);
        MapiMessage {
            entry_id: self.entry_id.clone(),
            subject: self.subject.clone(),
            sender_name: self.sender_name.clone(),
            sender_email: self.sender_email.clone(),
            recipient_emails: recipients,
            received_time: self.received_time,
            message_class: self.message_class.clone(),
            has_attachments: self.has_attachments,
            attachment_count: self.attachment_count,
        }
    }
}

} // verus!
