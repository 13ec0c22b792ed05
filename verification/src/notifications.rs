//! User notifications: their titles, messages and severities, when they
//! dismiss themselves, and the bounded list that holds the newest first.
use vstd::prelude::*;
use vstd::string::StringExecFns;
use crate::clock::{new_id, now_millis};
use crate::text::{decimal, owned, push_char, push_decimal, u64_to_string};
use crate::types::{ThreatInfo, ThreatSeverity, Timestamp};

verus! {

/// A number below 100 in two digits.
pub open spec fn two_digits(n: int) -> Seq<char> {
    if n < 10 {
        seq!['0'] + decimal(n as nat)
    } else {
        decimal(n as nat)
    }
}

/// The UTC time of day of a timestamp as `HH:MM:SS`, as the panel and the
/// toasts show it.
pub open spec fn clock_text_of(ts: Timestamp) -> Seq<char> {
    let day = ((ts as int) / 1000) % 86400;
    two_digits(day / 3600) + seq![':'] + two_digits((day % 3600) / 60) + seq![':'] + two_digits(day % 60)
}

fn push_two_digits(s: &mut String, n: u64)
    requires
        n < 100,
    ensures
        final(s)@ == old(s)@ + two_digits(n as int),
{
    if n < 10 {
        push_char(s, '0');
    }
    push_decimal(s, n);
}

/// The UTC time of day of a timestamp as `HH:MM:SS`.
pub fn clock_text(ts: Timestamp) -> (r: String)
    ensures
        r@ == clock_text_of(ts),
{
    let secs: i64 = match ts.checked_div_euclid(1000) {
        Some(v) => v,
        None => 0,
    };
    let day: i64 = match secs.checked_rem_euclid(86400) {
        Some(v) => v,
        None => 0,
    };
    assert(0 <= day < 86400);
    let d = day as u64;
    let mut out = String::new();
    push_two_digits(&mut out, d / 3600);
    push_char(&mut out, ':');
    push_two_digits(&mut out, (d % 3600) / 60);
    push_char(&mut out, ':');
    push_two_digits(&mut out, d % 60);
    out
}

/// What a notification is about.
#[derive(Debug, Clone)]
pub enum NotificationType {
    ThreatDetected(ThreatInfo),
    ScanCompleted { threats_found: u32, files_scanned: u64 },
    UpdateAvailable { version: String },
    UpdateCompleted { version: String },
    QuarantineAction { action: String, file_name: String },
    SystemError { message: String },
    Info { message: String },
}

/// A notification. `auto_dismiss_after` is in seconds.
#[derive(Debug, Clone)]
pub struct Notification {
    pub id: u128,
    pub notification_type: NotificationType,
    pub timestamp: Timestamp,
    pub is_read: bool,
    pub auto_dismiss_after: Option<u64>,
}

/// Notification severity levels
#[derive(Debug, Clone, Copy, PartialEq, Eq, Structural)]
pub enum NotificationSeverity {
    Info,
    Low,
    Medium,
    High,
    Critical,
}

impl NotificationSeverity {
    /// The colour of the severity, as red, green and blue.
    pub fn get_color(&self) -> (r: (u8, u8, u8))
        ensures
            r == (match *self {
                NotificationSeverity::Info => (0u8, 0u8, 255u8),
                NotificationSeverity::Low => (0u8, 255u8, 0u8),
                NotificationSeverity::Medium => (255u8, 255u8, 0u8),
                NotificationSeverity::High => (255u8, 165u8, 0u8),
                NotificationSeverity::Critical => (255u8, 0u8, 0u8),
            }),
    {
        match self {
            NotificationSeverity::Info => (0, 0, 255),
            NotificationSeverity::Low => (0, 255, 0),
            NotificationSeverity::Medium => (255, 255, 0),
            NotificationSeverity::High => (255, 165, 0),
            NotificationSeverity::Critical => (255, 0, 0),
        }
    }
}

/// The name of a threat severity, as its variant is written.
pub open spec fn severity_name(s: ThreatSeverity) -> Seq<char> {
    match s {
        ThreatSeverity::Low => "Low"@,
        ThreatSeverity::Medium => "Medium"@,
        ThreatSeverity::High => "High"@,
        ThreatSeverity::Critical => "Critical"@,
    }
}

fn severity_text(s: ThreatSeverity) -> (r: &'static str)
    ensures
        r@ == severity_name(s),
{
    match s {
        ThreatSeverity::Low => "Low",
        ThreatSeverity::Medium => "Medium",
        ThreatSeverity::High => "High",
        ThreatSeverity::Critical => "Critical",
    }
}

/// The severity of a notification of the given kind.
pub open spec fn severity_of(t: NotificationType) -> NotificationSeverity {
    match t {
        NotificationType::ThreatDetected(threat) => match threat.severity {
            ThreatSeverity::Critical => NotificationSeverity::Critical,
            ThreatSeverity::High => NotificationSeverity::High,
            ThreatSeverity::Medium => NotificationSeverity::Medium,
            ThreatSeverity::Low => NotificationSeverity::Low,
        },
        NotificationType::ScanCompleted { threats_found, .. } => if threats_found > 0 {
            NotificationSeverity::Medium
        } else {
            NotificationSeverity::Info
        },
        NotificationType::SystemError { .. } => NotificationSeverity::High,
        _ => NotificationSeverity::Info,
    }
}

/// The title of a notification of the given kind.
pub open spec fn title_of(t: NotificationType) -> Seq<char> {
    match t {
        NotificationType::ThreatDetected(threat) => "Threat Detected: "@ + threat.name@,
        NotificationType::ScanCompleted { threats_found, .. } => if threats_found > 0 {
            "Scan Completed - "@ + decimal(threats_found as nat) + " threats found"@
        } else {
            "Scan Completed - No threats found"@
        },
        NotificationType::UpdateAvailable { version } => "Update Available: "@ + version@,
        NotificationType::UpdateCompleted { version } => "Update Completed: "@ + version@,
        NotificationType::QuarantineAction { action, file_name } => "Quarantine: "@ + action@ + " "@ + file_name@,
        NotificationType::SystemError { .. } => "System Error"@,
        NotificationType::Info { .. } => "Information"@,
    }
}

/// The message of a notification of the given kind.
pub open spec fn message_of(t: NotificationType) -> Seq<char> {
    match t {
        NotificationType::ThreatDetected(threat) => "Threat '"@ + threat.name@ + "' detected in file: "@
            + threat.file_path@ + "\nSeverity: "@ + severity_name(threat.severity) + "\nAction: File quarantined"@,
        NotificationType::ScanCompleted { threats_found, files_scanned } => "Scan completed successfully.\nFiles scanned: "@
            + decimal(files_scanned as nat) + "\nThreats found: "@ + decimal(threats_found as nat),
        NotificationType::UpdateAvailable { version } => "A new update ("@ + version@ + ") is available for download."@,
        NotificationType::UpdateCompleted { version } => "Successfully updated to version "@ + version@ + "."@,
        NotificationType::QuarantineAction { action, file_name } => "Successfully "@ + action@ + " file: "@ + file_name@,
        NotificationType::SystemError { message } => message@,
        NotificationType::Info { message } => message@,
    }
}

/// Threats and errors stay until dismissed; other notifications go after
/// ten seconds.
pub open spec fn dismiss_after(t: NotificationType) -> Option<u64> {
    match t {
        NotificationType::ThreatDetected(_) => None,
        NotificationType::SystemError { .. } => None,
        _ => Some(10),
    }
}

/// The notification dismisses itself at `now`: it has a delay, and more
/// than that many seconds (as whole milliseconds) have passed.
pub open spec fn dismissed_at(n: Notification, now: Timestamp) -> bool {
    match n.auto_dismiss_after {
        Some(secs) => now - n.timestamp > secs * 1000,
        None => false,
    }
}

/// A notification that is shown as a toast while unread: medium severity
/// or higher.
pub open spec fn toast_worthy(n: Notification) -> bool {
    !n.is_read && (severity_of(n.notification_type) == NotificationSeverity::Medium
        || severity_of(n.notification_type) == NotificationSeverity::High
        || severity_of(n.notification_type) == NotificationSeverity::Critical)
}

/// The positions below `n` of the toast-worthy notifications, in order.
pub open spec fn toasts(list: Seq<Notification>, n: int) -> Seq<usize>
    decreases n,
{
    if n <= 0 {
        Seq::empty()
    } else if toast_worthy(list[n - 1]) {
        toasts(list, n - 1).push((n - 1) as usize)
    } else {
        toasts(list, n - 1)
    }
}

/// The smaller of the list's length and `k`.
pub open spec fn min_len(list: Seq<Notification>, k: int) -> int {
    if list.len() < k { list.len() as int } else { k }
}

impl Notification {
    /// A new unread notification, stamped now.
    pub fn new(notification_type: NotificationType) -> (r: Self)
        ensures
            r.notification_type == notification_type,
            !r.is_read,
            r.auto_dismiss_after == dismiss_after(notification_type),
    {
        let auto_dismiss_after: Option<u64> = match &notification_type {
            NotificationType::ThreatDetected(_) => None,
            NotificationType::SystemError { .. } => None,
            _ => Some(10),
        };
        Notification {
            id: new_id(),
            notification_type,
            timestamp: now_millis(),
            is_read: false,
            auto_dismiss_after,
        }
    }

    /// The notification's title.
    pub fn get_title(&self) -> (r: String)
        ensures
            r@ == title_of(self.notification_type),
    {
        match &self.notification_type {
            NotificationType::ThreatDetected(threat) => {
                let mut s = owned("Threat Detected: ");
                s.append(threat.name.as_str());
                s
            },
            NotificationType::ScanCompleted { threats_found, .. } => {
                if *threats_found > 0 {
                    let mut s = owned("Scan Completed - ");
                    let d = u64_to_string(*threats_found as u64);
                    s.append(d.as_str());
                    s.append(" threats found");
                    s
                } else {
                    owned("Scan Completed - No threats found")
                }
            },
            NotificationType::UpdateAvailable { version } => {
                let mut s = owned("Update Available: ");
                s.append(version.as_str());
                s
            },
            NotificationType::UpdateCompleted { version } => {
                let mut s = owned("Update Completed: ");
                s.append(version.as_str());
                s
            },
            NotificationType::QuarantineAction { action, file_name } => {
                let mut s = owned("Quarantine: ");
                s.append(action.as_str());
                s.append(" ");
                s.append(file_name.as_str());
                s
            },
            NotificationType::SystemError { .. } => owned("System Error"),
            NotificationType::Info { .. } => owned("Information"),
        }
    }

    /// The notification's message.
    pub fn get_message(&self) -> (r: String)
        ensures
            r@ == message_of(self.notification_type),
    {
        match &self.notification_type {
            NotificationType::ThreatDetected(threat) => {
                let mut s = owned("Threat '");
                s.append(threat.name.as_str());
                s.append("' detected in file: ");
                s.append(threat.file_path.as_str());
                s.append("\nSeverity: ");
                s.append(severity_text(threat.severity));
                s.append("\nAction: File quarantined");
                s
            },
            NotificationType::ScanCompleted { threats_found, files_scanned } => {
                let mut s = owned("Scan completed successfully.\nFiles scanned: ");
                let f = u64_to_string(*files_scanned);
                s.append(f.as_str());
                s.append("\nThreats found: ");
                let t = u64_to_string(*threats_found as u64);
                s.append(t.as_str());
                s
            },
            NotificationType::UpdateAvailable { version } => {
                let mut s = owned("A new update (");
                s.append(version.as_str());
                s.append(") is available for download.");
                s
            },
            NotificationType::UpdateCompleted { version } => {
                let mut s = owned("Successfully updated to version ");
                s.append(version.as_str());
                s.append(".");
                s
            },
            NotificationType::QuarantineAction { action, file_name } => {
                let mut s = owned("Successfully ");
                s.append(action.as_str());
                s.append(" file: ");
                s.append(file_name.as_str());
                s
            },
            NotificationType::SystemError { message } => message.clone(),
            NotificationType::Info { message } => message.clone(),
        }
    }

    /// The notification's severity.
    pub fn get_severity(&self) -> (r: NotificationSeverity)
        ensures
            r == severity_of(self.notification_type),
    {
        match &self.notification_type {
            NotificationType::ThreatDetected(threat) => match threat.severity {
                ThreatSeverity::Critical => NotificationSeverity::Critical,
                ThreatSeverity::High => NotificationSeverity::High,
                ThreatSeverity::Medium => NotificationSeverity::Medium,
                ThreatSeverity::Low => NotificationSeverity::Low,
            },
            NotificationType::ScanCompleted { threats_found, .. } => {
                if *threats_found > 0 {
                    NotificationSeverity::Medium
                } else {
                    NotificationSeverity::Info
                }
            },
            NotificationType::SystemError { .. } => NotificationSeverity::High,
            _ => NotificationSeverity::Info,
        }
    }

    /// Whether the notification dismisses itself at `now`.
    pub fn should_auto_dismiss_at(&self, now: Timestamp) -> (r: bool)
        ensures
            r == dismissed_at(*self, now),
    {
        match self.auto_dismiss_after {
            Some(secs) => (now as i128 - self.timestamp as i128) > secs as i128 * 1000,
            None => false,
        }
    }

    /// Whether the notification dismisses itself now.
    pub fn should_auto_dismiss(&self) -> (r: bool)
        ensures
            self.auto_dismiss_after is None ==> !r,
            exists|now: Timestamp| r == #[trigger] dismissed_at(*self, now),
    {
        self.should_auto_dismiss_at(now_millis())
    }
}

/// The notifications, newest first, at most `max_notifications` of them.
pub struct NotificationManager {
    notifications: Vec<Notification>,
    max_notifications: usize,
    show_notifications: bool,
}

/// The notifications of `s` that are unread.
pub open spec fn unread_count(s: Seq<Notification>) -> nat
    decreases s.len(),
{
    if s.len() == 0 {
        0
    } else {
        unread_count(s.drop_last()) + if !s.last().is_read { 1nat } else { 0nat }
    }
}

/// The notifications of `s` that do not dismiss themselves at `now`.
pub open spec fn kept_at(s: Seq<Notification>, now: Timestamp) -> Seq<Notification>
    decreases s.len(),
{
    if s.len() == 0 {
        Seq::empty()
    } else if dismissed_at(s.last(), now) {
        kept_at(s.drop_last(), now)
    } else {
        kept_at(s.drop_last(), now).push(s.last())
    }
}

/// The notifications of `s` other than those with the identifier.
pub open spec fn without_notification(s: Seq<Notification>, id: u128) -> Seq<Notification>
    decreases s.len(),
{
    if s.len() == 0 {
        Seq::empty()
    } else if s.last().id == id {
        without_notification(s.drop_last(), id)
    } else {
        without_notification(s.drop_last(), id).push(s.last())
    }
}

/// `new` first, then the older ones, cut to at most `max` in all.
pub open spec fn pushed_front(old_list: Seq<Notification>, new: Notification, max: int) -> Seq<Notification> {
    let all = seq![new] + old_list;
    if all.len() > max { all.subrange(0, max) } else { all }
}

impl NotificationManager {
    /// An empty manager keeping at most 50 notifications, shown.
    pub fn new() -> (r: Self)
        ensures
            r.list().len() == 0,
            r.capacity() == 50,
            r.enabled(),
    {
        NotificationManager { notifications: Vec::new(), max_notifications: 50, show_notifications: true }
    }

    /// The notifications, newest first.
    pub closed spec fn list(&self) -> Seq<Notification> {
        self.notifications@
    }

    /// The most notifications kept.
    pub closed spec fn capacity(&self) -> usize {
        self.max_notifications
    }

    /// Whether toasts are shown.
    pub closed spec fn enabled(&self) -> bool {
        self.show_notifications
    }

    /// Adds a notification of the given kind in front; the oldest beyond
    /// the capacity leave.
    pub fn add_notification(&mut self, notification_type: NotificationType)
        ensures
            final(self).list() == pushed_front(old(self).list(), final(self).list()[0], old(self).capacity() as int)
                || old(self).capacity() == 0 && final(self).list().len() == 0,
            old(self).capacity() > 0 ==> final(self).list()[0].notification_type == notification_type
                && !final(self).list()[0].is_read,
            final(self).list().len() <= old(self).capacity() || final(self).list().len() <= old(self).list().len(),
            final(self).capacity() == old(self).capacity(),
            final(self).enabled() == old(self).enabled(),
    {
        let notification = Notification::new(notification_type);
        let ghost n0 = notification;
        self.notifications.insert(0, notification);
        let ghost all = self.notifications@;
        assert(all =~= seq![n0] + old(self).notifications@);
        while self.notifications.len() > self.max_notifications
            invariant
                self.max_notifications == old(self).max_notifications,
                self.show_notifications == old(self).show_notifications,
                self.notifications@.len() >= self.max_notifications || self.notifications@.len() == all.len(),
                self.notifications@.len() <= all.len(),
                self.notifications@ == all.subrange(0, self.notifications@.len() as int),
            decreases self.notifications@.len(),
        {
            self.notifications.pop();
        }
        proof {
            if all.len() > self.max_notifications {
                assert(self.notifications@.len() == self.max_notifications);
            } else {
                assert(self.notifications@ =~= all);
            }
        }
    }

    /// The notifications, newest first.
    pub fn get_notifications(&self) -> (r: &Vec<Notification>)
        ensures
            r@ == self.list(),
    {
        &self.notifications
    }

    /// Marks the first notification with the identifier as read.
    pub fn mark_as_read(&mut self, notification_id: u128)
        ensures
            final(self).list().len() == old(self).list().len(),
            forall|i: int| 0 <= i < old(self).list().len() ==> (#[trigger] final(self).list()[i]).id == old(self).list()[i].id,
            forall|i: int| 0 <= i < old(self).list().len() && old(self).list()[i].id != notification_id ==> #[trigger] final(self).list()[i] == old(self).list()[i],
            (exists|i: int| 0 <= i < old(self).list().len() && old(self).list()[i].id == notification_id) ==> exists|i: int|
                0 <= i < final(self).list().len() && (#[trigger] final(self).list()[i]).id == notification_id && final(self).list()[i].is_read,
            final(self).capacity() == old(self).capacity(),
            final(self).enabled() == old(self).enabled(),
    {
        let mut i: usize = 0;
        while i < self.notifications.len()
            invariant
                i <= self.notifications@.len(),
                self.notifications@ == old(self).notifications@,
                self.max_notifications == old(self).max_notifications,
                self.show_notifications == old(self).show_notifications,
                forall|k: int| 0 <= k < i ==> (#[trigger] self.notifications@[k]).id != notification_id,
            decreases self.notifications@.len() - i,
        {
            if self.notifications[i].id == notification_id {
                let mut n = self.notifications.remove(i);
                n.is_read = true;
                self.notifications.insert(i, n);
                assert(self.notifications@[i as int].id == notification_id);
                return;
            }
            i = i + 1;
        }
    }

    /// Removes every notification with the identifier.
    pub fn remove_notification(&mut self, notification_id: u128)
        ensures
            final(self).list() == without_notification(old(self).list(), notification_id),
            final(self).capacity() == old(self).capacity(),
            final(self).enabled() == old(self).enabled(),
    {
        let ghost orig = self.notifications@;
        let mut kept: Vec<Notification> = Vec::new();
        let mut rest = Vec::new();
        std::mem::swap(&mut rest, &mut self.notifications);
        let n = rest.len();
        let mut k: usize = 0;
        while k < n
            invariant
                n == orig.len(),
                k <= n,
                rest@ == orig.skip(k as int),
                kept@ == without_notification(orig.take(k as int), notification_id),
                self.max_notifications == old(self).max_notifications,
                self.show_notifications == old(self).show_notifications,
            decreases n - k,
        {
            let item = rest.remove(0);
            assert(orig.take(k + 1).drop_last() =~= orig.take(k as int));
            assert(orig.skip(k as int)[0] == orig[k as int]);
            if item.id != notification_id {
                kept.push(item);
            }
            assert(rest@ =~= orig.skip(k + 1));
            k = k + 1;
        }
        assert(orig.take(n as int) =~= orig);
        self.notifications = kept;
    }

    /// Removes all notifications.
    pub fn clear_all(&mut self)
        ensures
            final(self).list().len() == 0,
            final(self).capacity() == old(self).capacity(),
            final(self).enabled() == old(self).enabled(),
    {
        self.notifications.clear();
    }

    /// Removes the notifications that dismiss themselves at `now`.
    pub fn update_at(&mut self, now: Timestamp)
        ensures
            final(self).list() == kept_at(old(self).list(), now),
            final(self).capacity() == old(self).capacity(),
            final(self).enabled() == old(self).enabled(),
    {
        let ghost orig = self.notifications@;
        let mut kept: Vec<Notification> = Vec::new();
        let mut rest = Vec::new();
        std::mem::swap(&mut rest, &mut self.notifications);
        let n = rest.len();
        let mut k: usize = 0;
        while k < n
            invariant
                n == orig.len(),
                k <= n,
                rest@ == orig.skip(k as int),
                kept@ == kept_at(orig.take(k as int), now),
                self.max_notifications == old(self).max_notifications,
                self.show_notifications == old(self).show_notifications,
            decreases n - k,
        {
            let item = rest.remove(0);
            assert(orig.take(k + 1).drop_last() =~= orig.take(k as int));
            assert(orig.skip(k as int)[0] == orig[k as int]);
            if !item.should_auto_dismiss_at(now) {
                kept.push(item);
            }
            assert(rest@ =~= orig.skip(k + 1));
            k = k + 1;
        }
        assert(orig.take(n as int) =~= orig);
        self.notifications = kept;
    }

    /// Removes the notifications that dismiss themselves now.
    pub fn update(&mut self)
        ensures
            exists|now: Timestamp| final(self).list() == #[trigger] kept_at(old(self).list(), now),
            final(self).capacity() == old(self).capacity(),
    {
        self.update_at(now_millis());
    }

    /// The number of unread notifications.
    pub fn get_unread_count(&self) -> (r: usize)
        ensures
            r == unread_count(self.list()),
    {
        let mut c: usize = 0;
        let n = self.notifications.len();
        for i in 0..n
            invariant
                n == self.notifications@.len(),
                c == unread_count(self.notifications@.take(i as int)),
                c <= i,
        {
            assert(self.notifications@.take(i + 1).drop_last() =~= self.notifications@.take(i as int));
            if !self.notifications[i].is_read {
                c = c + 1;
            }
        }
        assert(self.notifications@.take(n as int) =~= self.notifications@);
        c
    }

    /// The panel's header: the number of notifications, and the number of
    /// unread ones when there are any.
    pub fn panel_summary(&self) -> (r: (String, Option<String>))
        ensures
            r.0@ == "Total: "@ + decimal(self.list().len()),
            unread_count(self.list()) == 0 ==> r.1 is None,
            unread_count(self.list()) > 0 ==> (r.1 matches Some(u) && u@ == "Unread: "@ + decimal(unread_count(self.list()))),
    {
        let mut total = owned("Total: ");
        push_decimal(&mut total, self.notifications.len() as u64);
        let unread = self.get_unread_count();
        if unread == 0 {
            (total, None)
        } else {
            let mut u = owned("Unread: ");
            push_decimal(&mut u, unread as u64);
            (total, Some(u))
        }
    }

    /// The positions of the notifications shown as toasts: among the three
    /// most recent, the unread ones of medium or higher severity, in order;
    /// none when toasts are off.
    pub fn toast_indices(&self) -> (r: Vec<usize>)
        ensures
            r@ == (if self.enabled() { toasts(self.list(), min_len(self.list(), 3)) } else { Seq::empty() }),
    {
        let mut out: Vec<usize> = Vec::new();
        if !self.show_notifications {
            return out;
        }
        let mut i: usize = 0;
        while i < 3 && i < self.notifications.len()
            invariant
                i <= 3,
                i <= self.notifications@.len(),
                out@ == toasts(self.notifications@, i as int),
            decreases 3 - i,
        {
            let n = &self.notifications[i];
            if !n.is_read {
                let s = n.get_severity();
                if s == NotificationSeverity::Medium || s == NotificationSeverity::High || s == NotificationSeverity::Critical {
                    out.push(i);
                }
            }
            i = i + 1;
        }
        out
    }

    /// Turns toasts on or off.
    pub fn set_notifications_enabled(&mut self, enabled: bool)
        ensures
            final(self).enabled() == enabled,
            final(self).list() == old(self).list(),
            final(self).capacity() == old(self).capacity(),
    {
        self.show_notifications = enabled;
    }
}

/// Adding a notification keeps at most the capacity, puts the new one
/// first, and keeps the older ones in order behind it.
pub proof fn lemma_add_bounded(old_list: Seq<Notification>, new: Notification, max: int)
    requires
        max > 0,
        old_list.len() <= max,
    ensures
        pushed_front(old_list, new, max).len() <= max,
        pushed_front(old_list, new, max)[0] == new,
        forall|i: int| 1 <= i < pushed_front(old_list, new, max).len() ==> #[trigger] pushed_front(old_list, new, max)[i] == old_list[i - 1],
{
    let all = seq![new] + old_list;
    assert(all[0] == new);
    assert forall|i: int| 1 <= i < all.len() implies #[trigger] all[i] == old_list[i - 1] by {}
}

} // verus!
