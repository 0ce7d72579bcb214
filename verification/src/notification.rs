//! The notification window manager: at most one transient notification
//! window, newest request wins, idempotent close.
//!
//! The window itself is a platform object; this module decides. A show is
//! planned as a [`ShowCommand`] — close the old window first, then build one
//! with the fixed geometry and style and inject the JSON-encoded payload —
//! and the platform layer's answer is folded back in, so that the manager's
//! record of the live window is exact whatever that answer was.

use vstd::prelude::*;

verus! {

/// The JSON text of a string value.
pub uninterp spec fn json_string_of(s: Seq<char>) -> Seq<char>;

/// Relies on serde_json::to_string: the JSON text of a string value
/// depends on its characters alone, and serializing a string cannot fail
/// (its serializer only writes an escaped string literal into a byte
/// buffer, which never errors).
#[verifier::external_body]
fn json_encode_string(s: &String) -> (r: Result<String, String>)
    ensures
        r is Ok,
        (r matches Ok(j) ==> j@ == json_string_of(s@)),
{
    serde_json::to_string(s).map_err(|e| e.to_string())
}

/// The window identifier reserved for the notification window.
pub open spec fn notification_label() -> Seq<char> {
    "notification"@
}

/// The identifier under which the notification window is registered.
pub fn notification_label_str() -> (r: &'static str)
    ensures
        r@ == notification_label(),
{
    "notification"
}

/// Everything the platform layer needs to realize one notification
/// window: whether to close the previous one first, the fixed geometry
/// and style, the view to load, and the payload to inject once the
/// window is built.
pub struct ShowCommand {
    /// Close the existing notification window first, best-effort
    /// (single-instance rule: the newest request wins).
    pub close_existing: bool,
    /// Window identifier: always `"notification"`.
    pub label: String,
    /// The view the window loads.
    pub url: String,
    /// Window title.
    pub title: String,
    /// Fixed width in pixels.
    pub width: u32,
    /// Fixed height in pixels.
    pub height: u32,
    /// Window decorations: always off.
    pub decorations: bool,
    /// Transparent background: always on.
    pub transparent: bool,
    /// Keep above every other window: always on.
    pub always_on_top: bool,
    /// Resizable: always off.
    pub resizable: bool,
    /// Hide from the task switcher: always on.
    pub skip_taskbar: bool,
    /// Center on screen: always on.
    pub centered: bool,
    /// The message, JSON-encoded, ready to assign to the window's global
    /// payload slot after construction.
    pub payload_json: String,
}

/// What a well-formed show command says, given the message to display and
/// whether a notification window is currently live.
pub open spec fn show_command_well_formed(
    c: ShowCommand,
    message: Seq<char>,
    had_window: bool,
) -> bool {
    &&& c.close_existing == had_window
    &&& c.label@ == notification_label()
    &&& c.url@ == "notification.html"@
    &&& c.title@ == "Notification"@
    &&& c.width == 600
    &&& c.height == 200
    &&& !c.decorations
    &&& c.transparent
    &&& c.always_on_top
    &&& !c.resizable
    &&& c.skip_taskbar
    &&& c.centered
    &&& c.payload_json@ == json_string_of(message)
}

/// Owns the single notification window: remembers the message the live
/// window carries, if one exists.
pub struct NotificationManager {
    current: Option<String>,
}

impl NotificationManager {
    /// The message shown by the live notification window, if any.
    pub closed spec fn current_message(&self) -> Option<Seq<char>> {
        match self.current {
            Some(m) => Some(m@),
            None => None,
        }
    }

    /// Whether a notification window is live.
    pub open spec fn has_window(&self) -> bool {
        self.current_message() is Some
    }

    /// At startup no notification window exists.
    pub fn new() -> (m: NotificationManager)
        ensures
            !m.has_window(),
    {
        NotificationManager { current: None }
    }

    /// Whether a notification window is live.
    pub fn is_open(&self) -> (r: bool)
        ensures
            r == self.has_window(),
    {
        self.current.is_some()
    }

    /// The message carried by the live notification window, if any.
    pub fn open_message(&self) -> (r: Option<&String>)
        ensures
            (r matches Some(m) ==> self.current_message() == Some(m@)),
            r is None ==> !self.has_window(),
    {
        self.current.as_ref()
    }

    /// Plans a show: the command the platform layer must run. The previous
    /// window is to be closed exactly when one is live, and the payload is
    /// the JSON encoding of the message, computed before any window work
    /// so that a construction failure never delivers a payload.
    pub fn begin_show(&self, message: &String) -> (c: ShowCommand)
        ensures
            show_command_well_formed(c, message@, self.has_window()),
    {
        let payload_json = json_encode_string(message).unwrap();
        ShowCommand {
            close_existing: self.current.is_some(),
            label: notification_label_str().to_owned(),
            url: "notification.html".to_owned(),
            title: "Notification".to_owned(),
            width: 600,
            height: 200,
            decorations: false,
            transparent: true,
            always_on_top: true,
            resizable: false,
            skip_taskbar: true,
            centered: true,
            payload_json,
        }
    }

    /// Folds the platform layer's answer to a show command back in, and
    /// answers the caller. On success exactly one notification window is
    /// live and it carries the newest message; on failure none is (the
    /// previous window was already closed), and the construction error is
    /// passed through.
    pub fn finish_show(&mut self, message: String, built: Result<(), String>) -> (r: Result<
        (),
        String,
    >)
        ensures
            r == built,
            built is Ok ==> final(self).current_message() == Some(message@),
            built is Err ==> !final(self).has_window(),
    {
        match built {
            Ok(u) => {
                self.current = Some(message);
                Ok(u)
            },
            Err(e) => {
                self.current = None;
                Err(e)
            },
        }
    }

    /// The close command: answers whether the platform layer must be told
    /// to close a window (a request when none is live is a no-op), and
    /// forgets the window either way — a close failure is swallowed, and
    /// closing an already-closed window is not an application error.
    /// Afterwards zero notification windows are live.
    pub fn close_notification(&mut self) -> (issue_close: bool)
        ensures
            issue_close == old(self).has_window(),
            !final(self).has_window(),
    {
        let issue_close = self.current.is_some();
        self.current = None;
        issue_close
    }
}

} // verus!
