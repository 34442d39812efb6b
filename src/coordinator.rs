//! The file-open coordinator: a single-slot mailbox between "open this file"
//! notifications and the moment the server becomes ready.
//!
//! Before readiness an accepted notification is stored, replacing any earlier
//! one that was not yet consumed. Readiness takes the stored path, if any,
//! exactly once. After readiness a notification is handed straight back to
//! be staged and shown.

use vstd::prelude::*;
use crate::text::{chars_of, ends_with, ends_with_seq};

verus! {

/// The reserved file extension, dot included.
pub open spec fn doc_extension() -> Seq<char> {
    seq!['.', 'i', 'm', 'f']
}

/// Whether a notified path or address names a document of this application.
pub open spec fn is_document(path: Seq<char>) -> bool {
    ends_with(path, doc_extension())
}

/// Whether `path` ends with the reserved extension.
pub fn has_doc_extension(path: &str) -> (r: bool)
    ensures
        r == is_document(path@),
{
    let cs = chars_of(path);
    let ext: Vec<char> = vec!['.', 'i', 'm', 'f'];
    assert(ext@ == doc_extension());
    ends_with_seq(&cs, &ext)
}

/// An "open this file" notification as the host delivers it: an address,
/// which for the `file` scheme may convert to a local path.
pub struct OpenedUrl {
    /// The address uses the `file` scheme.
    pub is_file: bool,
    /// The local path of a `file` address, when it converts to one.
    pub file_path: Option<String>,
    /// The whole address as text.
    pub text: String,
}

/// The path a notification stands for: the local path of a `file` address,
/// or else the address text itself; kept only when it names a document.
pub open spec fn notified_path(is_file: bool, file_path: Option<Seq<char>>, text: Seq<char>) -> Option<
    Seq<char>,
> {
    let candidate = if is_file {
        file_path
    } else {
        Some(text)
    };
    match candidate {
        Some(p) => if is_document(p) {
            Some(p)
        } else {
            None
        },
        None => None,
    }
}

/// The characters of an optional string.
pub open spec fn opt_string_view(s: Option<String>) -> Option<Seq<char>> {
    match s {
        Some(x) => Some(x@),
        None => None,
    }
}

/// Extracts the document path that a notification refers to, if it names one.
pub fn imf_path_from_url(url: OpenedUrl) -> (r: Option<String>)
    ensures
        opt_string_view(r) == notified_path(url.is_file, opt_string_view(url.file_path), url.text@),
{
    let candidate = if url.is_file {
        url.file_path
    } else {
        Some(url.text)
    };
    match candidate {
        Some(p) => if has_doc_extension(p.as_str()) {
            Some(p)
        } else {
            None
        },
        None => None,
    }
}

/// What to do with an accepted notification.
#[derive(Debug, PartialEq, Eq)]
pub enum OpenAction {
    /// Not a document: drop it silently.
    Ignore,
    /// Not ready yet: the path waits in the mailbox.
    Deferred,
    /// Ready: stage this path and show it on the server at this port.
    Show { path: String, port: u16 },
}

/// Abstract state of the coordinator: the path waiting in the mailbox, and
/// the server's port once it is ready.
pub struct CoordState {
    pub pending: Option<Seq<char>>,
    pub port: Option<u16>,
}

/// The state before anything happened.
pub open spec fn initial_state() -> CoordState {
    CoordState { pending: None, port: None }
}

/// The effect of an action on the abstract level: ignored, deferred, or the
/// path to show with the port.
pub enum OpenEffect {
    Ignore,
    Deferred,
    Show(Seq<char>, u16),
}

/// A notification for `path`: ignored unless it names a document; stored
/// (replacing any earlier one) before readiness; shown at once after it.
pub open spec fn notify_spec(s: CoordState, path: Seq<char>) -> (CoordState, OpenEffect) {
    if !is_document(path) {
        (s, OpenEffect::Ignore)
    } else {
        match s.port {
            Some(port) => (s, OpenEffect::Show(path, port)),
            None => (CoordState { pending: Some(path), port: None }, OpenEffect::Deferred),
        }
    }
}

/// Readiness with `port`: the mailbox is emptied and its content handed out.
pub open spec fn ready_spec(s: CoordState, port: u16) -> (CoordState, Option<Seq<char>>) {
    (CoordState { pending: None, port: Some(port) }, s.pending)
}

/// The abstract effect of an action.
pub open spec fn effect_of(a: OpenAction) -> OpenEffect {
    match a {
        OpenAction::Ignore => OpenEffect::Ignore,
        OpenAction::Deferred => OpenEffect::Deferred,
        OpenAction::Show { path, port } => OpenEffect::Show(path@, port),
    }
}

/// The coordinator itself. The host keeps it behind a lock shared by the
/// notification handler and the start-up routine.
pub struct Coordinator {
    pending: Option<String>,
    port: Option<u16>,
}

impl View for Coordinator {
    type V = CoordState;

    closed spec fn view(&self) -> CoordState {
        CoordState { pending: opt_string_view(self.pending), port: self.port }
    }
}

impl Coordinator {
    /// A coordinator with an empty mailbox that is not ready yet.
    pub fn new() -> (r: Coordinator)
        ensures
            r@ == initial_state(),
    {
        Coordinator { pending: None, port: None }
    }

    /// The port once the server is ready.
    pub fn port(&self) -> (r: Option<u16>)
        ensures
            r == self@.port,
    {
        self.port
    }

    /// Whether a path waits in the mailbox.
    pub fn has_pending(&self) -> (r: bool)
        ensures
            r == self@.pending is Some,
    {
        self.pending.is_some()
    }

    /// Handles an "open this file" notification for `path`.
    pub fn notify_open(&mut self, path: String) -> (r: OpenAction)
        ensures
            (final(self)@, effect_of(r)) == notify_spec(old(self)@, path@),
    {
        if !has_doc_extension(path.as_str()) {
            return OpenAction::Ignore;
        }
        match self.port {
            Some(port) => OpenAction::Show { path, port },
            None => {
                self.pending = Some(path);
                OpenAction::Deferred
            },
        }
    }

    /// Marks the server ready on `port` and takes the waiting path, if any.
    pub fn become_ready(&mut self, port: u16) -> (r: Option<String>)
        ensures
            (final(self)@, opt_string_view(r)) == ready_spec(old(self)@, port),
    {
        self.port = Some(port);
        self.pending.take()
    }
}

/// How many times a path is handed out for staging by one effect.
pub open spec fn effect_resolutions(e: OpenEffect) -> nat {
    match e {
        OpenEffect::Show(_, _) => 1,
        _ => 0,
    }
}

/// How many paths readiness hands out for staging.
pub open spec fn taken_resolutions(t: Option<Seq<char>>) -> nat {
    match t {
        Some(_) => 1,
        None => 0,
    }
}

/// Whichever of a document notification and readiness comes first, the
/// document is handed out for staging exactly once, and the mailbox ends empty.
pub proof fn lemma_one_resolution_either_order(path: Seq<char>, port: u16)
    requires
        is_document(path),
    ensures
        ({
            let (s1, e1) = notify_spec(initial_state(), path);
            let (s2, t2) = ready_spec(s1, port);
            &&& effect_resolutions(e1) + taken_resolutions(t2) == 1
            &&& t2 == Some(path)
            &&& s2.pending is None
        }),
        ({
            let (s1, t1) = ready_spec(initial_state(), port);
            let (s2, e2) = notify_spec(s1, path);
            &&& taken_resolutions(t1) + effect_resolutions(e2) == 1
            &&& e2 == OpenEffect::Show(path, port)
            &&& s2.pending is None
        }),
{
}

/// A notification that names no document leaves the state as it was and asks
/// for nothing to be shown.
pub proof fn lemma_foreign_file_ignored(s: CoordState, path: Seq<char>)
    requires
        !is_document(path),
    ensures
        notify_spec(s, path) == (s, OpenEffect::Ignore),
{
}

/// Before readiness the last notification wins: readiness hands out only the
/// latest document.
pub proof fn lemma_last_notification_wins(first: Seq<char>, second: Seq<char>, port: u16)
    requires
        is_document(first),
        is_document(second),
    ensures
        ({
            let (s1, _) = notify_spec(initial_state(), first);
            let (s2, _) = notify_spec(s1, second);
            ready_spec(s2, port).1 == Some(second)
        }),
{
}

} // verus!
