//! Message windows' state: error and update notices, and the per-window
//! soundfont configuration handle. Only the state lives here; drawing is
//! the embedding application's business.

use vstd::prelude::*;

verus! {

/// Relies on rand::random::<usize>: a fresh pseudo-random window
/// identifier. Nothing is promised of its value.
#[verifier::external_body]
fn random_id() -> usize {
    rand::random()
}

/// Which kind of notice a persistent message shows.
#[derive(Clone, Copy, PartialEq, Eq, Structural, Debug)]
enum MessageType {
    Error,
    Update,
}

/// A notice that stays visible until the user closes it: an error, or an
/// available update with its download location.
pub struct PersistentMessage {
    msg_type: MessageType,
    id: usize,
    string1: String,
    string2: String,
    string3: String,
    is_visible: bool,
}

impl PersistentMessage {
    /// Whether the notice is still shown.
    pub closed spec fn visible(&self) -> bool {
        self.is_visible
    }

    /// Whether the notice reports an error.
    pub closed spec fn is_error(&self) -> bool {
        self.msg_type is Error
    }

    /// A fresh error notice, visible until closed.
    pub fn error(title: String, body: String) -> (r: Self)
        ensures
            r.visible(),
            r.is_error(),
    {
        PersistentMessage {
            msg_type: MessageType::Error,
            id: random_id(),
            string1: title,
            string2: body,
            string3: String::new(),
            is_visible: true,
        }
    }

    /// A fresh update notice, visible until closed.
    pub fn update(version: String, url: String, body: String) -> (r: Self)
        ensures
            r.visible(),
            !r.is_error(),
    {
        PersistentMessage {
            msg_type: MessageType::Update,
            id: random_id(),
            string1: version,
            string2: url,
            string3: body,
            is_visible: true,
        }
    }

    /// Whether the notice is still shown.
    pub fn is_visible(&self) -> (r: bool)
        ensures
            r == self.visible(),
    {
        self.is_visible
    }

    /// Closes the notice.
    pub fn dismiss(&mut self)
        ensures
            !final(self).visible(),
    {
        self.is_visible = false;
    }
}

/// A plain error window: a title and a body, shown until closed.
pub struct ErrorMessage {
    id: usize,
    title: String,
    body: String,
    is_visible: bool,
}

impl ErrorMessage {
    /// Whether the window is still shown.
    pub closed spec fn visible(&self) -> bool {
        self.is_visible
    }

    /// A fresh error window, visible until closed.
    pub fn new(title: String, body: String) -> (r: Self)
        ensures
            r.visible(),
    {
        ErrorMessage { id: random_id(), title, body, is_visible: true }
    }

    /// Whether the window is still shown.
    pub fn is_visible(&self) -> (r: bool)
        ensures
            r == self.visible(),
    {
        self.is_visible
    }

    /// Closes the window.
    pub fn dismiss(&mut self)
        ensures
            !final(self).visible(),
    {
        self.is_visible = false;
    }
}

/// The state of one soundfont's configuration window, keyed by the list
/// entry's identifier.
pub struct SoundfontConfigWindow {
    pub visible: bool,
    id: usize,
}

impl SoundfontConfigWindow {
    /// The list entry the window configures.
    pub closed spec fn spec_id(&self) -> int {
        self.id as int
    }

    /// Whether the window is shown.
    pub closed spec fn spec_visible(&self) -> bool {
        self.visible
    }

    /// A fresh, visible configuration window for one list entry.
    pub fn new(id: usize) -> (r: Self)
        ensures
            r.spec_visible(),
            r.spec_id() == id,
    {
        SoundfontConfigWindow { visible: true, id }
    }

    /// The list entry the window configures.
    pub fn id(&self) -> (r: usize)
        ensures
            r == self.spec_id(),
    {
        self.id
    }
}

} // verus!
