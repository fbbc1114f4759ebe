//! Clipboard content shared by both ends, and the manager that tells when
//! it has changed since it was last synchronised.

use vstd::prelude::*;

verus! {

/// Content of the clipboard.
#[derive(Debug, Clone, PartialEq)]
pub enum ClipboardContent {
    Text(String),
}

impl ClipboardContent {
    /// The text held.
    pub open spec fn text(self) -> Seq<char> {
        match self {
            ClipboardContent::Text(s) => s@,
        }
    }
}

/// The text of an optional content.
pub open spec fn content_text(c: Option<ClipboardContent>) -> Option<Seq<char>> {
    match c {
        Some(c) => Some(c.text()),
        None => None,
    }
}

/// Whether two optional contents hold the same text.
fn same_content(a: &Option<ClipboardContent>, b: &Option<ClipboardContent>) -> (r: bool)
    ensures
        r == (content_text(*a) == content_text(*b)),
{
    match (a, b) {
        (Some(ClipboardContent::Text(x)), Some(ClipboardContent::Text(y))) => {
            let eq = x.eq(y);
            assert(content_text(*a) == Some(x@));
            assert(content_text(*b) == Some(y@));
            eq
        },
        (None, None) => true,
        _ => false,
    }
}

/// A copy of an optional content.
fn copy_content(c: &Option<ClipboardContent>) -> (r: Option<ClipboardContent>)
    ensures
        content_text(r) == content_text(*c),
{
    match c {
        Some(ClipboardContent::Text(s)) => Some(ClipboardContent::Text(s.clone())),
        None => None,
    }
}

/// What a check for changes returns, and what the manager then records as
/// checked: the latest content when it differs from the one last checked.
pub open spec fn check_result(last: Option<Seq<char>>, checked: Option<Seq<char>>) -> (
    Option<Seq<char>>,
    Option<Seq<char>>,
) {
    if last != checked {
        (last, last)
    } else {
        (None, checked)
    }
}

/// Remembers the latest clipboard content and the content last reported as
/// a change.
pub struct ClipboardManager {
    last_content: Option<ClipboardContent>,
    last_checked: Option<ClipboardContent>,
}

impl ClipboardManager {
    /// The latest content set.
    pub closed spec fn latest(self) -> Option<Seq<char>> {
        content_text(self.last_content)
    }

    /// The content last reported as a change.
    pub closed spec fn checked(self) -> Option<Seq<char>> {
        content_text(self.last_checked)
    }

    /// A manager that has seen no content.
    pub fn new() -> (m: Self)
        ensures
            m.latest() is None,
            m.checked() is None,
    {
        ClipboardManager { last_content: None, last_checked: None }
    }

    /// Returns the latest content if it differs from the content last
    /// returned, and remembers it as returned; otherwise returns `None`.
    pub fn check_changes(&mut self) -> (r: Option<ClipboardContent>)
        ensures
            content_text(r) == check_result(old(self).latest(), old(self).checked()).0,
            final(self).checked() == check_result(old(self).latest(), old(self).checked()).1,
            final(self).latest() == old(self).latest(),
    {
        if !same_content(&self.last_content, &self.last_checked) {
            let changed = copy_content(&self.last_content);
            self.last_checked = copy_content(&self.last_content);
            changed
        } else {
            None
        }
    }

    /// Records new clipboard content.
    pub fn set_content(&mut self, content: ClipboardContent)
        ensures
            final(self).latest() == Some(content.text()),
            final(self).checked() == old(self).checked(),
    {
        self.last_content = Some(content);
    }

    /// The latest content set, if any.
    pub fn get_last_content(&self) -> (r: Option<&ClipboardContent>)
        ensures
            self.latest() is None <==> r is None,
            r matches Some(c) ==> self.latest() == Some(c.text()),
    {
        self.last_content.as_ref()
    }
}

impl Default for ClipboardManager {
    fn default() -> (m: Self)
        ensures
            m.latest() is None,
            m.checked() is None,
    {
        Self::new()
    }
}

/// Law: a change is reported once. Right after a check, a second check
/// reports nothing and records nothing new.
pub proof fn law_change_reported_once(last: Option<Seq<char>>, checked: Option<Seq<char>>)
    ensures
        ({
            let after = check_result(last, checked).1;
            &&& check_result(last, after).0 is None
            &&& check_result(last, after).1 == after
        }),
{
}

/// Law: new content is reported. After content is set, the next check
/// returns it unless it equals the content last reported; and then it is
/// what counts as reported.
pub proof fn law_set_content_is_reported(text: Seq<char>, checked: Option<Seq<char>>)
    ensures
        Some(text) != checked ==> check_result(Some(text), checked).0 == Some(text),
        Some(text) == checked ==> check_result(Some(text), checked).0 is None,
        check_result(Some(text), checked).1 == Some(text),
{
}

} // verus!
