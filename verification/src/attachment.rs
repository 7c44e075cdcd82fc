//! What the path of an attachment says of it: its media type, and the name
//! under which it is sent.

use vstd::prelude::*;
use vstd::string::StringExecFns;
use crate::error::{Error, ErrorView};

verus! {

/// The name under which a file is sent when its own cannot be shown as
/// text.
pub const FALLBACK_NAME: &'static str = "file";

/// The last component of a path.
#[derive(Clone, Debug)]
pub enum LastComponent {
    /// The path has none, as when it ends in `..`.
    Missing,
    /// The path has one that is no Unicode text.
    Unreadable,
    /// The path has this one.
    Named(String),
}

/// The mathematical value of a [`LastComponent`].
pub enum LastComponentView {
    Missing,
    Unreadable,
    Named(Seq<char>),
}

impl View for LastComponent {
    type V = LastComponentView;

    open spec fn view(&self) -> LastComponentView {
        match self {
            LastComponent::Missing => LastComponentView::Missing,
            LastComponent::Unreadable => LastComponentView::Unreadable,
            LastComponent::Named(name) => LastComponentView::Named(name@),
        }
    }
}

/// Trusted: the media type that `mime_guess` gives for a path.
pub uninterp spec fn guessed_mime(path: Seq<char>) -> Seq<char>;

/// Trusted: the last component that `std::path::Path` finds in a path.
pub uninterp spec fn last_component(path: Seq<char>) -> LastComponentView;

/// Calls `mime_guess::from_path`, which looks the path's extension up in a
/// fixed table without opening the file, then `first_or_octet_stream` and
/// `essence_str`: the first media type of the table's entry, or
/// `application/octet-stream` where there is no entry, as `type/subtype`.
/// The contract claims that the result depends on the path's text alone,
/// and gives it the name [`guessed_mime`].
#[verifier::external_body]
fn guess_mime(path: &str) -> (mime: String)
    ensures
        mime@ == guessed_mime(path@),
{
    mime_guess::from_path(path).first_or_octet_stream().essence_str().to_string()
}

/// Calls `std::path::Path::file_name`, which returns the final component
/// of the path if there is one and `None` if the path ends in `..`, and
/// `to_str` on what it found. The file system is not asked. The contract
/// claims that the result depends on the path's text alone, and gives it
/// the name [`last_component`].
#[verifier::external_body]
fn find_last_component(path: &str) -> (found: LastComponent)
    ensures
        found@ == last_component(path@),
{
    match std::path::Path::new(path).file_name() {
        None => LastComponent::Missing,
        Some(name) => match name.to_str() {
            None => LastComponent::Unreadable,
            Some(text) => LastComponent::Named(text.to_string()),
        },
    }
}

/// The name under which a file is sent: its last component, [`FALLBACK_NAME`]
/// where that is unreadable, none where the path has no last component.
pub open spec fn sent_name(component: LastComponentView) -> Option<Seq<char>> {
    match component {
        LastComponentView::Missing => None,
        LastComponentView::Unreadable => Some(FALLBACK_NAME@),
        LastComponentView::Named(name) => Some(name),
    }
}

/// The name under which a file with the last component `component` is
/// sent. A path without one names no file.
pub fn name_to_send(component: LastComponent) -> (name: Result<String, Error>)
    ensures
        match name {
            Ok(text) => sent_name(component@) == Some(text@),
            Err(e) => sent_name(component@).is_none() && e@ == ErrorView::MissingFilename,
        },
{
    match component {
        LastComponent::Missing => Err(Error::MissingFilename),
        LastComponent::Unreadable => Ok(String::from_str(FALLBACK_NAME)),
        LastComponent::Named(name) => Ok(name),
    }
}

/// The media type under which the file at `path` is uploaded.
pub fn content_type(path: &str) -> (mime: String)
    ensures
        mime@ == guessed_mime(path@),
{
    guess_mime(path)
}

/// The name under which the file at `path` is sent.
pub fn file_name(path: &str) -> (name: Result<String, Error>)
    ensures
        match name {
            Ok(text) => sent_name(last_component(path@)) == Some(text@),
            Err(e) => sent_name(last_component(path@)).is_none() && e@
                == ErrorView::MissingFilename,
        },
{
    name_to_send(find_last_component(path))
}

} // verus!
