//! Matrix user identifiers.

use vstd::prelude::*;
use vstd::string::StringExecFns;
use crate::error::{Error, ErrorKind, ErrorView};

verus! {

/// The error with which `ruma_common` refuses an identifier.
#[verifier::external_type_specification]
#[verifier::external_body]
pub struct ExIdParseError(ruma_common::IdParseError);

/// Trusted: whether `ruma_common` takes `text` for a Matrix user id.
pub uninterp spec fn is_user_id(text: Seq<char>) -> bool;

/// Calls `TryFrom<&str>` for `&ruma_common::UserId`, which runs the crate's
/// validation of user ids on `text` and nothing else. The contract claims
/// that the call succeeds exactly on the texts that [`is_user_id`] names.
#[verifier::external_body]
fn check_user_id(text: &str) -> (checked: Result<(), ruma_common::IdParseError>)
    ensures
        checked.is_ok() == is_user_id(text@),
{
    match <&ruma_common::UserId>::try_from(text) {
        Ok(_) => Ok(()),
        Err(e) => Err(e),
    }
}

/// Calls `to_string` on the outside error: what `ruma_common` says of the
/// refusal. Nothing is claimed of the text.
#[verifier::external_body]
fn id_error_text(e: &ruma_common::IdParseError) -> String {
    e.to_string()
}

/// A Matrix user id, such as `@carl:example.com`. Every value holds a text
/// that `ruma_common` takes for a user id.
#[derive(Debug)]
pub struct UserId {
    id: String,
}

impl View for UserId {
    type V = Seq<char>;

    closed spec fn view(&self) -> Seq<char> {
        self.id@
    }
}

impl Clone for UserId {
    fn clone(&self) -> (copy: Self)
        ensures
            copy@ == self@,
    {
        proof {
            use_type_invariant(self);
        }
        UserId { id: self.id.clone() }
    }
}

impl UserId {
    #[verifier::type_invariant]
    spec fn checked(self) -> bool {
        is_user_id(self.id@)
    }

    /// Takes `text` for a user id where it is one.
    pub fn parse(text: &str) -> (parsed: Result<UserId, Error>)
        ensures
            parsed.is_ok() == is_user_id(text@),
            parsed matches Ok(id) ==> id@ == text@,
            parsed matches Err(e) ==> e@.kind() == ErrorKind::IdParse,
    {
        match check_user_id(text) {
            Ok(_) => Ok(UserId { id: String::from_str(text) }),
            Err(e) => Err(Error::IdParse(id_error_text(&e))),
        }
    }

    /// The id as text.
    pub fn as_str(&self) -> (text: &str)
        ensures
            text@ == self@,
            is_user_id(text@),
    {
        proof {
            use_type_invariant(self);
        }
        self.id.as_str()
    }

    /// Whether this id is the one that `text` spells.
    pub fn is(&self, text: &String) -> (same: bool)
        ensures
            same == (self@ == text@),
    {
        self.id == *text
    }
}

/// The id under which the notifier itself is known.
pub const NOTIFIER_ID: &'static str = "@compute-notify:matrix.org";

/// The notifier's own user id.
pub fn notifier_id() -> (parsed: Result<UserId, Error>)
    ensures
        parsed.is_ok() == is_user_id(NOTIFIER_ID@),
        parsed matches Ok(id) ==> id@ == NOTIFIER_ID@,
        parsed matches Err(e) ==> e@.kind() == ErrorKind::IdParse,
{
    UserId::parse(NOTIFIER_ID)
}

/// The user to notify, from the text that names them. A text that is no
/// user id is handed back in the error.
pub fn target_user(text: &str) -> (parsed: Result<UserId, Error>)
    ensures
        parsed.is_ok() == is_user_id(text@),
        parsed matches Ok(id) ==> id@ == text@,
        parsed matches Err(e) ==> e@ == ErrorView::UsernameErr(text@),
{
    match UserId::parse(text) {
        Ok(id) => Ok(id),
        Err(_) => Err(Error::UsernameErr(String::from_str(text))),
    }
}

} // verus!
