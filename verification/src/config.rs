//! The account under which the notifier logs in.

use vstd::prelude::*;
use crate::error::{Error, ErrorKind};
use crate::user_id::{is_user_id, UserId};

verus! {

/// The notifier's account on its homeserver.
#[derive(Debug)]
pub struct ConfigInfo {
    pub matrix_username: String,
    pub matrix_password: String,
    pub homeserver_url: String,
    pub matrix_id: UserId,
}

impl ConfigInfo {
    /// The configuration with these four entries. The entry `matrix_id` has
    /// to be a user id: one that is none is refused as an entry that cannot
    /// be deserialized, with what `ruma_common` said of it.
    pub fn new(
        matrix_username: String,
        matrix_password: String,
        homeserver_url: String,
        matrix_id: &str,
    ) -> (made: Result<ConfigInfo, Error>)
        ensures
            made.is_ok() == is_user_id(matrix_id@),
            made matches Ok(config) ==> {
                &&& config.matrix_username == matrix_username
                &&& config.matrix_password == matrix_password
                &&& config.homeserver_url == homeserver_url
                &&& config.matrix_id@ == matrix_id@
            },
            made matches Err(e) ==> e@.kind() == ErrorKind::SerdeError,
    {
        match UserId::parse(matrix_id) {
            Ok(id) => Ok(
                ConfigInfo { matrix_username, matrix_password, homeserver_url, matrix_id: id },
            ),
            Err(e) => match e {
                Error::IdParse(said) => Err(Error::SerdeError(said)),
                other => Err(Error::SerdeError(other.message())),
            },
        }
    }
}

} // verus!
