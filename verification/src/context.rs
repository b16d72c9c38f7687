//! The user on whose behalf an invocation runs.

use crate::auth::{has_group, in_groups, texts};
use crate::host::Host;
use vstd::prelude::*;

verus! {

/// The user of the current invocation, as the host knows them.
pub struct CurrentUser {
    pub user_id: String,
    pub username: String,
    pub groups: Vec<String>,
}

/// Another name for `CurrentUser`.
pub type CurrentUserInfo = CurrentUser;

/// Asks the host for the user of the current invocation.
pub fn current_user<H: Host>(host: &H) -> (user: Option<CurrentUser>)
    ensures
        call_ensures(H::get_current_user, (host,), user),
{
    host.get_current_user()
}

/// Questions about the current user.
pub trait CurrentUserExt {
    /// The groups that the user is in.
    spec fn member_of(&self) -> Seq<Seq<char>>;

    /// Whether the user is in `group`.
    fn is_in_group(&self, group: &str) -> (found: bool)
        ensures
            found == has_group(self.member_of(), group@),
    ;
}

impl CurrentUserExt for CurrentUser {
    open spec fn member_of(&self) -> Seq<Seq<char>> {
        texts(self.groups@)
    }

    fn is_in_group(&self, group: &str) -> (found: bool) {
        in_groups(&self.groups, group)
    }
}

} // verus!
