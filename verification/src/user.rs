//! Users: opaque records that are listed as the store holds them.

use crate::store::{CommandView, StoreCommand};
use vstd::prelude::*;

verus! {

/// One user, as the record that the store holds for it.
#[derive(Clone, Debug, PartialEq, Eq)]
pub struct User {
    pub record: String,
}

impl View for User {
    type V = Seq<char>;

    open spec fn view(&self) -> Seq<char> {
        self.record@
    }
}

impl DeepView for User {
    type V = Seq<char>;

    open spec fn deep_view(&self) -> Seq<char> {
        self@
    }
}

impl User {
    /// The request that reads every stored user. Its reply goes to
    /// [`User::all`].
    pub fn select_all() -> (command: StoreCommand)
        ensures
            command@ == CommandView::SelectUsers,
    {
        StoreCommand::SelectUsers
    }

    /// The users behind the reply to [`User::select_all`]: one for each
    /// record, unchanged and in the same order.
    pub fn all(records: Vec<String>) -> (users: Vec<User>)
        ensures
            users.deep_view() == records.deep_view(),
    {
        let ghost stored = records.deep_view();
        let mut users: Vec<User> = Vec::new();
        for record in it: records.into_iter()
            invariant
                stored == records.deep_view(),
                it.seq().len() == stored.len(),
                forall|k: int| 0 <= k < stored.len() ==> (#[trigger] it.seq()[k])@ == stored[k],
                users.len() == it.index(),
                forall|k: int| 0 <= k < it.index() ==> (#[trigger] users[k])@ == stored[k],
        {
            users.push(User { record });
        }
        assert(users.deep_view() =~= stored);
        users
    }
}

} // verus!
