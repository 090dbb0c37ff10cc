//! The names under which users appear in tickets.
use vstd::prelude::*;

verus! {

/// User data obtained from guild member data, falling back to the user data if the
/// guild member data is not available.
#[derive(Debug)]
pub struct UserData {
    pub display_name: String,
}

/// The name a server member goes by: the server nickname, else the global display name,
/// else the account name.
pub fn member_user_data(nick: Option<String>, global_name: Option<String>, name: String) -> (res: UserData)
    ensures
        res.display_name == match (nick, global_name) {
            (Some(n), _) => n,
            (None, Some(g)) => g,
            (None, None) => name,
        },
{
    let display_name = match nick {
        Some(n) => n,
        None => match global_name {
            Some(g) => g,
            None => name,
        },
    };
    UserData { display_name }
}

/// The name a user goes by outside a server: the global display name, else the account name.
pub fn user_user_data(global_name: Option<String>, name: String) -> (res: UserData)
    ensures
        res.display_name == match global_name {
            Some(g) => g,
            None => name,
        },
{
    let display_name = match global_name {
        Some(g) => g,
        None => name,
    };
    UserData { display_name }
}

} // verus!
