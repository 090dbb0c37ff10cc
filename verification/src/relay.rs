//! Messages written in ticket threads: which are relayed to the other side of the
//! ticket, and how.
use vstd::prelude::*;
use crate::tickets::{
    author_display, embed_fits, single_embed, staff_message, user_message, TicketMessageData,
    UserMessageAuthor,
};
use crate::text::{opt_view, user_mention_text};
use twilight_model::util::datetime::Timestamp;

verus! {

/// Whether a message in a ticket thread is kept on its side as an internal note: staff
/// messages are internal unless they reply to a message that was relayed from the user.
/// `reply_to_relayed` is `None` when the message replies to nothing, otherwise whether
/// the message it replies to is a relayed ticket message.
pub open spec fn internal_note(from_staff: bool, reply_to_relayed: Option<bool>) -> bool {
    from_staff && reply_to_relayed != Some(true)
}

/// What the user writes in a ticket always reaches the staff; what the staff write stays
/// with the staff, unless it replies to a message relayed from the user. Relayed staff
/// messages reach the user as "Staff", the user's own under the user's name.
pub proof fn only_replies_to_the_user_leave_the_staff(reply_to_relayed: Option<bool>, name: Seq<char>)
    ensures
        !internal_note(false, reply_to_relayed),
        internal_note(true, None),
        internal_note(true, Some(false)),
        !internal_note(true, Some(true)),
        relay_author(true, name) == "Staff"@,
        relay_author(false, name) == name,
{
}

/// Whether a message is an internal note (see `internal_note`).
pub fn is_internal_note(from_staff: bool, reply_to_relayed: Option<bool>) -> (res: bool)
    ensures
        res == internal_note(from_staff, reply_to_relayed),
{
    if from_staff {
        match reply_to_relayed {
            Some(relayed) => !relayed,
            None => true,
        }
    } else {
        false
    }
}

/// Whether a message written by `author` in channel `channel` is relayed, and from which
/// side: never the bot's own messages (`bot_user`), nor messages in a channel that is
/// neither thread of an open ticket (`ticket_threads`, the staff thread and the user
/// thread of the open ticket found for the channel, if any); otherwise `Some(true)` for
/// the staff thread and `Some(false)` for the user thread.
pub fn message_side(author: u64, bot_user: u64, channel: u64, ticket_threads: Option<(u64, u64)>) -> (res: Option<bool>)
    ensures
        res == if author == bot_user {
            None
        } else {
            match ticket_threads {
                Some((staff, user)) => if channel == staff {
                    Some(true)
                } else if channel == user {
                    Some(false)
                } else {
                    None
                },
                None => None,
            }
        },
{
    if author == bot_user {
        return None;
    }
    match ticket_threads {
        Some((staff, user)) => {
            if channel == staff {
                Some(true)
            } else if channel == user {
                Some(false)
            } else {
                None
            }
        },
        None => None,
    }
}

/// The message a ticket message replies to: the referenced message of a plain reply;
/// nothing for other kinds of references (forwards and the like).
pub fn reply_target(reference_is_reply: bool, referenced_message: Option<u64>) -> (res: Option<u64>)
    ensures
        res == if reference_is_reply { referenced_message } else { None },
{
    if reference_is_reply {
        referenced_message
    } else {
        None
    }
}

/// What to do with a message written in a ticket thread.
pub enum RelayDecision {
    /// An internal staff note: nothing is posted.
    InternalNote,
    /// The message cannot be shown in an embed: it is dropped.
    Unpostable,
    /// Post `staff` in the staff thread and `user` in the user thread.
    Relay { staff: TicketMessageData, user: TicketMessageData },
}

/// The author under whom a message is shown to the ticket's user: staff messages are
/// anonymous.
pub open spec fn relay_author(from_staff: bool, author_name: Seq<char>) -> Seq<char> {
    if from_staff { "Staff"@ } else { author_name }
}

/// Decides how a message of `author_name` saying `content` at `timestamp` in a ticket
/// with user `ticket_user` is relayed: internal notes stay where they are; otherwise the
/// message goes to the staff thread under the author's name and to the user thread under
/// "Staff" (for staff messages, which ping the user) or the author's name, unless it does
/// not fit in an embed.
pub fn plan_relay(
    author_name: &str,
    content: &str,
    timestamp: Timestamp,
    from_staff: bool,
    reply_to_relayed: Option<bool>,
    ticket_user: u64,
) -> (res: RelayDecision)
    ensures
        internal_note(from_staff, reply_to_relayed) <==> res is InternalNote,
        !internal_note(from_staff, reply_to_relayed) ==> (res is Unpostable <==> !(embed_fits(author_name@, content@)
            && embed_fits(relay_author(from_staff, author_name@), content@))),
        res matches RelayDecision::Relay { staff, user } ==> {
            &&& staff.content is None
            &&& single_embed(staff, author_name@, content@, timestamp)
            &&& staff.allowed_mention_users@.len() == 0
            &&& opt_view(user.content) == if from_staff {
                Some(user_mention_text(ticket_user))
            } else {
                None
            }
            &&& single_embed(user, relay_author(from_staff, author_name@), content@, timestamp)
            &&& user.allowed_mention_users@ == seq![ticket_user]
        },
{
    if is_internal_note(from_staff, reply_to_relayed) {
        return RelayDecision::InternalNote;
    }
    let staff = match staff_message(author_name, content, timestamp) {
        Ok(data) => data,
        Err(_) => return RelayDecision::Unpostable,
    };
    let author = if from_staff {
        UserMessageAuthor::Staff
    } else {
        UserMessageAuthor::User(String::from_str(author_name))
    };
    assert(author_display(author) == relay_author(from_staff, author_name@));
    let user = match user_message(author, ticket_user, from_staff, content, timestamp) {
        Ok(data) => data,
        Err(_) => return RelayDecision::Unpostable,
    };
    RelayDecision::Relay { staff, user }
}

/// The staff-side message that a stored ticket message points to: the relayed copy when
/// one was posted, the message itself (an internal note) otherwise.
pub fn recorded_staff_message(relayed_copy: Option<u64>, written: u64) -> (res: u64)
    ensures
        res == match relayed_copy {
            Some(id) => id,
            None => written,
        },
{
    match relayed_copy {
        Some(id) => id,
        None => written,
    }
}

} // verus!
