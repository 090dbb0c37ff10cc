//! Staff replies to a ticket through the `/reply` modal: the reply sessions, and what a
//! submitted reply leads to.
use vstd::prelude::*;
use crate::category::BuiltInCategory;
use crate::session::SessionStore;
use crate::text::{opt_view, user_mention_text};
use crate::tickets::{
    embed_fits, flow_notice, flow_notice_text, reply_expired_text, single_embed, staff_message, user_message,
    FlowNotice, TicketMessageData, UserMessageAuthor,
};
use twilight_model::util::datetime::Timestamp;

verus! {

/// A stored ticket, as far as the ticket flows read it. Every ID is a Discord snowflake
/// but the ticket's own.
pub struct TicketRecord {
    pub id: String,
    pub guild: u64,
    /// The user who opened the ticket.
    pub with_user: u64,
    pub title: String,
    pub built_in_category: Option<BuiltInCategory>,
    pub custom_category: Option<String>,
    pub staff_thread: u64,
    pub user_thread: u64,
    /// When the ticket was closed, in Unix milliseconds.
    pub closed_at: Option<i64>,
}

/// A reply being written to a ticket.
pub struct ReplyState {
    pub ticket: TicketRecord,
}

/// The replies being written, by reply session.
pub struct ReplyStates {
    pub states: SessionStore<ReplyState>,
}

impl ReplyStates {
    /// No replies being written.
    pub fn new() -> (res: Self)
        ensures
            res.states.sessions() == Map::<Seq<char>, ReplyState>::empty(),
    {
        ReplyStates { states: SessionStore::new() }
    }
}

/// What a submitted reply leads to.
pub enum ReplyAction {
    /// Answer the staff member (only they see it) with this text; nothing is posted.
    Answer(String),
    /// Answer with `staff` in the staff thread, and post `user` in the ticket's user
    /// thread `user_thread`; then record the reply for `ticket`.
    Post { ticket: TicketRecord, user_thread: u64, staff: TicketMessageData, user: TicketMessageData },
}

/// Decides what a reply `message` (`None` when the modal held none) of staff member
/// `author_name`, written at `timestamp` in the reply session `session` (`None` when it
/// expired), leads to: a missing message, then an expired session, then a message that
/// does not fit in an embed are answered; otherwise the reply is posted under the
/// author's name on the staff side and anonymously, pinging the ticket's user, on the
/// user side.
pub fn plan_reply(message: Option<String>, session: Option<ReplyState>, author_name: &str, timestamp: Timestamp) -> (res: ReplyAction)
    ensures
        match (opt_view(message), session) {
            (None, _) => res matches ReplyAction::Answer(t) && t@ == flow_notice_text(FlowNotice::ReplyMissingData),
            (Some(m), None) => res matches ReplyAction::Answer(t)
                && t@ == "Your reply to this ticket expired. In case you need it again, here's what you entered:\n"@ + m,
            (Some(m), Some(s)) => if !(embed_fits(author_name@, m) && embed_fits("Staff"@, m)) {
                res matches ReplyAction::Answer(t) && t@ == flow_notice_text(FlowNotice::ReplyUnpostable)
            } else {
                res matches ReplyAction::Post { ticket, user_thread, staff, user } && {
                    &&& ticket == s.ticket
                    &&& user_thread == s.ticket.user_thread
                    &&& staff.content is None
                    &&& single_embed(staff, author_name@, m, timestamp)
                    &&& staff.allowed_mention_users@.len() == 0
                    &&& opt_view(user.content) == Some(user_mention_text(s.ticket.with_user))
                    &&& single_embed(user, "Staff"@, m, timestamp)
                    &&& user.allowed_mention_users@ == seq![s.ticket.with_user]
                }
            },
        },
{
    let message = match message {
        None => return ReplyAction::Answer(flow_notice(FlowNotice::ReplyMissingData)),
        Some(m) => m,
    };
    let state = match session {
        None => return ReplyAction::Answer(reply_expired_text(message.as_str())),
        Some(s) => s,
    };
    let staff = match staff_message(author_name, message.as_str(), timestamp) {
        Ok(data) => data,
        Err(_) => return ReplyAction::Answer(flow_notice(FlowNotice::ReplyUnpostable)),
    };
    let with_user = state.ticket.with_user;
    let user = match user_message(UserMessageAuthor::Staff, with_user, true, message.as_str(), timestamp) {
        Ok(data) => data,
        Err(_) => return ReplyAction::Answer(flow_notice(FlowNotice::ReplyUnpostable)),
    };
    let user_thread = state.ticket.user_thread;
    ReplyAction::Post { ticket: state.ticket, user_thread, staff, user }
}

} // verus!
