//! The submission of a ticket from the ticket modal, step by step. Each step takes what
//! the previous outside action (a session lookup, an invite lookup, a database read, the
//! posting of the ticket) brought back, and says what to do next.
use vstd::prelude::*;
use crate::category::{BuiltInCategory, CreateTicketState, CustomCategory, GuildSettings};
use crate::invite::{invite_code, invite_code_from_url};
use crate::text::{opt_view, owned};
use crate::tickets::{
    check_partner_invite, check_ticket_fields, compose_ticket_message, embed_fits, fields_problem,
    invite_problem, partner_ticket_message, problem_text, single_embed, staff_message,
    staff_ticket_title, submission_problem_text, ticket_message_spec, user_message, InviteLookup,
    QuestionAnswer, TicketMessageData, TicketModalValues, TicketSubmissionProblem, UserMessageAuthor,
};
use twilight_model::util::datetime::Timestamp;

verus! {

/// The title and message of a submission that passed the checks on what was entered.
pub struct SubmissionDraft {
    pub title: String,
    pub message: String,
    /// The partner invite URL that was entered, if any.
    pub invite_url: Option<String>,
}

/// Both sides of a ticket, ready to be posted: the user's private thread in the server's
/// start ticket channel, and the staff's forum thread.
pub struct TicketPosting {
    /// The channel that holds the user's thread.
    pub user_channel: u64,
    /// The forum channel that receives the staff's thread.
    pub staff_channel: u64,
    /// The title of the user's thread.
    pub title: String,
    /// The title of the staff's thread.
    pub staff_title: String,
    /// The ticket's message.
    pub message: String,
    pub staff: TicketMessageData,
    pub user: TicketMessageData,
}

/// What to do next with a submission.
pub enum SubmissionAction {
    /// Answer the user with this text; the submission ends there.
    Answer(String),
    /// The interaction does not have the shape the flow gives it: give up with an error.
    Fail,
    /// Take the ticket creation session out of the store, then call `after_session`.
    TakeSession(SubmissionDraft),
    /// Ask Discord about the partner invite `code`, then call `after_invite`.
    LookUpInvite { draft: SubmissionDraft, state: CreateTicketState, invite_url: String, code: String },
    /// Read the server's settings, then call `after_guild`.
    LoadGuild { draft: SubmissionDraft, state: CreateTicketState },
    /// Read the custom category with ID `id`, then call `after_custom_category`.
    LoadCustomCategory { id: String, posting: TicketPosting },
    /// Post both sides of the ticket, then call `after_posting`.
    Post(TicketPosting),
}

/// The text of `problem` for a submission with title `title` and message `message`.
pub open spec fn answer_for(problem: TicketSubmissionProblem, title: Seq<char>, message: Seq<char>) -> Seq<char> {
    problem_text(problem, title, message)
}

/// The value inside `o`, or nothing.
pub open spec fn or_empty(o: Option<Seq<char>>) -> Seq<char> {
    match o {
        Some(s) => s,
        None => Seq::empty(),
    }
}

/// Starts a submission from the modal's values and the looked-up form answers: the
/// message is the body, or the answers when no body was entered; then the title and
/// message are checked (both present, title at most 60 bytes).
pub fn begin_submission(modal: TicketModalValues, answers: Vec<QuestionAnswer>) -> (res: SubmissionAction)
    ensures
        ({
            let title = opt_view(modal.title);
            let message = ticket_message_spec(opt_view(modal.body), answers@);
            match fields_problem(title, message) {
                Some(p) => res matches SubmissionAction::Answer(t) && t@ == answer_for(p, or_empty(title), or_empty(message)),
                None => res matches SubmissionAction::TakeSession(d) && d.title@ == title->0 && d.message@ == message->0
                    && opt_view(d.invite_url) == opt_view(modal.invite_url),
            }
        }),
{
    let TicketModalValues { invite_url, title, body, question_answers: _ } = modal;
    let message = compose_ticket_message(body, answers);
    match check_ticket_fields(&title, &message) {
        Some(p) => {
            let t = match &title {
                Some(t) => t.clone(),
                None => String::new(),
            };
            let m = match &message {
                Some(m) => m.clone(),
                None => String::new(),
            };
            SubmissionAction::Answer(submission_problem_text(p, t.as_str(), m.as_str()))
        },
        None => match (title, message) {
            (Some(title), Some(message)) => SubmissionAction::TakeSession(SubmissionDraft { title, message, invite_url }),
            _ => SubmissionAction::Fail,
        },
    }
}

/// Goes on once the creation session was taken out of the store: an expired session ends
/// the submission; a new partner ticket needs a readable invite URL (its absence is an
/// error of the flow) whose code is then looked up; other tickets go on to the server's
/// settings.
pub fn after_session(draft: SubmissionDraft, session: Option<CreateTicketState>) -> (res: SubmissionAction)
    ensures
        match session {
            None => res matches SubmissionAction::Answer(t)
                && t@ == answer_for(TicketSubmissionProblem::Expired, draft.title@, draft.message@),
            Some(state) => if state.built_in_category == Some(BuiltInCategory::NewPartner) {
                match draft.invite_url {
                    None => res is Fail,
                    Some(url) => match invite_code(url@) {
                        None => res matches SubmissionAction::Answer(t)
                            && t@ == answer_for(TicketSubmissionProblem::InvalidInvite, draft.title@, draft.message@),
                        Some(code) => res matches SubmissionAction::LookUpInvite { draft: d, state: s, invite_url: u, code: c }
                            && c@ == code && u@ == url@ && s == state && d == draft,
                    },
                }
            } else {
                res matches SubmissionAction::LoadGuild { draft: d, state: s } && d == draft && s == state
            },
        },
{
    let state = match session {
        None => {
            return SubmissionAction::Answer(
                submission_problem_text(TicketSubmissionProblem::Expired, draft.title.as_str(), draft.message.as_str()),
            );
        },
        Some(state) => state,
    };
    if state.built_in_category == Some(BuiltInCategory::NewPartner) {
        let url = match &draft.invite_url {
            None => return SubmissionAction::Fail,
            Some(url) => url.clone(),
        };
        match invite_code_from_url(url.as_str()) {
            None => SubmissionAction::Answer(
                submission_problem_text(TicketSubmissionProblem::InvalidInvite, draft.title.as_str(), draft.message.as_str()),
            ),
            Some(code) => SubmissionAction::LookUpInvite { draft, state, invite_url: url, code },
        }
    } else {
        SubmissionAction::LoadGuild { draft, state }
    }
}

/// Goes on once Discord answered about the partner invite: an unknown invite, one that
/// does not lead to a server, or one that expires ends the submission; otherwise the
/// message is prefixed with the invite URL and the server's settings are read.
pub fn after_invite(draft: SubmissionDraft, state: CreateTicketState, invite_url: String, lookup: InviteLookup) -> (res: SubmissionAction)
    ensures
        match invite_problem(lookup) {
            Some(p) => res matches SubmissionAction::Answer(t) && t@ == answer_for(p, draft.title@, draft.message@),
            None => res matches SubmissionAction::LoadGuild { draft: d, state: s }
                && s == state
                && d.title@ == draft.title@
                && d.message@ == "**Partner invite URL**: "@ + invite_url@ + "\n\n"@ + draft.message@
                && opt_view(d.invite_url) == Some(invite_url@),
        },
{
    match check_partner_invite(lookup) {
        Some(p) => SubmissionAction::Answer(submission_problem_text(p, draft.title.as_str(), draft.message.as_str())),
        None => {
            let message = partner_ticket_message(invite_url.as_str(), draft.message.as_str());
            SubmissionAction::LoadGuild { draft: SubmissionDraft { title: draft.title, message, invite_url: Some(invite_url) }, state }
        },
    }
}

/// The staff forum channel of the chosen built-in category, when it has one of its own.
pub open spec fn builtin_staff_channel(c: Option<BuiltInCategory>, guild: GuildSettings) -> Option<Option<u64>> {
    match c {
        Some(BuiltInCategory::NewPartner) => Some(guild.new_partner_ticket_channel),
        Some(BuiltInCategory::ExistingPartner) => Some(guild.existing_partner_ticket_channel),
        _ => None,
    }
}

/// Whether `p` holds the two sides of the ticket with title `title` and message `message`
/// from `submitter_name` (user `submitter_id`) sent at `timestamp`, the user's thread in
/// `user_channel`.
pub open spec fn posting_of(
    p: TicketPosting,
    user_channel: u64,
    title: Seq<char>,
    message: Seq<char>,
    submitter_id: u64,
    submitter_name: Seq<char>,
    timestamp: Timestamp,
) -> bool {
    &&& p.user_channel == user_channel
    &&& p.title@ == title
    &&& p.staff_title@ == title + " ["@ + submitter_name + "]"@
    &&& p.message@ == message
    &&& p.staff.content is None
    &&& single_embed(p.staff, submitter_name, message, timestamp)
    &&& p.staff.allowed_mention_users@.len() == 0
    &&& p.user.content is None
    &&& single_embed(p.user, submitter_name, message, timestamp)
    &&& p.user.allowed_mention_users@ == seq![submitter_id]
}

/// A partner ticket's staff side goes to the server's channel for that kind of partner
/// ticket, whatever the other partner channel holds: an existing partner ticket to the
/// existing partner ticket channel, a new partner ticket to the new partner ticket
/// channel. No other built-in category, and no custom category, has a channel of its
/// own among the server's settings.
pub proof fn partner_tickets_go_to_their_own_channel(g: GuildSettings, other: Option<u64>)
    ensures
        builtin_staff_channel(Some(BuiltInCategory::ExistingPartner), g) == Some(g.existing_partner_ticket_channel),
        builtin_staff_channel(Some(BuiltInCategory::ExistingPartner), GuildSettings { new_partner_ticket_channel: other, ..g })
            == builtin_staff_channel(Some(BuiltInCategory::ExistingPartner), g),
        builtin_staff_channel(Some(BuiltInCategory::NewPartner), g) == Some(g.new_partner_ticket_channel),
        builtin_staff_channel(Some(BuiltInCategory::NewPartner), GuildSettings { existing_partner_ticket_channel: other, ..g })
            == builtin_staff_channel(Some(BuiltInCategory::NewPartner), g),
        builtin_staff_channel(Some(BuiltInCategory::BanAppeal), g) is None,
        builtin_staff_channel(Some(BuiltInCategory::MessageReport), g) is None,
        builtin_staff_channel(None, g) is None,
{
}

/// Goes on once the server's settings were read: a server that is not set up, or whose
/// ticket system is off (no start ticket channel), ends the submission, and so does a
/// message that does not fit in an embed. The staff side goes to the partner channel of
/// a partner ticket (a category that is no longer accepting tickets when that channel is
/// unset), or to the channel of the chosen custom category, which is read first; any
/// other choice is an error of the flow.
pub fn after_guild(
    draft: SubmissionDraft,
    state: CreateTicketState,
    guild: Option<GuildSettings>,
    submitter_id: u64,
    submitter_name: &str,
    timestamp: Timestamp,
) -> (res: SubmissionAction)
    ensures
        match guild {
            None => res matches SubmissionAction::Answer(t)
                && t@ == answer_for(TicketSubmissionProblem::NotSetUp, draft.title@, draft.message@),
            Some(g) => match g.start_ticket_channel {
                None => res matches SubmissionAction::Answer(t)
                    && t@ == answer_for(TicketSubmissionProblem::TicketsDisabled, draft.title@, draft.message@),
                Some(user_channel) => if !embed_fits(submitter_name@, draft.message@) {
                    res matches SubmissionAction::Answer(t)
                        && t@ == answer_for(TicketSubmissionProblem::DoesNotFitEmbed, draft.title@, draft.message@)
                } else {
                    match builtin_staff_channel(state.built_in_category, g) {
                        Some(None) => res matches SubmissionAction::Answer(t)
                            && t@ == answer_for(TicketSubmissionProblem::CategoryClosed, draft.title@, draft.message@),
                        Some(Some(staff_channel)) => res matches SubmissionAction::Post(p)
                            && p.staff_channel == staff_channel
                            && posting_of(p, user_channel, draft.title@, draft.message@, submitter_id, submitter_name@, timestamp),
                        None => match state.custom_category_id {
                            Some(id) => res matches SubmissionAction::LoadCustomCategory { id: i, posting: p }
                                && i@ == id@
                                && posting_of(p, user_channel, draft.title@, draft.message@, submitter_id, submitter_name@, timestamp),
                            None => res is Fail,
                        },
                    }
                },
            },
        },
        guild is Some && guild->0.start_ticket_channel is Some && embed_fits(submitter_name@, draft.message@)
            && state.built_in_category == Some(BuiltInCategory::ExistingPartner) ==> match guild->0.existing_partner_ticket_channel {
                Some(c) => res matches SubmissionAction::Post(p) && p.staff_channel == c,
                None => res matches SubmissionAction::Answer(t)
                    && t@ == answer_for(TicketSubmissionProblem::CategoryClosed, draft.title@, draft.message@),
            },
        guild is Some && guild->0.start_ticket_channel is Some && embed_fits(submitter_name@, draft.message@)
            && state.built_in_category == Some(BuiltInCategory::NewPartner) ==> match guild->0.new_partner_ticket_channel {
                Some(c) => res matches SubmissionAction::Post(p) && p.staff_channel == c,
                None => res matches SubmissionAction::Answer(t)
                    && t@ == answer_for(TicketSubmissionProblem::CategoryClosed, draft.title@, draft.message@),
            },
{
    let guild = match guild {
        None => {
            return SubmissionAction::Answer(
                submission_problem_text(TicketSubmissionProblem::NotSetUp, draft.title.as_str(), draft.message.as_str()),
            );
        },
        Some(g) => g,
    };
    let user_channel = match guild.start_ticket_channel {
        None => {
            return SubmissionAction::Answer(
                submission_problem_text(TicketSubmissionProblem::TicketsDisabled, draft.title.as_str(), draft.message.as_str()),
            );
        },
        Some(c) => c,
    };
    let staff = match staff_message(submitter_name, draft.message.as_str(), timestamp) {
        Ok(data) => data,
        Err(_) => {
            return SubmissionAction::Answer(
                submission_problem_text(TicketSubmissionProblem::DoesNotFitEmbed, draft.title.as_str(), draft.message.as_str()),
            );
        },
    };
    let author = UserMessageAuthor::User(owned(submitter_name));
    let user = match user_message(author, submitter_id, false, draft.message.as_str(), timestamp) {
        Ok(data) => data,
        Err(_) => return SubmissionAction::Fail,
    };
    let staff_title = staff_ticket_title(draft.title.as_str(), submitter_name);
    let builtin = match state.built_in_category {
        Some(BuiltInCategory::NewPartner) => Some(guild.new_partner_ticket_channel),
        Some(BuiltInCategory::ExistingPartner) => Some(guild.existing_partner_ticket_channel),
        _ => None,
    };
    match builtin {
        Some(None) => SubmissionAction::Answer(
            submission_problem_text(TicketSubmissionProblem::CategoryClosed, draft.title.as_str(), draft.message.as_str()),
        ),
        Some(Some(staff_channel)) => SubmissionAction::Post(TicketPosting {
            user_channel,
            staff_channel,
            title: draft.title,
            staff_title,
            message: draft.message,
            staff,
            user,
        }),
        None => match state.custom_category_id {
            Some(id) => SubmissionAction::LoadCustomCategory {
                id,
                posting: TicketPosting {
                    user_channel,
                    staff_channel: 0,
                    title: draft.title,
                    staff_title,
                    message: draft.message,
                    staff,
                    user,
                },
            },
            None => SubmissionAction::Fail,
        },
    }
}

/// Goes on once the chosen custom category was read: its channel receives the staff side.
pub fn after_custom_category(posting: TicketPosting, category: &CustomCategory) -> (res: TicketPosting)
    ensures
        res.staff_channel == category.channel,
        res.user_channel == posting.user_channel,
        res.title == posting.title,
        res.staff_title == posting.staff_title,
        res.message == posting.message,
        res.staff == posting.staff,
        res.user == posting.user,
{
    TicketPosting { staff_channel: category.channel, ..posting }
}

/// The answer once both sides were posted (or failed to be): a failure of either side
/// repeats the submission back to the user; otherwise the ticket was submitted and is
/// to be recorded (`true`).
pub fn after_posting(title: &str, message: &str, staff_posted: bool, user_posted: bool) -> (res: (String, bool))
    ensures
        !staff_posted ==> res.0@ == answer_for(TicketSubmissionProblem::StaffSendFailed, title@, message@) && !res.1,
        staff_posted && !user_posted ==> res.0@ == answer_for(TicketSubmissionProblem::UserSendFailed, title@, message@) && !res.1,
        staff_posted && user_posted ==> res.0@ == "Ticket submitted!"@ && res.1,
{
    if !staff_posted {
        (submission_problem_text(TicketSubmissionProblem::StaffSendFailed, title, message), false)
    } else if !user_posted {
        (submission_problem_text(TicketSubmissionProblem::UserSendFailed, title, message), false)
    } else {
        (owned("Ticket submitted!"), true)
    }
}

} // verus!
