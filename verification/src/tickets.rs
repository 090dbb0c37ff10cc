//! Ticket messages: what is posted on the staff side and the user side of a ticket,
//! the contents of a ticket submission, and the answers given when a submission fails.
use vstd::prelude::*;
use crate::text::{utf8_longer_than, chars_of, concat2, concat3, concat4, concat5, escape_asterisks, escape_markdown_asterisks, opt_view, owned, starts_with, string_of, suffix_from, has_prefix, user_mention, user_mention_text};
use twilight_model::util::datetime::Timestamp;
use twilight_validate::embed::EmbedValidationError;

verus! {

/// The longest ticket title, in bytes.
pub const MAX_TICKET_TITLE_LENGTH: u16 = 60;

#[verifier::external_type_specification]
#[verifier::external_body]
pub struct ExTimestamp(Timestamp);

#[verifier::external_type_specification]
#[verifier::external_body]
pub struct ExEmbedValidationError(EmbedValidationError);

/// Whether an embed with author name `author` and description `description` passes
/// Discord's embed limits: at most 256 characters of author name, at most 4096
/// characters of description, and at most 6000 bytes of text in all.
pub open spec fn embed_fits(author: Seq<char>, description: Seq<char>) -> bool {
    &&& author.len() <= 256
    &&& description.len() <= 4096
    &&& vstd::utf8::encode_utf8(author).len() + vstd::utf8::encode_utf8(description).len() <= 6000
}

/// Builds an embed with `twilight_util`'s `EmbedBuilder` (author name, description,
/// timestamp) and checks it with `EmbedBuilder::validate`, which applies
/// `twilight_validate::embed::embed`. For such an embed that check fails exactly when
/// the total text length, the description length or the author name length is over
/// its limit.
#[verifier::external_body]
fn validate_ticket_embed(author_name: &str, description: &str, timestamp: Timestamp) -> (res: Result<(), EmbedValidationError>)
    ensures
        res is Ok <==> embed_fits(author_name@, description@),
{
    let author = twilight_util::builder::embed::EmbedAuthorBuilder::new(author_name).build();
    twilight_util::builder::embed::EmbedBuilder::new()
        .description(description)
        .author(author)
        .timestamp(timestamp)
        .validate()
        .map(|_| ())
}

/// A ticket message's embed: who wrote it, what it says, and when.
pub struct TicketEmbed {
    pub author_name: String,
    pub description: String,
    pub timestamp: Timestamp,
}

/// Contains data necessary to post a ticket message.
pub struct TicketMessageData {
    /// Text outside the embed (a ping of the ticket's user, when there is one).
    pub content: Option<String>,
    pub embeds: Vec<TicketEmbed>,
    /// The users that the message may ping.
    pub allowed_mention_users: Vec<u64>,
}

/// The message does not fit in an embed.
#[derive(Clone, Copy, Debug, PartialEq, Eq, Structural)]
pub struct EmbedTooLarge;

/// Indicates the author of a message being sent on the user end of the ticket.
pub enum UserMessageAuthor {
    User(String),
    Staff,
}

/// The name under which a message of `author` is shown to the ticket's user.
pub open spec fn author_display(author: UserMessageAuthor) -> Seq<char> {
    match author {
        UserMessageAuthor::User(name) => name@,
        UserMessageAuthor::Staff => "Staff"@,
    }
}

impl UserMessageAuthor {
    /// The name under which this author is shown in a ticket message.
    pub fn display_name(&self) -> (res: String)
        ensures
            res@ == author_display(*self),
    {
        match self {
            UserMessageAuthor::User(name) => name.clone(),
            UserMessageAuthor::Staff => owned("Staff"),
        }
    }
}

/// Whether `data` is one embed written by `author` saying `message` at `timestamp`.
pub open spec fn single_embed(data: TicketMessageData, author: Seq<char>, message: Seq<char>, timestamp: Timestamp) -> bool {
    &&& data.embeds@.len() == 1
    &&& data.embeds@[0].author_name@ == author
    &&& data.embeds@[0].description@ == message
    &&& data.embeds@[0].timestamp == timestamp
}

/// Generates the message data for sending a ticket message to the staff end of the ticket.
pub fn staff_message(author_name: &str, message: &str, timestamp: Timestamp) -> (res: Result<TicketMessageData, EmbedTooLarge>)
    ensures
        res is Ok <==> embed_fits(author_name@, message@),
        res matches Ok(data) ==> {
            &&& data.content is None
            &&& single_embed(data, author_name@, message@, timestamp)
            &&& data.allowed_mention_users@.len() == 0
        },
{
    match validate_ticket_embed(author_name, message, timestamp) {
        Err(_) => Err(EmbedTooLarge),
        Ok(()) => {
            let mut embeds: Vec<TicketEmbed> = Vec::new();
            embeds.push(TicketEmbed { author_name: owned(author_name), description: owned(message), timestamp });
            Ok(TicketMessageData { content: None, embeds, allowed_mention_users: Vec::new() })
        },
    }
}

/// Generates the message data for sending a ticket message to the user end of the ticket.
pub fn user_message(
    author: UserMessageAuthor,
    ticket_with_user: u64,
    include_ping: bool,
    message: &str,
    timestamp: Timestamp,
) -> (res: Result<TicketMessageData, EmbedTooLarge>)
    ensures
        res is Ok <==> embed_fits(author_display(author), message@),
        res matches Ok(data) ==> {
            &&& opt_view(data.content) == if include_ping {
                Some(user_mention_text(ticket_with_user))
            } else {
                None
            }
            &&& single_embed(data, author_display(author), message@, timestamp)
            &&& data.allowed_mention_users@ == seq![ticket_with_user]
        },
{
    let name = author.display_name();
    match validate_ticket_embed(name.as_str(), message, timestamp) {
        Err(_) => Err(EmbedTooLarge),
        Ok(()) => {
            let content = if include_ping {
                Some(user_mention(ticket_with_user))
            } else {
                None
            };
            let mut embeds: Vec<TicketEmbed> = Vec::new();
            embeds.push(TicketEmbed { author_name: name, description: owned(message), timestamp });
            let mut allowed_mention_users: Vec<u64> = Vec::new();
            allowed_mention_users.push(ticket_with_user);
            assert(allowed_mention_users@ =~= seq![ticket_with_user]);
            Ok(TicketMessageData { content, embeds, allowed_mention_users })
        },
    }
}

/// The text of a submission, repeated to the user so that nothing is lost when it fails.
pub open spec fn try_again_spec(title: Seq<char>, message: Seq<char>) -> Seq<char> {
    "If you wish to try again, here's the data you submitted:\n\n**Title**: "@ + title + "\n**Message**:\n"@
        + message
}

/// The text of a submission, repeated to the user so that nothing is lost when it fails.
pub fn try_again_text(ticket_title: &str, ticket_message: &str) -> (res: String)
    ensures
        res@ == try_again_spec(ticket_title@, ticket_message@),
{
    concat4(
        "If you wish to try again, here's the data you submitted:\n\n**Title**: ",
        ticket_title,
        "\n**Message**:\n",
        ticket_message,
    )
}

/// A text input of a submitted modal: its custom ID and what was entered.
pub struct ModalField {
    pub custom_id: String,
    pub value: Option<String>,
}

/// What a ticket modal submission holds: the named inputs (the last one of each name
/// counts) and, in input order, the (question ID, answer) pairs of the form questions;
/// an empty answer stands for a missing one.
pub struct TicketModalValues {
    pub invite_url: Option<String>,
    pub title: Option<String>,
    pub body: Option<String>,
    pub question_answers: Vec<(String, String)>,
}

/// The prefix of the custom IDs of form question inputs.
pub open spec fn question_prefix() -> Seq<char> {
    seq!['q', 'u', 'e', 's', 't', 'i', 'o', 'n', '/']
}

/// The view of a ticket modal's values: invite URL, title, body, question answers.
pub type ModalValuesView = (Option<Seq<char>>, Option<Seq<char>>, Option<Seq<char>>, Seq<(Seq<char>, Seq<char>)>);

/// The answer an input holds; empty when it holds none.
pub open spec fn answer_of(value: Option<String>) -> Seq<char> {
    match value {
        Some(v) => v@,
        None => Seq::empty(),
    }
}

/// What the inputs `fs` of a ticket modal hold.
pub open spec fn modal_values(fs: Seq<ModalField>) -> ModalValuesView
    decreases fs.len(),
{
    if fs.len() == 0 {
        (None, None, None, Seq::empty())
    } else {
        let r = modal_values(fs.drop_last());
        let f = fs.last();
        if starts_with(f.custom_id@, question_prefix()) {
            (r.0, r.1, r.2, r.3.push((f.custom_id@.skip(question_prefix().len() as int), answer_of(f.value))))
        } else if f.custom_id@ == "invite_url"@ {
            (opt_view(f.value), r.1, r.2, r.3)
        } else if f.custom_id@ == "title"@ {
            (r.0, opt_view(f.value), r.2, r.3)
        } else if f.custom_id@ == "body"@ {
            (r.0, r.1, opt_view(f.value), r.3)
        } else {
            r
        }
    }
}

/// The view of a modal's values.
pub open spec fn modal_values_view(m: TicketModalValues) -> ModalValuesView {
    (opt_view(m.invite_url), opt_view(m.title), opt_view(m.body), m.question_answers@.map_values(|p: (String, String)| (p.0@, p.1@)))
}

fn question_prefix_chars() -> (v: Vec<char>)
    ensures
        v@ == question_prefix(),
{
    let v = vec!['q', 'u', 'e', 's', 't', 'i', 'o', 'n', '/'];
    assert(v@ =~= question_prefix());
    v
}

fn clone_opt(o: &Option<String>) -> (res: Option<String>)
    ensures
        opt_view(res) == opt_view(*o),
{
    match o {
        Some(s) => Some(s.clone()),
        None => None,
    }
}

/// Reads the inputs of a submitted ticket modal.
pub fn read_ticket_modal(fields: &Vec<ModalField>) -> (res: TicketModalValues)
    ensures
        modal_values_view(res) == modal_values(fields@),
{
    let prefix = question_prefix_chars();
    let invite_key = owned("invite_url");
    let title_key = owned("title");
    let body_key = owned("body");
    let mut res = TicketModalValues { invite_url: None, title: None, body: None, question_answers: Vec::new() };
    let mut i: usize = 0;
    assert(fields@.take(0) =~= Seq::<ModalField>::empty());
    assert(modal_values_view(res) =~= modal_values(fields@.take(0)));
    while i < fields.len()
        invariant
            i <= fields.len(),
            prefix@ == question_prefix(),
            invite_key@ == "invite_url"@,
            title_key@ == "title"@,
            body_key@ == "body"@,
            modal_values_view(res) == modal_values(fields@.take(i as int)),
        decreases fields.len() - i,
    {
        let f = &fields[i];
        proof {
            assert(fields@.take(i + 1).drop_last() =~= fields@.take(i as int));
            assert(fields@.take(i + 1).last() == *f);
        }
        let id = chars_of(f.custom_id.as_str());
        if has_prefix(&id, &prefix) {
            let question = string_of(suffix_from(&id, prefix.len()).as_slice());
            let answer = match &f.value {
                Some(v) => v.clone(),
                None => String::new(),
            };
            let ghost old_qa = res.question_answers@;
            res.question_answers.push((question, answer));
            proof {
                assert(res.question_answers@.map_values(|p: (String, String)| (p.0@, p.1@)) =~=
                    old_qa.map_values(|p: (String, String)| (p.0@, p.1@)).push((f.custom_id@.skip(question_prefix().len() as int), answer_of(f.value))));
            }
        } else if f.custom_id == invite_key {
            res.invite_url = clone_opt(&f.value);
        } else if f.custom_id == title_key {
            res.title = clone_opt(&f.value);
        } else if f.custom_id == body_key {
            res.body = clone_opt(&f.value);
        }
        i = i + 1;
    }
    assert(fields@.take(fields.len() as int) =~= fields@);
    res
}

/// A form question with the answer given to it.
pub struct QuestionAnswer {
    pub question: String,
    pub position: i32,
    pub answer: String,
}

/// `sorted` with `x` put after every entry whose position is at most that of `x`
/// (for `sorted` in position order, the place where a stable sort puts it).
pub open spec fn insert_by_position(sorted: Seq<QuestionAnswer>, x: QuestionAnswer) -> Seq<QuestionAnswer>
    decreases sorted.len(),
{
    if sorted.len() == 0 {
        seq![x]
    } else if sorted.last().position <= x.position {
        sorted.push(x)
    } else {
        insert_by_position(sorted.drop_last(), x).push(sorted.last())
    }
}

/// `s` in position order, entries of equal position in their order in `s` (a stable sort
/// by position).
pub open spec fn sort_by_position(s: Seq<QuestionAnswer>) -> Seq<QuestionAnswer>
    decreases s.len(),
{
    if s.len() == 0 {
        s
    } else {
        insert_by_position(sort_by_position(s.drop_last()), s.last())
    }
}

proof fn lemma_insert_at(sorted: Seq<QuestionAnswer>, x: QuestionAnswer, k: int)
    requires
        0 <= k <= sorted.len(),
        forall|j: int| k <= j < sorted.len() ==> sorted[j].position > x.position,
        k == 0 || sorted[k - 1].position <= x.position,
    ensures
        insert_by_position(sorted, x) == sorted.take(k).push(x) + sorted.skip(k),
    decreases sorted.len(),
{
    if sorted.len() == 0 {
        assert(sorted.take(k).push(x) + sorted.skip(k) =~= seq![x]);
    } else if sorted.last().position <= x.position {
        assert(k == sorted.len());
        assert(sorted.take(k).push(x) + sorted.skip(k) =~= sorted.push(x));
    } else {
        let d = sorted.drop_last();
        lemma_insert_at(d, x, k);
        assert(sorted.take(k).push(x) + sorted.skip(k) =~= (d.take(k).push(x) + d.skip(k)).push(sorted.last()));
    }
}

/// Whether the answers `s` are in position order.
pub open spec fn in_position_order(s: Seq<QuestionAnswer>) -> bool {
    forall|i: int, j: int| 0 <= i <= j < s.len() ==> s[i].position <= s[j].position
}

proof fn lemma_insert_by_position(sorted: Seq<QuestionAnswer>, x: QuestionAnswer)
    requires
        in_position_order(sorted),
    ensures
        in_position_order(insert_by_position(sorted, x)),
        insert_by_position(sorted, x).to_multiset() == sorted.to_multiset().insert(x),
    decreases sorted.len(),
{
    broadcast use vstd::seq_lib::group_to_multiset_ensures;
    broadcast use vstd::multiset::group_multiset_axioms;
    if sorted.len() == 0 {
        assert(seq![x] =~= Seq::<QuestionAnswer>::empty().push(x));
        assert(sorted =~= Seq::<QuestionAnswer>::empty());
    } else if sorted.last().position <= x.position {
    } else {
        let d = sorted.drop_last();
        let last = sorted.last();
        lemma_insert_by_position(d, x);
        let r = insert_by_position(d, x);
        assert(sorted =~= d.push(last));
        assert(r.to_multiset().insert(last) =~= d.to_multiset().insert(last).insert(x));
        assert forall|k: int| 0 <= k < r.len() implies r[k].position <= last.position by {
            let e = r[k];
            assert(r.contains(e));
            assert(r.to_multiset().count(e) > 0);
            if e != x {
                assert(d.to_multiset().count(e) > 0);
                assert(d.contains(e));
                let i = choose|i: int| 0 <= i < d.len() && d[i] == e;
                assert(sorted[i] == e);
            }
        }
    }
}

/// Sorting by position gives the answers in position order, and the same answers: none
/// is lost or added.
pub proof fn sorted_answers_are_ordered(s: Seq<QuestionAnswer>)
    ensures
        in_position_order(sort_by_position(s)),
        sort_by_position(s).to_multiset() == s.to_multiset(),
    decreases s.len(),
{
    broadcast use vstd::seq_lib::group_to_multiset_ensures;
    if s.len() > 0 {
        sorted_answers_are_ordered(s.drop_last());
        lemma_insert_by_position(sort_by_position(s.drop_last()), s.last());
        assert(s =~= s.drop_last().push(s.last()));
    }
}

/// Sorts the answers by question position, keeping the given order among equal positions.
fn sort_answers(answers: Vec<QuestionAnswer>) -> (res: Vec<QuestionAnswer>)
    ensures
        res@ == sort_by_position(answers@),
{
    let mut sorted: Vec<QuestionAnswer> = Vec::new();
    let mut rest = answers;
    let ghost all = rest@;
    let n0 = rest.len();
    assert(all.len() == n0);
    let mut taken: usize = 0;
    let mut input: Vec<QuestionAnswer> = Vec::new();
    // Move the answers out in reverse so that popping yields them in their given order.
    while rest.len() > 0
        invariant
            input@ + rest@.reverse() == all.reverse(),
        decreases rest.len(),
    {
        let x = rest.pop().unwrap();
        proof {
            assert(rest@.push(x).reverse() =~= seq![x] + rest@.reverse());
        }
        input.push(x);
        proof {
            assert(input@ + rest@.reverse() =~= all.reverse());
        }
    }
    assert(rest@.reverse() =~= Seq::<QuestionAnswer>::empty());
    assert(input@ =~= all.reverse());
    while input.len() > 0
        invariant
            taken + input.len() == all.len(),
            all.len() <= usize::MAX,
            input@ == all.skip(taken as int).reverse(),
            sorted@ == sort_by_position(all.take(taken as int)),
        decreases input.len(),
    {
        let x = input.pop().unwrap();
        proof {
            assert(all.skip(taken as int)[0] == x);
            assert(all.take(taken + 1).drop_last() =~= all.take(taken as int));
            assert(all.take(taken + 1).last() == x);
            assert(input@ =~= all.skip(taken + 1).reverse());
        }
        let mut k: usize = sorted.len();
        while k > 0 && sorted[k - 1].position > x.position
            invariant
                k <= sorted.len(),
                forall|j: int| k <= j < sorted.len() ==> sorted@[j].position > x.position,
            decreases k,
        {
            k = k - 1;
        }
        proof {
            lemma_insert_at(sorted@, x, k as int);
        }
        let ghost before = sorted@;
        sorted.insert(k, x);
        assert(sorted@ =~= before.take(k as int).push(x) + before.skip(k as int));
        taken = taken + 1;
    }
    assert(all.take(taken as int) =~= all);
    sorted
}

/// The text block of one answered question: the question in bold, then the answer.
pub open spec fn answer_block(qa: QuestionAnswer) -> Seq<char> {
    "**"@ + escape_asterisks(qa.question@) + "**\n"@ + qa.answer@
}

/// The answer blocks of `s`, separated by blank lines.
pub open spec fn join_answer_blocks(s: Seq<QuestionAnswer>) -> Seq<char>
    decreases s.len(),
{
    if s.len() == 0 {
        Seq::empty()
    } else if s.len() == 1 {
        answer_block(s[0])
    } else {
        join_answer_blocks(s.drop_last()) + "\n\n"@ + answer_block(s.last())
    }
}

/// The message of a ticket: the body that was entered, or, when none was and form
/// questions were answered, the answers in question order.
pub open spec fn ticket_message_spec(body: Option<Seq<char>>, answers: Seq<QuestionAnswer>) -> Option<Seq<char>> {
    if body is None && answers.len() > 0 {
        Some(join_answer_blocks(sort_by_position(answers)))
    } else {
        body
    }
}

/// Puts together the message of a ticket (see `ticket_message_spec`).
pub fn compose_ticket_message(body: Option<String>, answers: Vec<QuestionAnswer>) -> (res: Option<String>)
    ensures
        opt_view(res) == ticket_message_spec(opt_view(body), answers@),
{
    if body.is_none() && answers.len() > 0 {
        let sorted = sort_answers(answers);
        let mut message = String::new();
        let mut i: usize = 0;
        while i < sorted.len()
            invariant
                i <= sorted.len(),
                message@ == join_answer_blocks(sorted@.take(i as int)),
            decreases sorted.len() - i,
        {
            let qa = &sorted[i];
            let question = escape_markdown_asterisks(qa.question.as_str());
            proof {
                assert(sorted@.take(i + 1).drop_last() =~= sorted@.take(i as int));
                assert(sorted@.take(i + 1).last() == *qa);
                if i == 0 {
                    assert(sorted@.take(1)[0] == *qa);
                }
            }
            if i > 0 {
                message.append("\n\n");
            }
            message.append("**");
            message.append(question.as_str());
            message.append("**\n");
            message.append(qa.answer.as_str());
            i = i + 1;
            proof {
                if i == 1 {
                    assert(message@ =~= join_answer_blocks(sorted@.take(i as int)));
                } else {
                    assert(message@ =~= join_answer_blocks(sorted@.take(i as int)));
                }
            }
        }
        assert(sorted@.take(sorted.len() as int) =~= sorted@);
        Some(message)
    } else {
        body
    }
}

/// Why a ticket submission was not turned into a ticket.
#[derive(Clone, Copy, Debug, PartialEq, Eq, Structural)]
pub enum TicketSubmissionProblem {
    /// The title or the message is missing.
    MissingData,
    /// The title is longer than `MAX_TICKET_TITLE_LENGTH` bytes.
    TitleTooLong,
    /// The ticket creation session is gone.
    Expired,
    /// The partner invite URL is not an invite URL.
    InvalidInvite,
    /// Discord does not know the partner invite.
    UnknownInvite,
    /// The partner invite is not an invite to a server.
    NotAGuildInvite,
    /// The partner invite expires.
    ExpiringInvite,
    /// The server is not set up.
    NotSetUp,
    /// The server has no start ticket channel.
    TicketsDisabled,
    /// The message does not fit in an embed.
    DoesNotFitEmbed,
    /// The chosen category has no channel any more.
    CategoryClosed,
    /// Posting the staff side of the ticket failed.
    StaffSendFailed,
    /// Posting the user side of the ticket failed.
    UserSendFailed,
}

/// What the user is told when a submission with title `title` and message `message`
/// fails for `problem`.
pub open spec fn problem_text(problem: TicketSubmissionProblem, title: Seq<char>, message: Seq<char>) -> Seq<char> {
    match problem {
        TicketSubmissionProblem::MissingData => "Ticket not sent: missing required data."@,
        TicketSubmissionProblem::TitleTooLong => "Your ticket couldn't be sent, as the title is too long.\n"@ + try_again_spec(title, message),
        TicketSubmissionProblem::Expired => "Ticket creation expired.\n"@ + try_again_spec(title, message),
        TicketSubmissionProblem::InvalidInvite => "The invite URL you provided is not a valid invite.\n"@ + try_again_spec(title, message),
        TicketSubmissionProblem::UnknownInvite => "Discord doesn't recognize that invite code.\n"@ + try_again_spec(title, message),
        TicketSubmissionProblem::NotAGuildInvite => "The invite you provided isn't for a guild.\n"@ + try_again_spec(title, message),
        TicketSubmissionProblem::ExpiringInvite => "The invite you provided expires, but partnership invites must be permanent.\n"@ + try_again_spec(title, message),
        TicketSubmissionProblem::NotSetUp => "This server is not set up and cannot accept tickets."@,
        TicketSubmissionProblem::TicketsDisabled => "This server's ticket system is disabled."@,
        TicketSubmissionProblem::DoesNotFitEmbed => "Your ticket couldn't be sent; its contents don't fit in an embed."@,
        TicketSubmissionProblem::CategoryClosed => "The server is no longer accepting tickets of that category."@,
        TicketSubmissionProblem::StaffSendFailed => "This ticket couldn't be sent. In case you want it later, here's what you sent:\n**Title**: "@ + title + "\n**Message**\n"@ + message,
        TicketSubmissionProblem::UserSendFailed => "This ticket couldn't be sent. In case you want it later, here's what you sent:\n**Title**: "@ + title + "\n**Message**:\n"@ + message,
    }
}

/// A submission refused after its title and message were read is repeated back in the
/// answer, so that nothing the user wrote is lost: the answer ends with the title and the
/// message (for a failed posting, after a notice of its own).
pub proof fn refused_submissions_are_repeated(problem: TicketSubmissionProblem, title: Seq<char>, message: Seq<char>)
    requires
        problem != TicketSubmissionProblem::MissingData,
        problem != TicketSubmissionProblem::NotSetUp,
        problem != TicketSubmissionProblem::TicketsDisabled,
        problem != TicketSubmissionProblem::DoesNotFitEmbed,
        problem != TicketSubmissionProblem::CategoryClosed,
    ensures
        problem != TicketSubmissionProblem::StaffSendFailed && problem != TicketSubmissionProblem::UserSendFailed ==> (exists|lead: Seq<char>|
            problem_text(problem, title, message) == lead + try_again_spec(title, message)),
        (problem == TicketSubmissionProblem::StaffSendFailed || problem == TicketSubmissionProblem::UserSendFailed) ==> (exists|lead: Seq<char>, middle: Seq<char>|
            problem_text(problem, title, message) == lead + title + middle + message),
{
    let t = problem_text(problem, title, message);
    match problem {
        TicketSubmissionProblem::TitleTooLong => {
            assert(t == "Your ticket couldn't be sent, as the title is too long.\n"@ + try_again_spec(title, message));
        },
        TicketSubmissionProblem::Expired => {
            assert(t == "Ticket creation expired.\n"@ + try_again_spec(title, message));
        },
        TicketSubmissionProblem::InvalidInvite => {
            assert(t == "The invite URL you provided is not a valid invite.\n"@ + try_again_spec(title, message));
        },
        TicketSubmissionProblem::UnknownInvite => {
            assert(t == "Discord doesn't recognize that invite code.\n"@ + try_again_spec(title, message));
        },
        TicketSubmissionProblem::NotAGuildInvite => {
            assert(t == "The invite you provided isn't for a guild.\n"@ + try_again_spec(title, message));
        },
        TicketSubmissionProblem::ExpiringInvite => {
            assert(t == "The invite you provided expires, but partnership invites must be permanent.\n"@ + try_again_spec(title, message));
        },
        TicketSubmissionProblem::StaffSendFailed => {
            let lead = "This ticket couldn't be sent. In case you want it later, here's what you sent:\n**Title**: "@;
            assert(t == lead + title + "\n**Message**\n"@ + message);
        },
        TicketSubmissionProblem::UserSendFailed => {
            let lead = "This ticket couldn't be sent. In case you want it later, here's what you sent:\n**Title**: "@;
            assert(t == lead + title + "\n**Message**:\n"@ + message);
        },
        _ => {},
    }
}

fn with_try_again(lead: &str, title: &str, message: &str) -> (res: String)
    ensures
        res@ == lead@ + try_again_spec(title@, message@),
{
    let t = try_again_text(title, message);
    concat2(lead, t.as_str())
}

/// The answer to a failed submission (see `problem_text`).
pub fn submission_problem_text(problem: TicketSubmissionProblem, title: &str, message: &str) -> (res: String)
    ensures
        res@ == problem_text(problem, title@, message@),
{
    match problem {
        TicketSubmissionProblem::MissingData => owned("Ticket not sent: missing required data."),
        TicketSubmissionProblem::TitleTooLong => with_try_again("Your ticket couldn't be sent, as the title is too long.\n", title, message),
        TicketSubmissionProblem::Expired => with_try_again("Ticket creation expired.\n", title, message),
        TicketSubmissionProblem::InvalidInvite => with_try_again("The invite URL you provided is not a valid invite.\n", title, message),
        TicketSubmissionProblem::UnknownInvite => with_try_again("Discord doesn't recognize that invite code.\n", title, message),
        TicketSubmissionProblem::NotAGuildInvite => with_try_again("The invite you provided isn't for a guild.\n", title, message),
        TicketSubmissionProblem::ExpiringInvite => with_try_again("The invite you provided expires, but partnership invites must be permanent.\n", title, message),
        TicketSubmissionProblem::NotSetUp => owned("This server is not set up and cannot accept tickets."),
        TicketSubmissionProblem::TicketsDisabled => owned("This server's ticket system is disabled."),
        TicketSubmissionProblem::DoesNotFitEmbed => owned("Your ticket couldn't be sent; its contents don't fit in an embed."),
        TicketSubmissionProblem::CategoryClosed => owned("The server is no longer accepting tickets of that category."),
        TicketSubmissionProblem::StaffSendFailed => concat4("This ticket couldn't be sent. In case you want it later, here's what you sent:\n**Title**: ", title, "\n**Message**\n", message),
        TicketSubmissionProblem::UserSendFailed => concat4("This ticket couldn't be sent. In case you want it later, here's what you sent:\n**Title**: ", title, "\n**Message**:\n", message),
    }
}

/// What the user is told when the ticket was created.
pub fn ticket_submitted_text() -> (res: String)
    ensures
        res@ == "Ticket submitted!"@,
{
    owned("Ticket submitted!")
}

/// Whether a title of `title` is too long for a ticket: more than 60 bytes.
pub open spec fn title_too_long(title: Seq<char>) -> bool {
    vstd::utf8::encode_utf8(title).len() > MAX_TICKET_TITLE_LENGTH
}

/// The first problem with the entered title and message, if any: one of them missing,
/// then the title too long.
pub open spec fn fields_problem(title: Option<Seq<char>>, message: Option<Seq<char>>) -> Option<TicketSubmissionProblem> {
    match (title, message) {
        (Some(t), Some(_)) => if title_too_long(t) {
            Some(TicketSubmissionProblem::TitleTooLong)
        } else {
            None
        },
        _ => Some(TicketSubmissionProblem::MissingData),
    }
}

/// A ticket is refused for missing data when its title or message is missing, for its
/// title when that is longer than 60 bytes, and otherwise not for its fields; a partner
/// invite is refused when Discord does not know it, when it does not lead to a server,
/// or when it expires, and accepted otherwise; a message fits in an embed exactly when
/// the author name has at most 256 characters, the text at most 4096, and both together
/// at most 6000 bytes.
pub proof fn submission_checks(title: Seq<char>, message: Seq<char>, expires: bool, author: Seq<char>)
    ensures
        fields_problem(None, Some(message)) == Some(TicketSubmissionProblem::MissingData),
        fields_problem(Some(title), None) == Some(TicketSubmissionProblem::MissingData),
        fields_problem(None, None) == Some(TicketSubmissionProblem::MissingData),
        fields_problem(Some(title), Some(message)) == if vstd::utf8::encode_utf8(title).len() > 60 {
            Some(TicketSubmissionProblem::TitleTooLong)
        } else {
            None
        },
        invite_problem(InviteLookup::NotFound) == Some(TicketSubmissionProblem::UnknownInvite),
        invite_problem(InviteLookup::Found { to_guild: false, expires }) == Some(TicketSubmissionProblem::NotAGuildInvite),
        invite_problem(InviteLookup::Found { to_guild: true, expires: true }) == Some(TicketSubmissionProblem::ExpiringInvite),
        invite_problem(InviteLookup::Found { to_guild: true, expires: false }) is None,
        embed_fits(author, message) <==> (author.len() <= 256 && message.len() <= 4096
            && vstd::utf8::encode_utf8(author).len() + vstd::utf8::encode_utf8(message).len() <= 6000),
{
}

/// Checks the title and message of a ticket submission (see `fields_problem`).
pub fn check_ticket_fields(title: &Option<String>, message: &Option<String>) -> (res: Option<TicketSubmissionProblem>)
    ensures
        res == fields_problem(opt_view(*title), opt_view(*message)),
{
    match (title, message) {
        (Some(t), Some(_)) => {
            let max: usize = MAX_TICKET_TITLE_LENGTH as usize;
            if utf8_longer_than(t.as_str(), max) {
                Some(TicketSubmissionProblem::TitleTooLong)
            } else {
                None
            }
        },
        _ => Some(TicketSubmissionProblem::MissingData),
    }
}

/// What Discord answered when asked about a partner invite.
#[derive(Clone, Copy, Debug, PartialEq, Eq, Structural)]
pub enum InviteLookup {
    /// Discord does not know the invite.
    NotFound,
    /// The invite exists; whether it leads to a server, and whether it expires.
    Found { to_guild: bool, expires: bool },
}

/// The problem with a partner invite, if any.
pub open spec fn invite_problem(lookup: InviteLookup) -> Option<TicketSubmissionProblem> {
    match lookup {
        InviteLookup::NotFound => Some(TicketSubmissionProblem::UnknownInvite),
        InviteLookup::Found { to_guild, expires } => if !to_guild {
            Some(TicketSubmissionProblem::NotAGuildInvite)
        } else if expires {
            Some(TicketSubmissionProblem::ExpiringInvite)
        } else {
            None
        },
    }
}

/// Checks a partner invite: it must exist, lead to a server and never expire.
pub fn check_partner_invite(lookup: InviteLookup) -> (res: Option<TicketSubmissionProblem>)
    ensures
        res == invite_problem(lookup),
{
    match lookup {
        InviteLookup::NotFound => Some(TicketSubmissionProblem::UnknownInvite),
        InviteLookup::Found { to_guild, expires } => if !to_guild {
            Some(TicketSubmissionProblem::NotAGuildInvite)
        } else if expires {
            Some(TicketSubmissionProblem::ExpiringInvite)
        } else {
            None
        },
    }
}

/// The message of a new partner ticket: the invite URL, then the message.
pub fn partner_ticket_message(invite_url: &str, message: &str) -> (res: String)
    ensures
        res@ == "**Partner invite URL**: "@ + invite_url@ + "\n\n"@ + message@,
{
    concat4("**Partner invite URL**: ", invite_url, "\n\n", message)
}

/// The title of the staff side of a ticket: the title, then the user's name in brackets.
pub fn staff_ticket_title(title: &str, user_name: &str) -> (res: String)
    ensures
        res@ == title@ + " ["@ + user_name@ + "]"@,
{
    concat4(title, " [", user_name, "]")
}

/// The value of the last input named `name` among `fields`; `None` when there is none
/// or it holds nothing.
pub open spec fn last_field_value(fields: Seq<ModalField>, name: Seq<char>) -> Option<Seq<char>>
    decreases fields.len(),
{
    if fields.len() == 0 {
        None
    } else if fields.last().custom_id@ == name {
        opt_view(fields.last().value)
    } else {
        last_field_value(fields.drop_last(), name)
    }
}

/// The value of the last input named `name` (see `last_field_value`).
pub fn read_modal_field(fields: &Vec<ModalField>, name: &str) -> (res: Option<String>)
    ensures
        opt_view(res) == last_field_value(fields@, name@),
{
    let target = owned(name);
    let mut i: usize = fields.len();
    assert(fields@.take(i as int) =~= fields@);
    while i > 0
        invariant
            i <= fields.len(),
            target@ == name@,
            last_field_value(fields@, name@) == last_field_value(fields@.take(i as int), name@),
        decreases i,
    {
        proof {
            assert(fields@.take(i as int).drop_last() =~= fields@.take(i - 1));
            assert(fields@.take(i as int).last() == fields@[i - 1]);
        }
        if fields[i - 1].custom_id == target {
            return clone_opt(&fields[i - 1].value);
        }
        i = i - 1;
    }
    None
}

/// The answers of the ticket creation and ticket reply flows.
#[derive(Clone, Copy, Debug, PartialEq, Eq, Structural)]
pub enum FlowNotice {
    /// The user may not send tickets on the server.
    Restricted,
    /// The server is not set up.
    ServerNotSetUp,
    /// The server offers no ticket category.
    NoCategories,
    /// The category menu's prompt.
    ChooseCategory,
    /// The ticket creation session is gone.
    CreationExpired,
    /// The server stopped offering ticket categories meanwhile.
    NoLongerAccepting,
    /// `/close` or `/reply` outside a staff ticket thread.
    NotAStaffThread,
    /// The ticket was closed.
    Closed,
    /// The reply modal held no message.
    ReplyMissingData,
    /// The reply cannot be shown in an embed.
    ReplyUnpostable,
}

/// The text of a flow answer.
pub open spec fn flow_notice_text(n: FlowNotice) -> Seq<char> {
    match n {
        FlowNotice::Restricted => "You may not send tickets on this server."@,
        FlowNotice::ServerNotSetUp => "This server isn't set up for Twilight Sword."@,
        FlowNotice::NoCategories => "Tickets can't be created on this server at this time."@,
        FlowNotice::ChooseCategory => "Select what type of ticket this is:"@,
        FlowNotice::CreationExpired => "Ticket creation expired."@,
        FlowNotice::NoLongerAccepting => "This server is no longer accepting new tickets."@,
        FlowNotice::NotAStaffThread => "This command is only useful in a staff ticket thread."@,
        FlowNotice::Closed => "This ticket has been closed."@,
        FlowNotice::ReplyMissingData => "Reply not sent: missing required data."@,
        FlowNotice::ReplyUnpostable => "This message can't be posted in a Discord embed, so it couldn't be published."@,
    }
}

/// The text of a flow answer (see `flow_notice_text`).
pub fn flow_notice(n: FlowNotice) -> (res: String)
    ensures
        res@ == flow_notice_text(n),
{
    match n {
        FlowNotice::Restricted => owned("You may not send tickets on this server."),
        FlowNotice::ServerNotSetUp => owned("This server isn't set up for Twilight Sword."),
        FlowNotice::NoCategories => owned("Tickets can't be created on this server at this time."),
        FlowNotice::ChooseCategory => owned("Select what type of ticket this is:"),
        FlowNotice::CreationExpired => owned("Ticket creation expired."),
        FlowNotice::NoLongerAccepting => owned("This server is no longer accepting new tickets."),
        FlowNotice::NotAStaffThread => owned("This command is only useful in a staff ticket thread."),
        FlowNotice::Closed => owned("This ticket has been closed."),
        FlowNotice::ReplyMissingData => owned("Reply not sent: missing required data."),
        FlowNotice::ReplyUnpostable => owned("This message can't be posted in a Discord embed, so it couldn't be published."),
    }
}

/// The answer to a reply whose session expired, repeating what was written.
pub fn reply_expired_text(message: &str) -> (res: String)
    ensures
        res@ == "Your reply to this ticket expired. In case you need it again, here's what you entered:\n"@ + message@,
{
    concat2("Your reply to this ticket expired. In case you need it again, here's what you entered:\n", message)
}

} // verus!
