//! Moderation actions read from the server's audit log: what is recorded for each, and
//! the complaint posted when a moderator acted without giving a reason.
use vstd::prelude::*;
use crate::text::{concat3, concat5, owned, user_mention, user_mention_text};
use crate::time::{snowflake_millis, snowflake_timestamp};

verus! {

/// What an audit log entry says, as far as the moderation log reads it.
pub struct AuditEntry {
    /// The entry's ID, whose creation time is the time of the action.
    pub id: u64,
    pub guild_id: Option<u64>,
    /// The user who acted.
    pub user_id: Option<u64>,
    /// The user acted upon.
    pub target_id: Option<u64>,
    pub reason: Option<String>,
    /// For entries with extra information: the automod rule's name, if given.
    pub options: Option<Option<String>>,
}

/// The moderation actions done by people.
#[derive(Clone, Copy, Debug, PartialEq, Eq, Structural)]
pub enum ModerationAction {
    Ban,
    Unban,
    Kick,
    Timeout,
}

/// A moderation action to record.
pub struct ModerationRecord {
    pub guild: u64,
    pub actor: u64,
    pub target: u64,
    pub reason: String,
    /// The time of the action, in Unix milliseconds.
    pub action_time: i64,
}

/// Why an audit entry of a moderation action could not be recorded.
#[derive(Clone, Copy, Debug, PartialEq, Eq, Structural)]
pub enum AuditEntryProblem {
    MissingActor,
    MissingTarget,
}

/// The text of an optional reason; empty when none was given.
pub open spec fn reason_text(reason: Option<String>) -> Seq<char> {
    match reason {
        Some(r) => r@,
        None => Seq::empty(),
    }
}

/// What an audit entry of `action` records: nothing outside a server; a problem when
/// the acting or the affected user is missing; otherwise the server, both users, the
/// reason (none is kept for unbans) and the time of the entry.
pub fn read_moderation_entry(entry: &AuditEntry, action: ModerationAction) -> (res: Result<Option<ModerationRecord>, AuditEntryProblem>)
    ensures
        entry.guild_id is None ==> res == Ok::<Option<ModerationRecord>, AuditEntryProblem>(None),
        entry.guild_id is Some && entry.user_id is None ==> res == Err::<Option<ModerationRecord>, AuditEntryProblem>(AuditEntryProblem::MissingActor),
        entry.guild_id is Some && entry.user_id is Some && entry.target_id is None ==> res == Err::<Option<ModerationRecord>, AuditEntryProblem>(AuditEntryProblem::MissingTarget),
        entry.guild_id is Some && entry.user_id is Some && entry.target_id is Some ==> (res matches Ok(Some(r)) && {
            &&& r.guild == entry.guild_id->0
            &&& r.actor == entry.user_id->0
            &&& r.target == entry.target_id->0
            &&& r.reason@ == if action == ModerationAction::Unban { Seq::empty() } else { reason_text(entry.reason) }
            &&& r.action_time == snowflake_millis(entry.id)
        }),
{
    let guild = match entry.guild_id {
        Some(g) => g,
        None => return Ok(None),
    };
    let actor = match entry.user_id {
        Some(u) => u,
        None => return Err(AuditEntryProblem::MissingActor),
    };
    let target = match entry.target_id {
        Some(t) => t,
        None => return Err(AuditEntryProblem::MissingTarget),
    };
    let reason = match action {
        ModerationAction::Unban => String::new(),
        _ => match &entry.reason {
            Some(r) => r.clone(),
            None => String::new(),
        },
    };
    Ok(Some(ModerationRecord { guild, actor, target, reason, action_time: snowflake_timestamp(entry.id) }))
}

/// An automod action to record.
pub struct AutomodRecord {
    pub guild: u64,
    pub target: u64,
    pub reason: String,
    pub rule_name: String,
    pub action_time: i64,
}

/// What an audit entry of an automod action records: nothing when the server, the user
/// or the entry's extra information is missing; otherwise the server, the user, the
/// reason, the rule's name (empty when not given) and the time of the entry.
pub fn read_automod_entry(entry: &AuditEntry) -> (res: Option<AutomodRecord>)
    ensures
        res is Some <==> (entry.guild_id is Some && entry.user_id is Some && entry.options is Some),
        res matches Some(r) ==> {
            &&& r.guild == entry.guild_id->0
            &&& r.target == entry.user_id->0
            &&& r.reason@ == reason_text(entry.reason)
            &&& r.rule_name@ == reason_text(entry.options->0)
            &&& r.action_time == snowflake_millis(entry.id)
        },
{
    let guild = match entry.guild_id {
        Some(g) => g,
        None => return None,
    };
    let target = match entry.user_id {
        Some(u) => u,
        None => return None,
    };
    let rule = match &entry.options {
        Some(rule) => rule,
        None => return None,
    };
    let rule_name = match rule {
        Some(name) => name.clone(),
        None => String::new(),
    };
    let reason = match &entry.reason {
        Some(r) => r.clone(),
        None => String::new(),
    };
    Some(AutomodRecord { guild, target, reason, rule_name, action_time: snowflake_timestamp(entry.id) })
}

/// What the action did to the user, as the complaint words it.
pub open spec fn complaint_verb(action: ModerationAction) -> Seq<char> {
    match action {
        ModerationAction::Ban => " has been banned"@,
        ModerationAction::Kick => " has been kicked"@,
        _ => " has been timed out (or the timeout duration was updated)"@,
    }
}

/// The complaint sent to a moderator who acted without giving a reason.
pub open spec fn complaint_text(action: ModerationAction, actor: u64, target: u64) -> Seq<char> {
    user_mention_text(actor) + ", "@ + user_mention_text(target) + complaint_verb(action)
        + ", but you didn't provide a reason. Please write a note about "@ + user_mention_text(target)
        + " as soon as you can."@
}

/// Where a complaint about `action` is posted, if anywhere: in the server's complaint
/// channel, for bans and kicks, and for timeouts that set an end time; never for unbans.
pub open spec fn complaint_channel(action: ModerationAction, timeout_set: bool, channel: Option<u64>) -> Option<u64> {
    match action {
        ModerationAction::Unban => None,
        ModerationAction::Timeout => if timeout_set { channel } else { None },
        _ => channel,
    }
}

/// The complaint about a moderation action done without a reason, and where it goes
/// (see `complaint_channel`): there is one exactly when the action has a complaint
/// channel and the recorded reason is empty; only the acting moderator may be pinged.
pub fn complaint_for(
    action: ModerationAction,
    actor: u64,
    target: u64,
    reason: &str,
    timeout_set: bool,
    complain_channel: Option<u64>,
) -> (res: Option<(u64, String)>)
    ensures
        res is Some <==> (complaint_channel(action, timeout_set, complain_channel) is Some && reason@.len() == 0),
        res matches Some(c) ==> c.0 == complaint_channel(action, timeout_set, complain_channel)->0
            && c.1@ == complaint_text(action, actor, target),
        (action == ModerationAction::Ban || action == ModerationAction::Kick) && reason@.len() == 0
            && complain_channel is Some ==> match res { Some(c) => c.0 == complain_channel->0, None => false },
        action == ModerationAction::Timeout && timeout_set && reason@.len() == 0
            && complain_channel is Some ==> match res { Some(c) => c.0 == complain_channel->0, None => false },
        action == ModerationAction::Unban ==> res is None,
{
    if reason.unicode_len() != 0 {
        return None;
    }
    let channel = match action {
        ModerationAction::Unban => None,
        ModerationAction::Timeout => if timeout_set { complain_channel } else { None },
        _ => complain_channel,
    };
    match channel {
        None => None,
        Some(channel) => {
            let actor_mention = user_mention(actor);
            let target_mention = user_mention(target);
            let verb = match action {
                ModerationAction::Ban => " has been banned",
                ModerationAction::Kick => " has been kicked",
                _ => " has been timed out (or the timeout duration was updated)",
            };
            let head = concat5(actor_mention.as_str(), ", ", target_mention.as_str(), verb, ", but you didn't provide a reason. Please write a note about ");
            let text = concat3(head.as_str(), target_mention.as_str(), " as soon as you can.");
            proof {
                reveal_strlit("");
                assert(text@ =~= complaint_text(action, actor, target));
            }
            Some((channel, text))
        },
    }
}

/// Who is reminded, and where: a ban or a kick without a reason is complained about in
/// the server's complaint channel whenever one is set, a timeout only when it sets an end
/// time, an unban never; and the complaint pings the acting moderator, names the user
/// acted upon twice, and says what was done to them.
pub proof fn complaints_follow_the_action(actor: u64, target: u64, timeout_set: bool, channel: Option<u64>)
    ensures
        complaint_channel(ModerationAction::Ban, timeout_set, channel) == channel,
        complaint_channel(ModerationAction::Kick, timeout_set, channel) == channel,
        complaint_channel(ModerationAction::Timeout, true, channel) == channel,
        complaint_channel(ModerationAction::Timeout, false, channel) is None,
        complaint_channel(ModerationAction::Unban, timeout_set, channel) is None,
        complaint_text(ModerationAction::Ban, actor, target) == user_mention_text(actor) + ", "@ + user_mention_text(target)
            + " has been banned, but you didn't provide a reason. Please write a note about "@ + user_mention_text(target)
            + " as soon as you can."@,
        complaint_text(ModerationAction::Kick, actor, target) == user_mention_text(actor) + ", "@ + user_mention_text(target)
            + " has been kicked, but you didn't provide a reason. Please write a note about "@ + user_mention_text(target)
            + " as soon as you can."@,
        complaint_text(ModerationAction::Timeout, actor, target) == user_mention_text(actor) + ", "@ + user_mention_text(target)
            + " has been timed out (or the timeout duration was updated), but you didn't provide a reason. Please write a note about "@
            + user_mention_text(target) + " as soon as you can."@,
{
    reveal_strlit(" has been banned");
    reveal_strlit(" has been kicked");
    reveal_strlit(" has been timed out (or the timeout duration was updated)");
    reveal_strlit(", but you didn't provide a reason. Please write a note about ");
    reveal_strlit(" has been banned, but you didn't provide a reason. Please write a note about ");
    reveal_strlit(" has been kicked, but you didn't provide a reason. Please write a note about ");
    reveal_strlit(" has been timed out (or the timeout duration was updated), but you didn't provide a reason. Please write a note about ");
    let a = user_mention_text(actor) + ", "@ + user_mention_text(target);
    let tail = " as soon as you can."@;
    let m = user_mention_text(target);
    assert(a + " has been banned"@ + ", but you didn't provide a reason. Please write a note about "@ + m + tail
        =~= a + " has been banned, but you didn't provide a reason. Please write a note about "@ + m + tail);
    assert(a + " has been kicked"@ + ", but you didn't provide a reason. Please write a note about "@ + m + tail
        =~= a + " has been kicked, but you didn't provide a reason. Please write a note about "@ + m + tail);
    assert(a + " has been timed out (or the timeout duration was updated)"@ + ", but you didn't provide a reason. Please write a note about "@ + m + tail
        =~= a + " has been timed out (or the timeout duration was updated), but you didn't provide a reason. Please write a note about "@ + m + tail);
}

} // verus!
