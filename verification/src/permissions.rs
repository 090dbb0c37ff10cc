//! Channel permissions, as Discord's permission bit sets.
use vstd::prelude::*;
use crate::text::{concat3, channel_mention, channel_mention_text};
use twilight_model::channel::permission_overwrite::{PermissionOverwrite, PermissionOverwriteType};
use twilight_model::channel::ChannelType;
use twilight_model::guild::Permissions;
use twilight_model::id::Id;
use twilight_util::permission_calculator::PermissionCalculator;

verus! {

/// Allows viewing a channel.
pub const VIEW_CHANNEL: u64 = 1u64 << 10u64;
/// Allows sending messages in a channel.
pub const SEND_MESSAGES: u64 = 1u64 << 11u64;
/// Allows reading a channel's earlier messages.
pub const READ_MESSAGE_HISTORY: u64 = 1u64 << 16u64;
/// Allows managing threads.
pub const MANAGE_THREADS: u64 = 1u64 << 34u64;
/// Allows creating public threads.
pub const CREATE_PUBLIC_THREADS: u64 = 1u64 << 35u64;
/// Allows sending messages in threads.
pub const SEND_MESSAGES_IN_THREADS: u64 = 1u64 << 38u64;

/// The permissions the bot needs in a channel that holds tickets.
pub open spec fn ticket_channel_bits() -> u64 {
    0x4C_0001_0C00
}

/// The permissions the bot needs in a ticket channel: view channel, read message
/// history, send messages, send messages in threads, create public threads and manage
/// threads. (The missing-permissions message lists the same permissions.)
pub fn ticket_channel_permissions() -> (res: u64)
    ensures
        res == ticket_channel_bits(),
{
    let res = VIEW_CHANNEL | READ_MESSAGE_HISTORY | SEND_MESSAGES | SEND_MESSAGES_IN_THREADS | CREATE_PUBLIC_THREADS
        | MANAGE_THREADS;
    assert(res == 0x4C_0001_0C00u64) by (bit_vector)
        requires
            res == (1u64 << 10u64) | (1u64 << 16u64) | (1u64 << 11u64) | (1u64 << 38u64) | (1u64 << 35u64) | (1u64 << 34u64),
    ;
    res
}

/// Whether the permission set `granted` holds every permission of `required`.
pub open spec fn grants(granted: u64, required: u64) -> bool {
    granted & required == required
}

/// Whether `granted` holds every permission of `required` (bitflags' `contains`).
pub fn has_permissions(granted: u64, required: u64) -> (res: bool)
    ensures
        res == grants(granted, required),
{
    granted & required == required
}

/// Granting more permissions keeps every requirement that was met met, and a set that
/// lacks one of the required permissions does not meet the requirement.
pub proof fn grants_laws(granted: u64, extra: u64, required: u64, bit: u64)
    ensures
        grants(granted, required) ==> grants(granted | extra, required),
        required & bit != 0 && granted & bit == 0 ==> !grants(granted, required),
{
    assert(granted & required == required ==> (granted | extra) & required == required) by (bit_vector);
    assert(required & bit != 0 && granted & bit == 0 ==> granted & required != required) by (bit_vector);
}

/// A permission overwrite of a channel: whom it targets (`id`; `kind` 0 for a role, 1
/// for a member), and the permissions it allows and denies.
#[derive(Clone, Copy, Debug, PartialEq, Eq, Structural)]
pub struct ChannelOverwrite {
    pub id: u64,
    pub kind: u8,
    pub allow: u64,
    pub deny: u64,
}

/// The permissions `twilight_util`'s `PermissionCalculator::in_channel` computes for user
/// `user` of server `guild`, whose `@everyone` role has `everyone`, whose roles (ID,
/// permissions) are `member_roles`, in a channel of type `channel_kind` with overwrites
/// `overwrites` (ID, kind, allow, deny).
pub uninterp spec fn calculated_channel_permissions(
    guild: u64,
    user: u64,
    everyone: u64,
    member_roles: Seq<(u64, u64)>,
    channel_kind: u8,
    overwrites: Seq<(u64, u8, u64, u64)>,
) -> u64;

/// The overwrites `os` as (ID, kind, allow, deny).
pub open spec fn overwrite_tuples(os: Seq<ChannelOverwrite>) -> Seq<(u64, u8, u64, u64)> {
    os.map_values(|o: ChannelOverwrite| (o.id, o.kind, o.allow, o.deny))
}

/// Runs `PermissionCalculator::new(..).in_channel(..)` of `twilight_util` on the given
/// plain values (IDs made with `Id::new`, which refuses 0; permission bits kept as they
/// are; channel type and overwrite kind by their numbers). The result is named as a
/// function of the arguments; the calculation itself is not stated.
#[verifier::external_body]
fn calculate_channel_permissions(
    guild: u64,
    user: u64,
    everyone: u64,
    member_roles: &Vec<(u64, u64)>,
    channel_kind: u8,
    overwrites: &Vec<ChannelOverwrite>,
) -> (res: u64)
    requires
        guild != 0,
        user != 0,
        forall|i: int| 0 <= i < member_roles@.len() ==> #[trigger] member_roles@[i].0 != 0,
        forall|i: int| 0 <= i < overwrites@.len() ==> #[trigger] overwrites@[i].id != 0,
    ensures
        res == calculated_channel_permissions(guild, user, everyone, member_roles@, channel_kind, overwrite_tuples(overwrites@)),
{
    let roles: Vec<(Id<_>, Permissions)> = member_roles.iter().map(|r| (Id::new(r.0), Permissions::from_bits_retain(r.1))).collect();
    let overwrites: Vec<PermissionOverwrite> = overwrites.iter().map(|o| PermissionOverwrite {
        allow: Permissions::from_bits_retain(o.allow),
        deny: Permissions::from_bits_retain(o.deny),
        id: Id::new(o.id),
        kind: PermissionOverwriteType::from(o.kind),
    }).collect();
    let calculator = PermissionCalculator::new(Id::new(guild), Id::new(user), Permissions::from_bits_retain(everyone), &roles);
    calculator.in_channel(ChannelType::from(channel_kind), &overwrites).bits()
}

/// The permissions of the role `role` among the server's roles `roles` (ID, permissions):
/// those of the last entry with that ID, none when there is no such entry.
pub open spec fn role_permissions(roles: Seq<(u64, u64)>, role: u64) -> u64
    decreases roles.len(),
{
    if roles.len() == 0 {
        0
    } else if roles.last().0 == role {
        roles.last().1
    } else {
        role_permissions(roles.drop_last(), role)
    }
}

/// The member's roles `ids`, each with its permissions among `roles`.
pub open spec fn member_role_permissions(roles: Seq<(u64, u64)>, ids: Seq<u64>) -> Seq<(u64, u64)> {
    ids.map_values(|id: u64| (id, role_permissions(roles, id)))
}

fn find_role_permissions(roles: &Vec<(u64, u64)>, role: u64) -> (res: u64)
    ensures
        res == role_permissions(roles@, role),
{
    let mut i: usize = roles.len();
    assert(roles@.take(i as int) =~= roles@);
    while i > 0
        invariant
            i <= roles.len(),
            role_permissions(roles@, role) == role_permissions(roles@.take(i as int), role),
        decreases i,
    {
        proof {
            assert(roles@.take(i as int).drop_last() =~= roles@.take(i - 1));
        }
        if roles[i - 1].0 == role {
            return roles[i - 1].1;
        }
        i = i - 1;
    }
    0
}

/// The permissions the bot (user `bot`) has in a channel of server `guild`: none when the
/// channel could not be read (`channel` is `None`); otherwise what the permission
/// calculator gives for the `@everyone` role (the role whose ID is the server's), the
/// bot's roles `bot_roles` with their permissions among the server's roles `roles`, and
/// the channel's type and overwrites.
pub fn bot_channel_permissions(
    guild: u64,
    bot: u64,
    roles: &Vec<(u64, u64)>,
    bot_roles: &Vec<u64>,
    channel: &Option<(u8, Vec<ChannelOverwrite>)>,
) -> (res: u64)
    requires
        guild != 0,
        bot != 0,
        forall|i: int| 0 <= i < bot_roles@.len() ==> #[trigger] bot_roles@[i] != 0,
        channel matches Some(c) ==> forall|i: int| 0 <= i < c.1@.len() ==> #[trigger] c.1@[i].id != 0,
    ensures
        res == match channel {
            None => 0,
            Some(c) => calculated_channel_permissions(
                guild,
                bot,
                role_permissions(roles@, guild),
                member_role_permissions(roles@, bot_roles@),
                c.0,
                overwrite_tuples(c.1@),
            ),
        },
{
    match channel {
        None => 0,
        Some(c) => {
            let everyone = find_role_permissions(roles, guild);
            let mut member_roles: Vec<(u64, u64)> = Vec::new();
            let mut i: usize = 0;
            while i < bot_roles.len()
                invariant
                    i <= bot_roles.len(),
                    member_roles@ == member_role_permissions(roles@, bot_roles@.take(i as int)),
                decreases bot_roles.len() - i,
            {
                let id = bot_roles[i];
                let p = find_role_permissions(roles, id);
                member_roles.push((id, p));
                proof {
                    assert(bot_roles@.take(i + 1) =~= bot_roles@.take(i as int).push(id));
                    assert(member_roles@ =~= member_role_permissions(roles@, bot_roles@.take(i + 1)));
                }
                i = i + 1;
            }
            assert(bot_roles@.take(bot_roles.len() as int) =~= bot_roles@);
            proof {
                assert forall|i: int| 0 <= i < member_roles@.len() implies #[trigger] member_roles@[i].0 != 0 by {
                    assert(member_roles@[i].0 == bot_roles@[i]);
                }
            }
            calculate_channel_permissions(guild, bot, everyone, &member_roles, c.0, &c.1)
        },
    }
}

/// Generates the message to send when setting up a channel that doesn't have the
/// necessary permissions to be a ticket channel.
pub open spec fn missing_ticket_permissions_text(channel_mention: Seq<char>) -> Seq<char> {
    "The channel "@ + channel_mention
        + " does not have the necessary permissions (View Channel, Read Message History, Send Messages, Send Messages in Threads, Create Public Threads, Manage Threads) in the ticket channel to create, update, and manage tickets."@
}

/// The missing-permissions message for the channel whose mention is `channel_mention`.
pub fn ticket_channel_missing_permissions_message(channel_mention: &str) -> (res: String)
    ensures
        res@ == missing_ticket_permissions_text(channel_mention@),
{
    concat3(
        "The channel ",
        channel_mention,
        " does not have the necessary permissions (View Channel, Read Message History, Send Messages, Send Messages in Threads, Create Public Threads, Manage Threads) in the ticket channel to create, update, and manage tickets.",
    )
}

/// The permissions a ticket channel needs, each with the name under which answers list
/// it, in the order in which they are listed.
pub open spec fn ticket_permission_list() -> Seq<(Seq<char>, u64)> {
    seq![
        ("View Channel"@, VIEW_CHANNEL),
        ("Read Message History"@, READ_MESSAGE_HISTORY),
        ("Send Messages"@, SEND_MESSAGES),
        ("Send Messages in Threads"@, SEND_MESSAGES_IN_THREADS),
        ("Create Public Threads"@, CREATE_PUBLIC_THREADS),
        ("Manage Threads"@, MANAGE_THREADS),
    ]
}

/// The names of the permissions `ps`, separated by commas.
pub open spec fn permission_names(ps: Seq<(Seq<char>, u64)>) -> Seq<char>
    decreases ps.len(),
{
    if ps.len() == 0 {
        Seq::empty()
    } else if ps.len() == 1 {
        ps[0].0
    } else {
        permission_names(ps.drop_last()) + ", "@ + ps.last().0
    }
}

/// The permission set made of the permissions `ps`.
pub open spec fn permission_bits(ps: Seq<(Seq<char>, u64)>) -> u64
    decreases ps.len(),
{
    if ps.len() == 0 {
        0
    } else {
        permission_bits(ps.drop_last()) | ps.last().1
    }
}

/// The missing-permissions message names exactly the permissions that a ticket channel
/// needs: the six listed names belong to six distinct single permission bits, which
/// together make up the ticket channel permissions.
pub proof fn missing_permissions_name_the_ticket_permissions(channel_mention: Seq<char>)
    ensures
        permission_bits(ticket_permission_list()) == ticket_channel_bits(),
        forall|i: int| 0 <= i < 6 ==> #[trigger] ticket_permission_list()[i].1 != 0,
        forall|i: int, j: int| 0 <= i < j < 6 ==> #[trigger] ticket_permission_list()[i].1 & #[trigger] ticket_permission_list()[j].1 == 0,
        missing_ticket_permissions_text(channel_mention) == "The channel "@ + channel_mention
            + " does not have the necessary permissions ("@ + permission_names(ticket_permission_list())
            + ") in the ticket channel to create, update, and manage tickets."@,
{
    let l = ticket_permission_list();
    assert(l.len() == 6);
    let b0 = 1u64 << 10u64;
    let b1 = 1u64 << 16u64;
    let b2 = 1u64 << 11u64;
    let b3 = 1u64 << 38u64;
    let b4 = 1u64 << 35u64;
    let b5 = 1u64 << 34u64;
    assert(l[0].1 == b0 && l[1].1 == b1 && l[2].1 == b2 && l[3].1 == b3 && l[4].1 == b4 && l[5].1 == b5);
    let l1 = l.drop_last();
    let l2 = l1.drop_last();
    let l3 = l2.drop_last();
    let l4 = l3.drop_last();
    let l5 = l4.drop_last();
    let l6 = l5.drop_last();
    assert(l6.len() == 0);
    assert(permission_bits(l6) == 0);
    assert(permission_bits(l5) == 0 | b0);
    assert(permission_bits(l4) == (0 | b0) | b1);
    assert(permission_bits(l3) == ((0 | b0) | b1) | b2);
    assert(permission_bits(l2) == (((0 | b0) | b1) | b2) | b3);
    assert(permission_bits(l1) == ((((0 | b0) | b1) | b2) | b3) | b4);
    assert(permission_bits(l) == (((((0 | b0) | b1) | b2) | b3) | b4) | b5);
    assert((((((0u64 | (1u64 << 10u64)) | (1u64 << 16u64)) | (1u64 << 11u64)) | (1u64 << 38u64)) | (1u64 << 35u64)) | (1u64 << 34u64)
        == 0x4C_0001_0C00u64) by (bit_vector);
    assert(b0 != 0 && b1 != 0 && b2 != 0 && b3 != 0 && b4 != 0 && b5 != 0) by (bit_vector)
        requires
            b0 == 1u64 << 10u64,
            b1 == 1u64 << 16u64,
            b2 == 1u64 << 11u64,
            b3 == 1u64 << 38u64,
            b4 == 1u64 << 35u64,
            b5 == 1u64 << 34u64,
    ;
    assert(b0 & b1 == 0 && b0 & b2 == 0 && b0 & b3 == 0 && b0 & b4 == 0 && b0 & b5 == 0) by (bit_vector)
        requires
            b0 == 1u64 << 10u64,
            b1 == 1u64 << 16u64,
            b2 == 1u64 << 11u64,
            b3 == 1u64 << 38u64,
            b4 == 1u64 << 35u64,
            b5 == 1u64 << 34u64,
    ;
    assert(b1 & b2 == 0 && b1 & b3 == 0 && b1 & b4 == 0 && b1 & b5 == 0) by (bit_vector)
        requires
            b0 == 1u64 << 10u64,
            b1 == 1u64 << 16u64,
            b2 == 1u64 << 11u64,
            b3 == 1u64 << 38u64,
            b4 == 1u64 << 35u64,
            b5 == 1u64 << 34u64,
    ;
    assert(b2 & b3 == 0 && b2 & b4 == 0 && b2 & b5 == 0) by (bit_vector)
        requires
            b0 == 1u64 << 10u64,
            b1 == 1u64 << 16u64,
            b2 == 1u64 << 11u64,
            b3 == 1u64 << 38u64,
            b4 == 1u64 << 35u64,
            b5 == 1u64 << 34u64,
    ;
    assert(b3 & b4 == 0 && b3 & b5 == 0 && b4 & b5 == 0) by (bit_vector)
        requires
            b0 == 1u64 << 10u64,
            b1 == 1u64 << 16u64,
            b2 == 1u64 << 11u64,
            b3 == 1u64 << 38u64,
            b4 == 1u64 << 35u64,
            b5 == 1u64 << 34u64,
    ;
    reveal_strlit("View Channel");
    reveal_strlit("Read Message History");
    reveal_strlit("Send Messages");
    reveal_strlit("Send Messages in Threads");
    reveal_strlit("Create Public Threads");
    reveal_strlit("Manage Threads");
    reveal_strlit(", ");
    reveal_strlit(" does not have the necessary permissions (");
    reveal_strlit(") in the ticket channel to create, update, and manage tickets.");
    reveal_strlit(" does not have the necessary permissions (View Channel, Read Message History, Send Messages, Send Messages in Threads, Create Public Threads, Manage Threads) in the ticket channel to create, update, and manage tickets.");
    assert(l5.len() == 1 && l5[0] == l[0]);
    assert(l4.last() == l[1] && l3.last() == l[2] && l2.last() == l[3] && l1.last() == l[4] && l.last() == l[5]);
    let names = "View Channel"@ + ", "@ + "Read Message History"@ + ", "@ + "Send Messages"@ + ", "@
        + "Send Messages in Threads"@ + ", "@ + "Create Public Threads"@ + ", "@ + "Manage Threads"@;
    assert(permission_names(l5) == "View Channel"@);
    assert(permission_names(l4) == "View Channel"@ + ", "@ + "Read Message History"@);
    assert(permission_names(l3) == permission_names(l4) + ", "@ + "Send Messages"@);
    assert(permission_names(l2) == permission_names(l3) + ", "@ + "Send Messages in Threads"@);
    assert(permission_names(l1) == permission_names(l2) + ", "@ + "Create Public Threads"@);
    assert(permission_names(l) == permission_names(l1) + ", "@ + "Manage Threads"@);
    assert(permission_names(l) == names);
    assert(" does not have the necessary permissions (View Channel, Read Message History, Send Messages, Send Messages in Threads, Create Public Threads, Manage Threads) in the ticket channel to create, update, and manage tickets."@
        =~= " does not have the necessary permissions ("@ + names + ") in the ticket channel to create, update, and manage tickets."@);
    assert(missing_ticket_permissions_text(channel_mention) =~= "The channel "@ + channel_mention
        + " does not have the necessary permissions ("@ + permission_names(l)
        + ") in the ticket channel to create, update, and manage tickets."@);
}

/// The message sent when the bot may not post in a channel chosen for complaints.
pub fn cannot_post_message(channel: u64) -> (res: String)
    ensures
        res@ == "The channel "@ + channel_mention_text(channel) + " doesn't have the necessary permissions (Send Messages) for me to post to it."@,
{
    let m = channel_mention(channel);
    concat3("The channel ", m.as_str(), " doesn't have the necessary permissions (Send Messages) for me to post to it.")
}

} // verus!
