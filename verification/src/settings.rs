//! The `/settings` commands and the other server commands: which checks they make and
//! what they answer.
use vstd::prelude::*;
use crate::components::{single, ActionRow, Component, ComponentView, Modal, TextInput, TextInputStyle, TextInputView, rows_view};
use crate::permissions::{SEND_MESSAGES, cannot_post_message, grants, has_permissions, missing_ticket_permissions_text, ticket_channel_bits, ticket_channel_missing_permissions_message, ticket_channel_permissions};
use crate::session::SessionStore;
use crate::category::GuildSettings;
use crate::text::{channel_mention, channel_mention_text, concat2, concat3, opt_view, owned, role_mention, role_mention_text, user_mention, user_mention_text};

verus! {

/// The answer to commands used on a server that has not been set up.
pub fn not_set_up_text() -> (res: String)
    ensures
        res@ == "This server hasn't yet been set up in Twilight Sword. Use `/setup` to set up."@,
{
    owned("This server hasn't yet been set up in Twilight Sword. Use `/setup` to set up.")
}

/// The channel settings of a server.
#[derive(Clone, Copy, Debug, PartialEq, Eq, Structural)]
pub enum ChannelSetting {
    ActionReasonComplain,
    StartTicket,
    NewPartnerTicket,
    ExistingPartnerTicket,
    MessageReports,
}

/// How a channel setting is called in answers.
pub open spec fn channel_setting_name(s: ChannelSetting) -> Seq<char> {
    match s {
        ChannelSetting::ActionReasonComplain => "action reason complaint channel"@,
        ChannelSetting::StartTicket => "start ticket channel"@,
        ChannelSetting::NewPartnerTicket => "new partner ticket channel"@,
        ChannelSetting::ExistingPartnerTicket => "existing partner ticket channel"@,
        ChannelSetting::MessageReports => "message reports channel"@,
    }
}

fn channel_setting_name_str(s: ChannelSetting) -> (res: &'static str)
    ensures
        res@ == channel_setting_name(s),
{
    match s {
        ChannelSetting::ActionReasonComplain => "action reason complaint channel",
        ChannelSetting::StartTicket => "start ticket channel",
        ChannelSetting::NewPartnerTicket => "new partner ticket channel",
        ChannelSetting::ExistingPartnerTicket => "existing partner ticket channel",
        ChannelSetting::MessageReports => "message reports channel",
    }
}

/// The permissions the bot must have in a channel before it becomes the setting's
/// value: posting for the complaint channel, the ticket permissions for the existing
/// partner ticket and message reports channels, none for the start ticket and new
/// partner ticket channels (which are not checked).
pub open spec fn required_channel_bits(s: ChannelSetting) -> u64 {
    match s {
        ChannelSetting::ActionReasonComplain => 1u64 << 11u64,
        ChannelSetting::ExistingPartnerTicket => ticket_channel_bits(),
        ChannelSetting::MessageReports => ticket_channel_bits(),
        _ => 0,
    }
}

/// Whether the bot's permissions `granted` in a channel allow it to become the value of
/// setting `s`.
pub fn channel_acceptable(s: ChannelSetting, granted: u64) -> (res: bool)
    ensures
        res == grants(granted, required_channel_bits(s)),
{
    match s {
        ChannelSetting::ActionReasonComplain => has_permissions(granted, SEND_MESSAGES),
        ChannelSetting::ExistingPartnerTicket => has_permissions(granted, ticket_channel_permissions()),
        ChannelSetting::MessageReports => has_permissions(granted, ticket_channel_permissions()),
        _ => {
            assert(granted & 0u64 == 0u64) by (bit_vector);
            true
        },
    }
}

/// Whether the bot's permissions in a channel are checked before it becomes the value of
/// setting `s`.
pub fn channel_needs_check(s: ChannelSetting) -> (res: bool)
    ensures
        res == (required_channel_bits(s) != 0),
{
    assert(1u64 << 11u64 != 0u64) by (bit_vector);
    match s {
        ChannelSetting::ActionReasonComplain => true,
        ChannelSetting::ExistingPartnerTicket => true,
        ChannelSetting::MessageReports => true,
        _ => false,
    }
}

/// The answer when the bot lacks the permissions setting `s` needs in channel `channel`:
/// for the complaint channel, that it cannot post there; otherwise the missing ticket
/// permissions.
pub fn channel_refusal_text(s: ChannelSetting, channel: u64) -> (res: String)
    ensures
        res@ == if s == ChannelSetting::ActionReasonComplain {
            "The channel "@ + channel_mention_text(channel) + " doesn't have the necessary permissions (Send Messages) for me to post to it."@
        } else {
            missing_ticket_permissions_text(channel_mention_text(channel))
        },
{
    match s {
        ChannelSetting::ActionReasonComplain => cannot_post_message(channel),
        _ => {
            let m = channel_mention(channel);
            ticket_channel_missing_permissions_message(m.as_str())
        },
    }
}

/// The channel that setting `s` holds on server `g`.
pub open spec fn setting_channel(g: GuildSettings, s: ChannelSetting) -> Option<u64> {
    match s {
        ChannelSetting::ActionReasonComplain => g.action_reason_complain_channel,
        ChannelSetting::StartTicket => g.start_ticket_channel,
        ChannelSetting::NewPartnerTicket => g.new_partner_ticket_channel,
        ChannelSetting::ExistingPartnerTicket => g.existing_partner_ticket_channel,
        ChannelSetting::MessageReports => g.message_reports_channel,
    }
}

/// Each channel setting holds its own field of the server's settings, is called by its
/// own name in answers, and asks of a new channel what it is used for: the complaint
/// channel that the bot may post there (Send Messages), the existing partner ticket and
/// message reports channels the six ticket permissions; the start ticket and new partner
/// ticket channels are taken unchecked.
pub proof fn channel_settings_are_their_own(g: GuildSettings)
    ensures
        setting_channel(g, ChannelSetting::ActionReasonComplain) == g.action_reason_complain_channel,
        setting_channel(g, ChannelSetting::StartTicket) == g.start_ticket_channel,
        setting_channel(g, ChannelSetting::NewPartnerTicket) == g.new_partner_ticket_channel,
        setting_channel(g, ChannelSetting::ExistingPartnerTicket) == g.existing_partner_ticket_channel,
        setting_channel(g, ChannelSetting::MessageReports) == g.message_reports_channel,
        channel_setting_name(ChannelSetting::ActionReasonComplain) == "action reason complaint channel"@,
        channel_setting_name(ChannelSetting::StartTicket) == "start ticket channel"@,
        channel_setting_name(ChannelSetting::NewPartnerTicket) == "new partner ticket channel"@,
        channel_setting_name(ChannelSetting::ExistingPartnerTicket) == "existing partner ticket channel"@,
        channel_setting_name(ChannelSetting::MessageReports) == "message reports channel"@,
        required_channel_bits(ChannelSetting::ActionReasonComplain) == 0x800u64,
        required_channel_bits(ChannelSetting::ExistingPartnerTicket) == ticket_channel_bits(),
        required_channel_bits(ChannelSetting::MessageReports) == ticket_channel_bits(),
        required_channel_bits(ChannelSetting::StartTicket) == 0,
        required_channel_bits(ChannelSetting::NewPartnerTicket) == 0,
        role_setting_name(RoleSetting::Admin) == "admin role"@,
        role_setting_name(RoleSetting::Staff) == "staff role"@,
{
    assert(1u64 << 11u64 == 0x800u64) by (bit_vector);
}

/// Server `g` once setting `s` is unset: the setting holds no channel, and unsetting the
/// start ticket channel also forgets the start ticket message posted there.
pub open spec fn without_channel(g: GuildSettings, s: ChannelSetting) -> GuildSettings {
    match s {
        ChannelSetting::ActionReasonComplain => GuildSettings { action_reason_complain_channel: None, ..g },
        ChannelSetting::StartTicket => GuildSettings { start_ticket_channel: None, start_ticket_message_id: None, ..g },
        ChannelSetting::NewPartnerTicket => GuildSettings { new_partner_ticket_channel: None, ..g },
        ChannelSetting::ExistingPartnerTicket => GuildSettings { existing_partner_ticket_channel: None, ..g },
        ChannelSetting::MessageReports => GuildSettings { message_reports_channel: None, ..g },
    }
}

/// The channel that setting `s` holds on server `g` (see `setting_channel`).
pub fn stored_channel(g: &GuildSettings, s: ChannelSetting) -> (res: Option<u64>)
    ensures
        res == setting_channel(*g, s),
{
    match s {
        ChannelSetting::ActionReasonComplain => g.action_reason_complain_channel,
        ChannelSetting::StartTicket => g.start_ticket_channel,
        ChannelSetting::NewPartnerTicket => g.new_partner_ticket_channel,
        ChannelSetting::ExistingPartnerTicket => g.existing_partner_ticket_channel,
        ChannelSetting::MessageReports => g.message_reports_channel,
    }
}

/// Unsetting a channel setting twice comes to the same as unsetting it once: afterwards
/// the setting holds no channel (so a second unset finds nothing to unset and answers
/// `NothingToUnset`), and the other channel settings keep their channels.
pub proof fn unset_is_idempotent(g: GuildSettings, s: ChannelSetting, other: ChannelSetting)
    ensures
        setting_channel(without_channel(g, s), s) is None,
        without_channel(without_channel(g, s), s) == without_channel(g, s),
        other != s ==> setting_channel(without_channel(g, s), other) == setting_channel(g, other),
{
}

/// What a channel setting command has to answer.
#[derive(Clone, Copy, Debug, PartialEq, Eq, Structural)]
pub enum ChannelSettingReply {
    /// The current value.
    Current(Option<u64>),
    /// The setting now holds this channel.
    Updated(u64),
    /// The setting was removed.
    Unset,
    /// The setting was not set, so there was nothing to remove.
    NothingToUnset,
    UnsetFailed,
    UpdateFailed,
    /// The server's settings could not be read.
    LookupFailed,
}

/// The answer of a channel setting command.
pub open spec fn channel_setting_reply_text(s: ChannelSetting, r: ChannelSettingReply) -> Seq<char> {
    let name = channel_setting_name(s);
    match r {
        ChannelSettingReply::Current(Some(c)) => "The "@ + name + " is set up as "@ + channel_mention_text(c) + "."@,
        ChannelSettingReply::Current(None) => "No "@ + name + " is set."@,
        ChannelSettingReply::Updated(c) => "Updated the "@ + name + " to "@ + channel_mention_text(c) + "."@,
        ChannelSettingReply::Unset => if s == ChannelSetting::StartTicket {
            "The start ticket channel has been unset. Your server will no longer use this feature until you set it again."@
        } else {
            "The "@ + name + " has been unset."@
        },
        ChannelSettingReply::NothingToUnset => "Your server didn't have this channel set up, so the setting value remains unset."@,
        ChannelSettingReply::UnsetFailed => if s == ChannelSetting::StartTicket {
            "An internal error occurred, so the start ticket channel couldn't be removed."@
        } else {
            "An internal error occurred, so the "@ + name + " couldn't be unset."@
        },
        ChannelSettingReply::UpdateFailed => "An internal error caused the update to fail."@,
        ChannelSettingReply::LookupFailed => "An internal error occurred handling this command."@,
    }
}

/// The answer of a channel setting command (see `channel_setting_reply_text`).
pub fn channel_setting_reply(s: ChannelSetting, r: ChannelSettingReply) -> (res: String)
    ensures
        res@ == channel_setting_reply_text(s, r),
{
    let name = channel_setting_name_str(s);
    match r {
        ChannelSettingReply::Current(Some(c)) => {
            let m = channel_mention(c);
            let a = concat3("The ", name, " is set up as ");
            concat3(a.as_str(), m.as_str(), ".")
        },
        ChannelSettingReply::Current(None) => concat3("No ", name, " is set."),
        ChannelSettingReply::Updated(c) => {
            let m = channel_mention(c);
            let a = concat3("Updated the ", name, " to ");
            concat3(a.as_str(), m.as_str(), ".")
        },
        ChannelSettingReply::Unset => match s {
            ChannelSetting::StartTicket => owned(
                "The start ticket channel has been unset. Your server will no longer use this feature until you set it again.",
            ),
            _ => concat3("The ", name, " has been unset."),
        },
        ChannelSettingReply::NothingToUnset => owned("Your server didn't have this channel set up, so the setting value remains unset."),
        ChannelSettingReply::UnsetFailed => match s {
            ChannelSetting::StartTicket => owned("An internal error occurred, so the start ticket channel couldn't be removed."),
            _ => concat3("An internal error occurred, so the ", name, " couldn't be unset."),
        },
        ChannelSettingReply::UpdateFailed => owned("An internal error caused the update to fail."),
        ChannelSettingReply::LookupFailed => owned("An internal error occurred handling this command."),
    }
}

/// What the start ticket message needs after the message text changed: edit the posted
/// message, post a new one (and store its ID), or nothing when there is no start ticket
/// channel.
#[derive(Clone, Copy, Debug, PartialEq, Eq, Structural)]
pub enum StartMessageAction {
    Edit { channel: u64, message: u64 },
    Post { channel: u64 },
    Nothing,
}

/// What the start ticket message needs (see `StartMessageAction`).
pub fn start_message_action(channel: Option<u64>, message: Option<u64>) -> (res: StartMessageAction)
    ensures
        res == match (channel, message) {
            (Some(c), Some(m)) => StartMessageAction::Edit { channel: c, message: m },
            (Some(c), None) => StartMessageAction::Post { channel: c },
            (None, _) => StartMessageAction::Nothing,
        },
{
    match (channel, message) {
        (Some(c), Some(m)) => StartMessageAction::Edit { channel: c, message: m },
        (Some(c), None) => StartMessageAction::Post { channel: c },
        (None, _) => StartMessageAction::Nothing,
    }
}

/// The old start ticket message to delete when the start ticket channel moves: the one
/// posted before, when both its channel and its ID are known.
pub fn start_message_to_delete(channel: Option<u64>, message: Option<u64>) -> (res: Option<(u64, u64)>)
    ensures
        res == match (channel, message) {
            (Some(c), Some(m)) => Some((c, m)),
            _ => None::<(u64, u64)>,
        },
{
    match (channel, message) {
        (Some(c), Some(m)) => Some((c, m)),
        _ => None,
    }
}

/// The sessions of the start ticket message editor: the server each open editor belongs to.
pub struct StartTicketMessageState {
    pub guilds: SessionStore<u64>,
}

/// The modal that edits the start ticket message, prefilled with the current message.
pub fn start_ticket_message_modal(prompt_id: &str, current_message: &str) -> (res: Modal)
    ensures
        res.custom_id@ == "settings/start_ticket_message/"@ + prompt_id@ + "/modal"@,
        res.title@ == "Start Ticket Message"@,
        rows_view(res.rows@) == seq![single(ComponentView::TextInput(TextInputView {
            custom_id: "message"@,
            label: "Message contents"@,
            max_length: None,
            min_length: None,
            placeholder: None,
            required: false,
            style: TextInputStyle::Paragraph,
            value: Some(current_message@),
        }))],
{
    let input = Component::TextInput(TextInput {
        custom_id: owned("message"),
        label: owned("Message contents"),
        max_length: None,
        min_length: None,
        placeholder: None,
        required: false,
        style: TextInputStyle::Paragraph,
        value: Some(owned(current_message)),
    });
    let mut components: Vec<Component> = Vec::new();
    components.push(input);
    let row = ActionRow { components };
    assert(row@ =~= single(row.components@[0]@));
    let mut rows: Vec<ActionRow> = Vec::new();
    rows.push(row);
    assert(rows_view(rows@) =~= seq![single(rows@[0].components@[0]@)]);
    Modal {
        custom_id: concat3("settings/start_ticket_message/", prompt_id, "/modal"),
        title: owned("Start Ticket Message"),
        rows,
    }
}

// ---------------------------------------------------------------------------------
// Roles
// ---------------------------------------------------------------------------------

/// The role settings of a server.
#[derive(Clone, Copy, Debug, PartialEq, Eq, Structural)]
pub enum RoleSetting {
    Admin,
    Staff,
}

/// How a role setting is called in answers.
pub open spec fn role_setting_name(s: RoleSetting) -> Seq<char> {
    match s {
        RoleSetting::Admin => "admin role"@,
        RoleSetting::Staff => "staff role"@,
    }
}

/// The answer to reading a role setting.
pub fn role_setting_current(s: RoleSetting, role: u64) -> (res: String)
    ensures
        res@ == "The "@ + role_setting_name(s) + " is set up as "@ + role_mention_text(role) + "."@,
{
    let name = match s {
        RoleSetting::Admin => "admin role",
        RoleSetting::Staff => "staff role",
    };
    let m = role_mention(role);
    let a = concat3("The ", name, " is set up as ");
    concat3(a.as_str(), m.as_str(), ".")
}

/// The answer to changing a role setting.
pub fn role_setting_updated(s: RoleSetting, role: u64) -> (res: String)
    ensures
        res@ == "Updated the "@ + role_setting_name(s) + " to "@ + role_mention_text(role) + "."@,
{
    let name = match s {
        RoleSetting::Admin => "admin role",
        RoleSetting::Staff => "staff role",
    };
    let m = role_mention(role);
    let a = concat3("Updated the ", name, " to ");
    concat3(a.as_str(), m.as_str(), ".")
}

// ---------------------------------------------------------------------------------
// Custom categories
// ---------------------------------------------------------------------------------

/// What creating a custom category leads to.
#[derive(Clone, Copy, Debug, PartialEq, Eq, Structural)]
pub enum CategoryCreation {
    /// An active category with the same name exists.
    Duplicate,
    /// The bot lacks ticket permissions in the channel.
    MissingPermissions,
    /// Store the new category.
    Create,
}

/// Decides whether a custom category can be created: a duplicate name is refused first,
/// then a channel without the ticket permissions.
pub fn category_creation(name_taken: bool, granted: u64) -> (res: CategoryCreation)
    ensures
        res == if name_taken {
            CategoryCreation::Duplicate
        } else if !grants(granted, ticket_channel_bits()) {
            CategoryCreation::MissingPermissions
        } else {
            CategoryCreation::Create
        },
{
    if name_taken {
        CategoryCreation::Duplicate
    } else if !has_permissions(granted, ticket_channel_permissions()) {
        CategoryCreation::MissingPermissions
    } else {
        CategoryCreation::Create
    }
}

/// The answer to a created custom category.
pub fn category_created_text(name: &str, channel: u64) -> (res: String)
    ensures
        res@ == "Created new ticket category `"@ + name@ + "` in channel "@ + channel_mention_text(channel) + "."@,
{
    let m = channel_mention(channel);
    let a = concat3("Created new ticket category `", name, "` in channel ");
    concat3(a.as_str(), m.as_str(), ".")
}

// ---------------------------------------------------------------------------------
// Restricted users
// ---------------------------------------------------------------------------------

/// The lines of the restricted users list, one mention per line.
pub open spec fn restricted_lines(users: Seq<u64>) -> Seq<char>
    decreases users.len(),
{
    if users.len() == 0 {
        Seq::empty()
    } else if users.len() == 1 {
        "- "@ + user_mention_text(users[0])
    } else {
        restricted_lines(users.drop_last()) + "\n"@ + "- "@ + user_mention_text(users.last())
    }
}

/// The list of users restricted from sending tickets.
pub open spec fn restricted_list_text(users: Seq<u64>) -> Seq<char> {
    if users.len() == 0 {
        "No users are restricted from sending tickets."@
    } else {
        "The following users are restricted from sending tickets:\n"@ + restricted_lines(users)
    }
}

/// The answer to `/list_restricted_users` (see `restricted_list_text`).
pub fn restricted_users_text(users: &Vec<u64>) -> (res: String)
    ensures
        res@ == restricted_list_text(users@),
{
    if users.len() == 0 {
        return owned("No users are restricted from sending tickets.");
    }
    let mut lines = String::new();
    let mut i: usize = 0;
    while i < users.len()
        invariant
            i <= users.len(),
            lines@ == restricted_lines(users@.take(i as int)),
        decreases users.len() - i,
    {
        let m = user_mention(users[i]);
        proof {
            assert(users@.take(i + 1).drop_last() =~= users@.take(i as int));
            assert(users@.take(i + 1).last() == users@[i as int]);
            if i == 0 {
                assert(users@.take(1)[0] == users@[0]);
            }
        }
        if i > 0 {
            lines.append("\n");
        }
        lines.append("- ");
        lines.append(m.as_str());
        i = i + 1;
        assert(lines@ =~= restricted_lines(users@.take(i as int)));
    }
    assert(users@.take(users.len() as int) =~= users@);
    concat2("The following users are restricted from sending tickets:\n", lines.as_str())
}

/// What happened to a restriction.
#[derive(Clone, Copy, Debug, PartialEq, Eq, Structural)]
pub enum RestrictionChange {
    Restricted,
    AlreadyRestricted,
    Unrestricted,
}

/// The answer to a restriction change for `user`.
pub fn restriction_text(change: RestrictionChange, user: u64) -> (res: String)
    ensures
        res@ == user_mention_text(user) + match change {
            RestrictionChange::Restricted => " is now restricted from sending tickets."@,
            RestrictionChange::AlreadyRestricted => " was already restricted from sending tickets."@,
            RestrictionChange::Unrestricted => " is now not restricted from sending tickets."@,
        },
{
    let m = user_mention(user);
    match change {
        RestrictionChange::Restricted => concat2(m.as_str(), " is now restricted from sending tickets."),
        RestrictionChange::AlreadyRestricted => concat2(m.as_str(), " was already restricted from sending tickets."),
        RestrictionChange::Unrestricted => concat2(m.as_str(), " is now not restricted from sending tickets."),
    }
}

/// The other answers of the settings commands and modals.
#[derive(Clone, Copy, Debug, PartialEq, Eq, Structural)]
pub enum SettingsNotice {
    /// A settings modal was submitted after its session expired.
    ModalExpired,
    StartMessageUpdated,
    StartMessageUpdateFailed,
    /// An active custom category already has the name.
    CategoryNameTaken,
    CategoryCreateFailed,
    /// The server's settings could not be read.
    LookupFailed,
    /// A setting could not be stored.
    UpdateFailed,
}

/// The text of a settings answer.
pub open spec fn settings_notice_text(n: SettingsNotice) -> Seq<char> {
    match n {
        SettingsNotice::ModalExpired => "The modal interaction has expired. Please try again."@,
        SettingsNotice::StartMessageUpdated => "Start ticket message updated."@,
        SettingsNotice::StartMessageUpdateFailed => "An internal error prevented updating the message."@,
        SettingsNotice::CategoryNameTaken => "An existing category with the same exact name already exists for your server."@,
        SettingsNotice::CategoryCreateFailed => "An internal error occurred creating the new category."@,
        SettingsNotice::LookupFailed => "An internal error occurred handling this command."@,
        SettingsNotice::UpdateFailed => "An internal error caused the update to fail."@,
    }
}

/// The text of a settings answer (see `settings_notice_text`).
pub fn settings_notice(n: SettingsNotice) -> (res: String)
    ensures
        res@ == settings_notice_text(n),
{
    match n {
        SettingsNotice::ModalExpired => owned("The modal interaction has expired. Please try again."),
        SettingsNotice::StartMessageUpdated => owned("Start ticket message updated."),
        SettingsNotice::StartMessageUpdateFailed => owned("An internal error prevented updating the message."),
        SettingsNotice::CategoryNameTaken => owned("An existing category with the same exact name already exists for your server."),
        SettingsNotice::CategoryCreateFailed => owned("An internal error occurred creating the new category."),
        SettingsNotice::LookupFailed => owned("An internal error occurred handling this command."),
        SettingsNotice::UpdateFailed => owned("An internal error caused the update to fail."),
    }
}

} // verus!
