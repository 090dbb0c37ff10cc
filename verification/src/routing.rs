//! Routing of incoming interactions: custom IDs are paths of `/`-separated parts that
//! name the flow, the session and the action.
use vstd::prelude::*;
use crate::text::{chars_of, cut_at, cut_chars_at, lemma_cut_at_prefix, string_of};

verus! {

/// The parts of `s` between the occurrences of `c` (`str::split`): one more part than
/// there are separators, empty parts included.
pub open spec fn split_on(s: Seq<char>, c: char) -> Seq<Seq<char>>
    decreases s.len(),
{
    let head = cut_at(s, c);
    if head.len() >= s.len() {
        seq![s]
    } else {
        seq![head] + split_on(s.skip((head.len() + 1) as int), c)
    }
}

proof fn lemma_cut_at_len(s: Seq<char>, c: char)
    ensures
        cut_at(s, c).len() <= s.len(),
        cut_at(s, c).len() < s.len() ==> s[cut_at(s, c).len() as int] == c,
        forall|j: int| 0 <= j < cut_at(s, c).len() ==> s[j] != c && cut_at(s, c)[j] == s[j],
    decreases s.len(),
{
    if s.len() > 0 && s[0] != c {
        lemma_cut_at_len(s.drop_first(), c);
        let t = cut_at(s.drop_first(), c);
        assert(cut_at(s, c) == seq![s[0]] + t);
        assert forall|j: int| 0 <= j < cut_at(s, c).len() implies s[j] != c && cut_at(s, c)[j] == s[j] by {
            if j > 0 {
                assert(s.drop_first()[j - 1] == s[j]);
            }
        }
    }
}

/// Whether `c` occurs nowhere in `s`.
pub open spec fn free_of(s: Seq<char>, c: char) -> bool {
    forall|i: int| 0 <= i < s.len() ==> s[i] != c
}

proof fn lemma_split_on_free(s: Seq<char>, c: char)
    requires
        free_of(s, c),
    ensures
        split_on(s, c) == seq![s],
{
    lemma_cut_at_prefix(s, c, s.len() as int);
    assert(s.take(s.len() as int) =~= s);
}

proof fn lemma_split_on_first(a: Seq<char>, c: char, rest: Seq<char>)
    requires
        free_of(a, c),
    ensures
        split_on(a + seq![c] + rest, c) == seq![a] + split_on(rest, c),
{
    let s = a + seq![c] + rest;
    lemma_cut_at_prefix(s, c, a.len() as int);
    assert(s.take(a.len() as int) =~= a);
    assert(s.skip((a.len() + 1) as int) =~= rest);
}

/// A custom ID made of three parts joined by `/`, none of which holds a `/`, splits back
/// into those three parts.
pub proof fn custom_id_splits_back(flow: Seq<char>, session: Seq<char>, action: Seq<char>)
    requires
        free_of(flow, '/'),
        free_of(session, '/'),
        free_of(action, '/'),
    ensures
        split_on(flow + seq!['/'] + session + seq!['/'] + action, '/') == seq![flow, session, action],
{
    lemma_split_on_free(action, '/');
    lemma_split_on_first(session, '/', action);
    assert(flow + seq!['/'] + session + seq!['/'] + action =~= flow + seq!['/'] + (session + seq!['/'] + action));
    lemma_split_on_first(flow, '/', session + seq!['/'] + action);
    assert(seq![flow] + (seq![session] + seq![action]) =~= seq![flow, session, action]);
}

/// A session ID holds no `/`, so it can stand as one part of a custom ID.
pub proof fn session_id_is_one_part(session: Seq<char>)
    requires
        crate::session::is_session_id(session),
    ensures
        free_of(session, '/'),
{
}

/// Splits a custom ID into its parts (see `split_on`).
pub fn split_custom_id(custom_id: &str) -> (res: Vec<String>)
    ensures
        res@.map_values(|p: String| p@) == split_on(custom_id@, '/'),
{
    let all = chars_of(custom_id);
    let mut rest = all;
    let mut parts: Vec<String> = Vec::new();
    loop
        invariant
            parts@.map_values(|p: String| p@) + split_on(rest@, '/') == split_on(custom_id@, '/'),
        decreases rest@.len(),
    {
        let head = cut_chars_at(&rest, '/');
        proof {
            lemma_cut_at_len(rest@, '/');
        }
        let ghost prev = parts@;
        if head.len() >= rest.len() {
            parts.push(string_of(rest.as_slice()));
            proof {
                assert(parts@.map_values(|p: String| p@) =~= prev.map_values(|p: String| p@).push(rest@));
                assert(split_on(rest@, '/') == seq![rest@]);
                assert(prev.map_values(|p: String| p@) + seq![rest@] =~= prev.map_values(|p: String| p@).push(rest@));
            }
            return parts;
        }
        let next = crate::text::suffix_from(&rest, head.len() + 1);
        parts.push(string_of(head.as_slice()));
        proof {
            assert(parts@.map_values(|p: String| p@) =~= prev.map_values(|p: String| p@).push(head@));
            assert(split_on(rest@, '/') == seq![head@] + split_on(next@, '/'));
            assert(prev.map_values(|p: String| p@) + (seq![head@] + split_on(next@, '/')) =~=
                prev.map_values(|p: String| p@).push(head@) + split_on(next@, '/'));
        }
        rest = next;
    }
}

/// Where a component interaction goes.
#[derive(Clone, Copy, Debug, PartialEq, Eq, Structural)]
pub enum ComponentRoute {
    /// The "Create Ticket" button of the start ticket message.
    CreateTicket,
    /// A component of the setup form.
    Setup,
}

/// Where a component interaction with custom ID `custom_id` (split into `path`) goes:
/// the create ticket button by its whole ID, setup components by their first part;
/// other IDs are not handled.
pub fn route_component(custom_id: &str, path: &Vec<String>) -> (res: Option<ComponentRoute>)
    ensures
        custom_id@ == "create_ticket"@ ==> res == Some(ComponentRoute::CreateTicket),
        custom_id@ != "create_ticket"@ ==> res == if path@.len() > 0 && path@[0]@ == "setup"@ {
            Some(ComponentRoute::Setup)
        } else {
            None
        },
{
    let create = String::from_str("create_ticket");
    let id = String::from_str(custom_id);
    if id == create {
        return Some(ComponentRoute::CreateTicket);
    }
    let setup = String::from_str("setup");
    if path.len() > 0 && path[0] == setup {
        Some(ComponentRoute::Setup)
    } else {
        None
    }
}

/// Whether the first part of `path` is `name`.
pub fn first_part_is(path: &Vec<String>, name: &str) -> (res: bool)
    ensures
        res == (path@.len() > 0 && path@[0]@ == name@),
{
    let n = String::from_str(name);
    path.len() > 0 && path[0] == n
}

/// The actions of the ticket creation flow's components.
#[derive(Clone, Copy, Debug, PartialEq, Eq, Structural)]
pub enum CreateTicketAction {
    ConfirmCategory,
    SetCategory,
    Start,
}

/// Why a custom ID could not be routed.
#[derive(Clone, Copy, Debug, PartialEq, Eq, Structural)]
pub enum RouteError {
    MissingSession,
    MissingAction,
    UnknownAction,
    /// The start action carries a session ID, which it must not.
    UnexpectedSession,
}

/// Routes a component of the ticket creation flow (`create_ticket/{session}/{action}`):
/// the session part and an action part must be present, the action must be known, and
/// the start action must come with an empty session part.
pub fn route_create_ticket_component(path: &Vec<String>) -> (res: Result<(String, CreateTicketAction), RouteError>)
    ensures
        path@.len() < 2 ==> res == Err::<(String, CreateTicketAction), RouteError>(RouteError::MissingSession),
        path@.len() == 2 ==> res == Err::<(String, CreateTicketAction), RouteError>(RouteError::MissingAction),
        path@.len() > 2 ==> {
            let action = path@[2]@;
            let session = path@[1]@;
            &&& action == "confirm_category"@ ==> (res matches Ok((s, a)) && s@ == session && a == CreateTicketAction::ConfirmCategory)
            &&& action == "set_category"@ ==> (res matches Ok((s, a)) && s@ == session && a == CreateTicketAction::SetCategory)
            &&& action == "start"@ ==> if session.len() == 0 {
                res matches Ok((s, a)) && s@ == session && a == CreateTicketAction::Start
            } else {
                res == Err::<(String, CreateTicketAction), RouteError>(RouteError::UnexpectedSession)
            }
            &&& (action != "confirm_category"@ && action != "set_category"@ && action != "start"@) ==> res == Err::<(String, CreateTicketAction), RouteError>(RouteError::UnknownAction)
        },
{
    if path.len() < 2 {
        return Err(RouteError::MissingSession);
    }
    if path.len() < 3 {
        return Err(RouteError::MissingAction);
    }
    let session = path[1].clone();
    let action = &path[2];
    proof {
        reveal_strlit("confirm_category");
        reveal_strlit("set_category");
        reveal_strlit("start");
        assert("confirm_category"@.len() == 16);
        assert("set_category"@.len() == 12);
        assert("start"@.len() == 5);
    }
    if *action == String::from_str("confirm_category") {
        Ok((session, CreateTicketAction::ConfirmCategory))
    } else if *action == String::from_str("set_category") {
        Ok((session, CreateTicketAction::SetCategory))
    } else if *action == String::from_str("start") {
        if session.as_str().unicode_len() == 0 {
            Ok((session, CreateTicketAction::Start))
        } else {
            Err(RouteError::UnexpectedSession)
        }
    } else {
        Err(RouteError::UnknownAction)
    }
}

/// Routes a modal of a flow whose only modal action is `message`
/// (`{flow}/{session}/message`), handing back the session.
pub fn route_message_modal(path: &Vec<String>) -> (res: Result<String, RouteError>)
    ensures
        path@.len() < 2 ==> res == Err::<String, RouteError>(RouteError::MissingSession),
        path@.len() == 2 ==> res == Err::<String, RouteError>(RouteError::MissingAction),
        path@.len() > 2 ==> if path@[2]@ == "message"@ {
            res matches Ok(s) && s@ == path@[1]@
        } else {
            res == Err::<String, RouteError>(RouteError::UnknownAction)
        },
{
    if path.len() < 2 {
        return Err(RouteError::MissingSession);
    }
    if path.len() < 3 {
        return Err(RouteError::MissingAction);
    }
    if path[2] == String::from_str("message") {
        Ok(path[1].clone())
    } else {
        Err(RouteError::UnknownAction)
    }
}

/// The actions of the setup form's components.
#[derive(Clone, Copy, Debug, PartialEq, Eq, Structural)]
pub enum SetupAction {
    AdminRole,
    StaffRole,
    Confirm,
    Cancel,
}

/// Routes a component of the setup form (`setup/{session}/{action}`).
pub fn route_setup_component(path: &Vec<String>) -> (res: Result<(String, SetupAction), RouteError>)
    ensures
        path@.len() < 2 ==> res == Err::<(String, SetupAction), RouteError>(RouteError::MissingSession),
        path@.len() >= 2 ==> {
            let a = if path@.len() > 2 { Some(path@[2]@) } else { None };
            let expected = if a == Some("admin_role"@) {
                Some(SetupAction::AdminRole)
            } else if a == Some("staff_role"@) {
                Some(SetupAction::StaffRole)
            } else if a == Some("confirm"@) {
                Some(SetupAction::Confirm)
            } else if a == Some("cancel"@) {
                Some(SetupAction::Cancel)
            } else {
                None
            };
            match expected {
                Some(action) => res matches Ok((s, x)) && s@ == path@[1]@ && x == action,
                None => res == Err::<(String, SetupAction), RouteError>(RouteError::UnknownAction),
            }
        },
{
    if path.len() < 2 {
        return Err(RouteError::MissingSession);
    }
    if path.len() < 3 {
        return Err(RouteError::UnknownAction);
    }
    let session = path[1].clone();
    let action = &path[2];
    proof {
        reveal_strlit("admin_role");
        reveal_strlit("staff_role");
        reveal_strlit("confirm");
        reveal_strlit("cancel");
    }
    if *action == String::from_str("admin_role") {
        Ok((session, SetupAction::AdminRole))
    } else if *action == String::from_str("staff_role") {
        Ok((session, SetupAction::StaffRole))
    } else if *action == String::from_str("confirm") {
        Ok((session, SetupAction::Confirm))
    } else if *action == String::from_str("cancel") {
        Ok((session, SetupAction::Cancel))
    } else {
        Err(RouteError::UnknownAction)
    }
}

/// The bot's slash commands.
#[derive(Clone, Copy, Debug, PartialEq, Eq, Structural)]
pub enum BotCommand {
    Close,
    ListRestrictedUsers,
    Reply,
    RestrictTicketUser,
    Setup,
    Settings,
    UnrestrictTicketUser,
}

/// The name under which a command is registered.
pub open spec fn command_name(c: BotCommand) -> Seq<char> {
    match c {
        BotCommand::Close => "close"@,
        BotCommand::ListRestrictedUsers => "list_restricted_users"@,
        BotCommand::Reply => "reply"@,
        BotCommand::RestrictTicketUser => "restrict_ticket_user"@,
        BotCommand::Setup => "setup"@,
        BotCommand::Settings => "settings"@,
        BotCommand::UnrestrictTicketUser => "unrestrict_ticket_user"@,
    }
}

/// Each command is registered under its own name (`close`, `list_restricted_users`,
/// `reply`, `restrict_ticket_user`, `setup`, `settings`, `unrestrict_ticket_user`), and
/// no two commands share a name.
pub proof fn commands_have_distinct_registered_names(a: BotCommand, b: BotCommand)
    ensures
        command_name(BotCommand::Close) == "close"@,
        command_name(BotCommand::ListRestrictedUsers) == "list_restricted_users"@,
        command_name(BotCommand::Reply) == "reply"@,
        command_name(BotCommand::RestrictTicketUser) == "restrict_ticket_user"@,
        command_name(BotCommand::Setup) == "setup"@,
        command_name(BotCommand::Settings) == "settings"@,
        command_name(BotCommand::UnrestrictTicketUser) == "unrestrict_ticket_user"@,
        command_name(a) == command_name(b) ==> a == b,
{
    reveal_strlit("close");
    reveal_strlit("list_restricted_users");
    reveal_strlit("reply");
    reveal_strlit("restrict_ticket_user");
    reveal_strlit("setup");
    reveal_strlit("settings");
    reveal_strlit("unrestrict_ticket_user");
    if command_name(a) == command_name(b) {
        assert(command_name(a).len() == command_name(b).len());
        assert(command_name(a)[0] == command_name(b)[0]);
    }
}

fn command_name_str(c: BotCommand) -> (res: &'static str)
    ensures
        res@ == command_name(c),
{
    match c {
        BotCommand::Close => "close",
        BotCommand::ListRestrictedUsers => "list_restricted_users",
        BotCommand::Reply => "reply",
        BotCommand::RestrictTicketUser => "restrict_ticket_user",
        BotCommand::Setup => "setup",
        BotCommand::Settings => "settings",
        BotCommand::UnrestrictTicketUser => "unrestrict_ticket_user",
    }
}

/// Every command, in registration order.
pub open spec fn all_commands() -> Seq<BotCommand> {
    seq![
        BotCommand::Close,
        BotCommand::ListRestrictedUsers,
        BotCommand::Reply,
        BotCommand::RestrictTicketUser,
        BotCommand::Setup,
        BotCommand::Settings,
        BotCommand::UnrestrictTicketUser,
    ]
}

/// The commands in registration order.
pub fn command_list() -> (res: Vec<BotCommand>)
    ensures
        res@ == all_commands(),
{
    let v = vec![
        BotCommand::Close,
        BotCommand::ListRestrictedUsers,
        BotCommand::Reply,
        BotCommand::RestrictTicketUser,
        BotCommand::Setup,
        BotCommand::Settings,
        BotCommand::UnrestrictTicketUser,
    ];
    assert(v@ =~= all_commands());
    v
}

/// The command named `name`, if the bot has one.
pub fn route_command(name: &str) -> (res: Option<BotCommand>)
    ensures
        res matches Some(c) ==> command_name(c) == name@,
        res is None ==> forall|c: BotCommand| command_name(c) != name@,
        forall|c: BotCommand| #[trigger] command_name(c) == name@ ==> res == Some(c),
{
    proof {
        assert forall|c: BotCommand, d: BotCommand| #[trigger] command_name(c) == #[trigger] command_name(d) implies c == d by {
            commands_have_distinct_registered_names(c, d);
        }
    }
    let commands = command_list();
    let target = String::from_str(name);
    let mut i: usize = 0;
    while i < commands.len()
        invariant
            i <= commands.len(),
            commands@ == all_commands(),
            target@ == name@,
            forall|j: int| 0 <= j < i ==> command_name(#[trigger] commands@[j]) != name@,
            forall|c: BotCommand, d: BotCommand| #[trigger] command_name(c) == #[trigger] command_name(d) ==> c == d,
        decreases commands.len() - i,
    {
        let c = commands[i];
        if String::from_str(command_name_str(c)) == target {
            return Some(c);
        }
        i = i + 1;
    }
    proof {
        assert forall|c: BotCommand| command_name(c) != name@ by {
            let j = match c {
                BotCommand::Close => 0int,
                BotCommand::ListRestrictedUsers => 1,
                BotCommand::Reply => 2,
                BotCommand::RestrictTicketUser => 3,
                BotCommand::Setup => 4,
                BotCommand::Settings => 5,
                BotCommand::UnrestrictTicketUser => 6,
            };
            assert(commands@[j] == c);
        }
    }
    None
}

/// The subcommand groups of `/settings`.
#[derive(Clone, Copy, Debug, PartialEq, Eq, Structural)]
pub enum SettingsGroup {
    ActionReasonComplainChannel,
    AdminRole,
    BanAppealTicket,
    CustomCategories,
    ExistingPartnerTicket,
    MessageReportsChannel,
    NewPartnerTicket,
    StaffRole,
    StartTicketChannel,
    StartTicketMessage,
}

/// The name under which a settings group is registered.
pub open spec fn settings_group_name(g: SettingsGroup) -> Seq<char> {
    match g {
        SettingsGroup::ActionReasonComplainChannel => "action_reason_complain_channel"@,
        SettingsGroup::AdminRole => "admin_role"@,
        SettingsGroup::BanAppealTicket => "ban_appeal_ticket"@,
        SettingsGroup::CustomCategories => "custom_categories"@,
        SettingsGroup::ExistingPartnerTicket => "existing_partner_ticket"@,
        SettingsGroup::MessageReportsChannel => "message_reports_channel"@,
        SettingsGroup::NewPartnerTicket => "new_partner_ticket"@,
        SettingsGroup::StaffRole => "staff_role"@,
        SettingsGroup::StartTicketChannel => "start_ticket_channel"@,
        SettingsGroup::StartTicketMessage => "start_ticket_message"@,
    }
}

/// Each settings group is registered under its own name (`action_reason_complain_channel`, `admin_role`, `ban_appeal_ticket`, `custom_categories`, `existing_partner_ticket`, `message_reports_channel`, `new_partner_ticket`, `staff_role`, `start_ticket_channel`, `start_ticket_message`),
/// and no two groups share a name.
pub proof fn settings_groups_have_distinct_registered_names(a: SettingsGroup, b: SettingsGroup)
    ensures
        settings_group_name(SettingsGroup::ActionReasonComplainChannel) == "action_reason_complain_channel"@,
        settings_group_name(SettingsGroup::AdminRole) == "admin_role"@,
        settings_group_name(SettingsGroup::BanAppealTicket) == "ban_appeal_ticket"@,
        settings_group_name(SettingsGroup::CustomCategories) == "custom_categories"@,
        settings_group_name(SettingsGroup::ExistingPartnerTicket) == "existing_partner_ticket"@,
        settings_group_name(SettingsGroup::MessageReportsChannel) == "message_reports_channel"@,
        settings_group_name(SettingsGroup::NewPartnerTicket) == "new_partner_ticket"@,
        settings_group_name(SettingsGroup::StaffRole) == "staff_role"@,
        settings_group_name(SettingsGroup::StartTicketChannel) == "start_ticket_channel"@,
        settings_group_name(SettingsGroup::StartTicketMessage) == "start_ticket_message"@,
        settings_group_name(a) == settings_group_name(b) ==> a == b,
{
    reveal_strlit("action_reason_complain_channel");
    reveal_strlit("admin_role");
    reveal_strlit("ban_appeal_ticket");
    reveal_strlit("custom_categories");
    reveal_strlit("existing_partner_ticket");
    reveal_strlit("message_reports_channel");
    reveal_strlit("new_partner_ticket");
    reveal_strlit("staff_role");
    reveal_strlit("start_ticket_channel");
    reveal_strlit("start_ticket_message");
    if settings_group_name(a) == settings_group_name(b) {
        assert(settings_group_name(a).len() == settings_group_name(b).len());
        assert(settings_group_name(a)[0] == settings_group_name(b)[0]);
        assert(settings_group_name(a)[13] == settings_group_name(b)[13]);
    }
}

fn settings_group_name_str(g: SettingsGroup) -> (res: &'static str)
    ensures
        res@ == settings_group_name(g),
{
    match g {
        SettingsGroup::ActionReasonComplainChannel => "action_reason_complain_channel",
        SettingsGroup::AdminRole => "admin_role",
        SettingsGroup::BanAppealTicket => "ban_appeal_ticket",
        SettingsGroup::CustomCategories => "custom_categories",
        SettingsGroup::ExistingPartnerTicket => "existing_partner_ticket",
        SettingsGroup::MessageReportsChannel => "message_reports_channel",
        SettingsGroup::NewPartnerTicket => "new_partner_ticket",
        SettingsGroup::StaffRole => "staff_role",
        SettingsGroup::StartTicketChannel => "start_ticket_channel",
        SettingsGroup::StartTicketMessage => "start_ticket_message",
    }
}

/// Every settings group, in registration order.
pub open spec fn all_settings_groups() -> Seq<SettingsGroup> {
    seq![
        SettingsGroup::ActionReasonComplainChannel,
        SettingsGroup::AdminRole,
        SettingsGroup::BanAppealTicket,
        SettingsGroup::CustomCategories,
        SettingsGroup::ExistingPartnerTicket,
        SettingsGroup::MessageReportsChannel,
        SettingsGroup::NewPartnerTicket,
        SettingsGroup::StaffRole,
        SettingsGroup::StartTicketChannel,
        SettingsGroup::StartTicketMessage,
    ]
}

/// The settings group named `name`, if there is one.
pub fn route_settings_group(name: &str) -> (res: Option<SettingsGroup>)
    ensures
        res matches Some(g) ==> settings_group_name(g) == name@,
        res is None ==> forall|g: SettingsGroup| settings_group_name(g) != name@,
        forall|g: SettingsGroup| #[trigger] settings_group_name(g) == name@ ==> res == Some(g),
{
    proof {
        assert forall|g: SettingsGroup, h: SettingsGroup| #[trigger] settings_group_name(g) == #[trigger] settings_group_name(h) implies g == h by {
            settings_groups_have_distinct_registered_names(g, h);
        }
    }
    let groups = vec![
        SettingsGroup::ActionReasonComplainChannel,
        SettingsGroup::AdminRole,
        SettingsGroup::BanAppealTicket,
        SettingsGroup::CustomCategories,
        SettingsGroup::ExistingPartnerTicket,
        SettingsGroup::MessageReportsChannel,
        SettingsGroup::NewPartnerTicket,
        SettingsGroup::StaffRole,
        SettingsGroup::StartTicketChannel,
        SettingsGroup::StartTicketMessage,
    ];
    assert(groups@ =~= all_settings_groups());
    let target = String::from_str(name);
    let mut i: usize = 0;
    while i < groups.len()
        invariant
            i <= groups.len(),
            groups@ == all_settings_groups(),
            target@ == name@,
            forall|j: int| 0 <= j < i ==> settings_group_name(#[trigger] groups@[j]) != name@,
            forall|g: SettingsGroup, h: SettingsGroup| #[trigger] settings_group_name(g) == #[trigger] settings_group_name(h) ==> g == h,
        decreases groups.len() - i,
    {
        let g = groups[i];
        if String::from_str(settings_group_name_str(g)) == target {
            return Some(g);
        }
        i = i + 1;
    }
    proof {
        assert forall|g: SettingsGroup| settings_group_name(g) != name@ by {
            let j = match g {
                SettingsGroup::ActionReasonComplainChannel => 0int,
                SettingsGroup::AdminRole => 1,
                SettingsGroup::BanAppealTicket => 2,
                SettingsGroup::CustomCategories => 3,
                SettingsGroup::ExistingPartnerTicket => 4,
                SettingsGroup::MessageReportsChannel => 5,
                SettingsGroup::NewPartnerTicket => 6,
                SettingsGroup::StaffRole => 7,
                SettingsGroup::StartTicketChannel => 8,
                SettingsGroup::StartTicketMessage => 9,
            };
            assert(groups@[j] == g);
        }
    }
    None
}

} // verus!
