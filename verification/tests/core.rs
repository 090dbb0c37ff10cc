use twilight_model::guild::Permissions;
use twilight_sword::category::{BuiltInCategory, CategorySelectionError, CreateTicketState, CustomCategory, GuildSettings};
use twilight_sword::category::{selectable_categories_for_guild, start_ticket_creation, TicketStart};
use twilight_sword::settings::{
    channel_acceptable, channel_needs_check, channel_refusal_text, channel_setting_reply, stored_channel, ChannelSetting, ChannelSettingReply,
};
use twilight_sword::tickets::FlowNotice;
use twilight_sword::config::{parse_config_text, ConfigError, ConfigProperty, ConfigSectionName};
use twilight_sword::invite::invite_code_from_url;
use twilight_sword::permissions::{bot_channel_permissions, ChannelOverwrite, has_permissions, ticket_channel_missing_permissions_message, ticket_channel_permissions};
use twilight_sword::routing::{
    route_command, route_component, route_create_ticket_component, route_message_modal, route_setup_component,
    split_custom_id, BotCommand, ComponentRoute, CreateTicketAction, RouteError, SetupAction,
};
use twilight_sword::session::SessionStore;
use twilight_sword::setup::{parse_u64, role_from_menu, InvalidRoleId, SetupConfirmation, SetupInstance, SetupRole, SetupState};
use twilight_sword::text::{channel_mention, decimal_string, escape_markdown_asterisks, escape_markdown_backticks, role_mention, user_mention};
use twilight_sword::time::{snowflake_timestamp, timestamp_from_id, DISCORD_EPOCH};

fn guild() -> GuildSettings {
    GuildSettings {
        guild_id: 1,
        admin_role: 2,
        staff_role: 3,
        start_ticket_channel: Some(10),
        start_ticket_message_id: None,
        start_ticket_message: String::from("Open a ticket"),
        ban_appeal_ticket_channel: Some(11),
        ban_appeal_ticket_form: None,
        new_partner_ticket_channel: None,
        new_partner_ticket_form: None,
        existing_partner_ticket_channel: Some(13),
        existing_partner_ticket_form: Some(String::from("form-e")),
        message_reports_channel: Some(14),
        action_reason_complain_channel: None,
    }
}

#[test]
fn category_ids_read_back() {
    for c in BuiltInCategory::all_categories() {
        assert_eq!(BuiltInCategory::from_id(c.as_id()), Some(c));
    }
    assert_eq!(BuiltInCategory::from_id("5"), None);
    assert_eq!(BuiltInCategory::from_id("12"), None);
    assert_eq!(BuiltInCategory::from_id(""), None);
}

#[test]
fn category_list_and_names() {
    assert_eq!(
        BuiltInCategory::all_categories(),
        vec![
            BuiltInCategory::BanAppeal,
            BuiltInCategory::NewPartner,
            BuiltInCategory::ExistingPartner,
            BuiltInCategory::MessageReport
        ]
    );
    assert_eq!(BuiltInCategory::BanAppeal.name(), "Ban Appeal");
    assert_eq!(BuiltInCategory::NewPartner.name(), "New Partner");
    assert_eq!(BuiltInCategory::ExistingPartner.name(), "Existing Partner");
    assert_eq!(BuiltInCategory::MessageReport.name(), "Message Report");
    assert!(BuiltInCategory::BanAppeal.user_can_submit());
    assert!(!BuiltInCategory::MessageReport.user_can_submit());
}

#[test]
fn categories_enabled_by_channel() {
    let g = guild();
    assert!(BuiltInCategory::BanAppeal.is_enabled_for_guild(&g));
    assert!(!BuiltInCategory::NewPartner.is_enabled_for_guild(&g));
    assert!(BuiltInCategory::ExistingPartner.is_enabled_for_guild(&g));
    assert!(BuiltInCategory::MessageReport.is_enabled_for_guild(&g));
}

#[test]
fn selectable_categories_skip_disabled_and_reports() {
    let customs = vec![CustomCategory {
        id: String::from("abc"),
        guild: 1,
        name: String::from("Other"),
        channel: 20,
        form: None,
        active: true,
    }];
    let options = selectable_categories_for_guild(&guild(), &customs);
    assert_eq!(
        options,
        vec![
            (String::from("default/1"), String::from("Ban Appeal")),
            (String::from("default/3"), String::from("Existing Partner")),
            (String::from("abc"), String::from("Other")),
        ]
    );
}

#[test]
fn create_ticket_state_selection() {
    let mut state = CreateTicketState::new("token");
    assert!(!state.has_category());
    assert_eq!(state.select_category("default/2"), Ok(()));
    assert_eq!(state.built_in_category, Some(BuiltInCategory::NewPartner));
    assert_eq!(state.custom_category_id, None);
    assert!(state.has_category());
    assert_eq!(state.select_category("custom-id"), Ok(()));
    assert_eq!(state.built_in_category, None);
    assert_eq!(state.custom_category_id, Some(String::from("custom-id")));
    assert_eq!(state.select_category("default/9"), Err(CategorySelectionError::InvalidBuiltInCategory));
    assert_eq!(state.custom_category_id, Some(String::from("custom-id")));
    assert_eq!(state.initial_message_token, "token");
}

#[test]
fn invite_codes_from_both_url_forms() {
    assert_eq!(invite_code_from_url("https://discord.gg/abcDEF"), Some(String::from("abcDEF")));
    assert_eq!(invite_code_from_url("https://discord.gg/abc/extra?x=1"), Some(String::from("abc")));
    assert_eq!(invite_code_from_url("https://discord.com/invite/xyz?event=1"), Some(String::from("xyz")));
    assert_eq!(invite_code_from_url("https://discord.gg/"), Some(String::new()));
    assert_eq!(invite_code_from_url("http://discord.gg/abc"), None);
    assert_eq!(invite_code_from_url("discord.gg/abc"), None);
}

#[test]
fn session_store_reads_back_writes() {
    let mut store: SessionStore<u64> = SessionStore::new();
    assert_eq!(store.len(), 0);
    let a = store.open(7);
    let b = store.open(8);
    assert_ne!(a, b);
    assert!(a.chars().next().unwrap().is_ascii_lowercase());
    assert!(a.chars().all(|c| c.is_ascii_lowercase() || c.is_ascii_digit()));
    assert_eq!(store.len(), 2);
    assert_eq!(store.get(&a), Some(&7));
    assert_eq!(store.get(&b), Some(&8));
    store.insert(a.clone(), 9);
    assert_eq!(store.len(), 2);
    assert_eq!(store.get(&a), Some(&9));
    assert_eq!(store.remove(&a), Some(9));
    assert!(!store.contains_key(&a));
    assert_eq!(store.remove(&a), None);
    assert_eq!(store.len(), 1);
    assert!(store.contains_key(&b));
}

fn config_text(port: &str) -> String {
    format!(
        "discord {{\n    bot-token \"tok\"\n    client-id \"123\"\n    client-secret \"sec\"\n}}\ndatabase {{\n    host \"localhost\"\n    username \"user\"\n    password \"pw\"\n    database \"db\"\n{}}}\nweb {{\n    bind-addr \"0.0.0.0:8080\"\n    base-url \"https://example.com\"\n}}\n",
        port
    )
}

#[test]
fn config_reads_every_setting() {
    let config = parse_config_text(&config_text("    port 5433\n")).unwrap();
    assert_eq!(config.discord.bot_token, "tok");
    assert_eq!(config.discord.client_id, "123");
    assert_eq!(config.discord.client_secret, "sec");
    assert_eq!(config.database.host, "localhost");
    assert_eq!(config.database.port, Some(5433));
    assert_eq!(config.database.username, "user");
    assert_eq!(config.database.password, "pw");
    assert_eq!(config.database.database, "db");
    assert_eq!(config.web.bind_addr, "0.0.0.0:8080");
    assert_eq!(config.web.base_url, "https://example.com");
}

#[test]
fn config_port_is_optional() {
    let config = parse_config_text(&config_text("")).unwrap();
    assert_eq!(config.database.port, None);
}

#[test]
fn config_errors() {
    assert_eq!(parse_config_text("discord {").unwrap_err(), ConfigError::Syntax);
    assert_eq!(
        parse_config_text(&config_text("    port 70000\n")).unwrap_err(),
        ConfigError::PortOutOfRange
    );
    assert_eq!(
        parse_config_text(&config_text("    port \"5432\"\n")).unwrap_err(),
        ConfigError::WrongType(ConfigProperty::Port)
    );
    assert_eq!(
        parse_config_text("web {\n bind-addr \"a\"\n base-url \"b\"\n}\n").unwrap_err(),
        ConfigError::MissingSection(ConfigSectionName::Discord)
    );
    let no_children = config_text("").replace("web {\n    bind-addr \"0.0.0.0:8080\"\n    base-url \"https://example.com\"\n}\n", "web\n");
    assert_eq!(
        parse_config_text(&no_children).unwrap_err(),
        ConfigError::SectionWithoutChildren(ConfigSectionName::Web)
    );
    let missing = config_text("").replace("    client-id \"123\"\n", "");
    assert_eq!(
        parse_config_text(&missing).unwrap_err(),
        ConfigError::MissingProperty(ConfigProperty::ClientId)
    );
    let no_value = config_text("").replace("host \"localhost\"", "host");
    assert_eq!(
        parse_config_text(&no_value).unwrap_err(),
        ConfigError::MissingValue(ConfigProperty::Host)
    );
    let wrong = config_text("").replace("bot-token \"tok\"", "bot-token 5");
    assert_eq!(
        parse_config_text(&wrong).unwrap_err(),
        ConfigError::WrongType(ConfigProperty::BotToken)
    );
}

#[test]
fn config_ignores_unread_nodes_and_arguments() {
    let plain = parse_config_text(&config_text("    port 5433\n")).unwrap();
    let extra = config_text("    port 5433 6000\n    pool-size 4\n").replace("host \"localhost\"", "host \"localhost\" \"other\"")
        + "logging {\n    level \"debug\"\n}\n";
    let more = parse_config_text(&extra).unwrap();
    assert_eq!(more.discord.bot_token, plain.discord.bot_token);
    assert_eq!(more.discord.client_id, plain.discord.client_id);
    assert_eq!(more.discord.client_secret, plain.discord.client_secret);
    assert_eq!(more.database.host, plain.database.host);
    assert_eq!(more.database.port, plain.database.port);
    assert_eq!(more.database.username, plain.database.username);
    assert_eq!(more.database.password, plain.database.password);
    assert_eq!(more.database.database, plain.database.database);
    assert_eq!(more.web.bind_addr, plain.web.bind_addr);
    assert_eq!(more.web.base_url, plain.web.base_url);
}

#[test]
fn custom_ids_split_into_parts() {
    assert_eq!(split_custom_id("setup/abc/confirm"), vec!["setup", "abc", "confirm"]);
    assert_eq!(split_custom_id("create_ticket//start"), vec!["create_ticket", "", "start"]);
    assert_eq!(split_custom_id("create_ticket"), vec!["create_ticket"]);
    assert_eq!(split_custom_id(""), vec![""]);
    assert_eq!(split_custom_id("a/"), vec!["a", ""]);
}

#[test]
fn components_route_by_id() {
    let p = split_custom_id("create_ticket");
    assert_eq!(route_component("create_ticket", &p), Some(ComponentRoute::CreateTicket));
    let p = split_custom_id("setup/abc/confirm");
    assert_eq!(route_component("setup/abc/confirm", &p), Some(ComponentRoute::Setup));
    let p = split_custom_id("other/abc");
    assert_eq!(route_component("other/abc", &p), None);
}

#[test]
fn create_ticket_components_route() {
    let r = route_create_ticket_component(&split_custom_id("create_ticket//start")).unwrap();
    assert_eq!(r, (String::new(), CreateTicketAction::Start));
    let r = route_create_ticket_component(&split_custom_id("create_ticket/s1/set_category")).unwrap();
    assert_eq!(r, (String::from("s1"), CreateTicketAction::SetCategory));
    let r = route_create_ticket_component(&split_custom_id("create_ticket/s1/confirm_category")).unwrap();
    assert_eq!(r, (String::from("s1"), CreateTicketAction::ConfirmCategory));
    assert_eq!(
        route_create_ticket_component(&split_custom_id("create_ticket/s1/start")),
        Err(RouteError::UnexpectedSession)
    );
    assert_eq!(route_create_ticket_component(&split_custom_id("create_ticket")), Err(RouteError::MissingSession));
    assert_eq!(route_create_ticket_component(&split_custom_id("create_ticket/s1")), Err(RouteError::MissingAction));
    assert_eq!(route_create_ticket_component(&split_custom_id("create_ticket/s1/x")), Err(RouteError::UnknownAction));
}

#[test]
fn message_modals_and_setup_route() {
    assert_eq!(route_message_modal(&split_custom_id("reply/s2/message")), Ok(String::from("s2")));
    assert_eq!(route_message_modal(&split_custom_id("reply/s2/other")), Err(RouteError::UnknownAction));
    assert_eq!(route_message_modal(&split_custom_id("reply")), Err(RouteError::MissingSession));
    assert_eq!(
        route_setup_component(&split_custom_id("setup/x/admin_role")),
        Ok((String::from("x"), SetupAction::AdminRole))
    );
    assert_eq!(
        route_setup_component(&split_custom_id("setup/x/staff_role")),
        Ok((String::from("x"), SetupAction::StaffRole))
    );
    assert_eq!(route_setup_component(&split_custom_id("setup/x/cancel")), Ok((String::from("x"), SetupAction::Cancel)));
    assert_eq!(route_setup_component(&split_custom_id("setup/x")), Err(RouteError::UnknownAction));
    assert_eq!(route_setup_component(&split_custom_id("setup")), Err(RouteError::MissingSession));
}

#[test]
fn commands_route_by_name() {
    assert_eq!(route_command("close"), Some(BotCommand::Close));
    assert_eq!(route_command("reply"), Some(BotCommand::Reply));
    assert_eq!(route_command("no_such_command"), None);
}

#[test]
fn numbers_parse_like_from_str() {
    assert_eq!(parse_u64("0"), Some(0));
    assert_eq!(parse_u64("+42"), Some(42));
    assert_eq!(parse_u64("18446744073709551615"), Some(u64::MAX));
    assert_eq!(parse_u64("18446744073709551616"), None);
    assert_eq!(parse_u64(""), None);
    assert_eq!(parse_u64("+"), None);
    assert_eq!(parse_u64("-1"), None);
    assert_eq!(parse_u64("12a"), None);
    for n in [0u64, 7, 10, 1234567890, u64::MAX] {
        assert_eq!(parse_u64(&decimal_string(n)), Some(n));
        assert_eq!(decimal_string(n), n.to_string());
    }
}

#[test]
fn role_menu_values() {
    assert_eq!(role_from_menu(&vec![]), Ok(None));
    assert_eq!(role_from_menu(&vec![String::from("123"), String::from("x")]), Ok(Some(123)));
    assert_eq!(role_from_menu(&vec![String::from("x")]), Err(InvalidRoleId));
}

#[test]
fn setup_confirms_once_both_roles_are_chosen() {
    let mut setup = SetupState::new();
    let id = String::from("s1");
    assert!(matches!(setup.confirm(&id), SetupConfirmation::NoSession));
    assert_eq!(setup.choose_role(&id, SetupRole::Admin, Some(5)), None);
    setup.states.insert(id.clone(), SetupInstance::new(77, String::from("tok")));
    assert!(SetupInstance::new(77, String::from("tok")).confirm_disabled());
    assert!(matches!(setup.confirm(&id), SetupConfirmation::MissingRoles));
    assert_eq!(setup.choose_role(&id, SetupRole::Admin, Some(5)), Some(true));
    assert!(matches!(setup.confirm(&id), SetupConfirmation::MissingRoles));
    assert_eq!(setup.choose_role(&id, SetupRole::Staff, Some(6)), Some(false));
    match setup.confirm(&id) {
        SetupConfirmation::Ready { guild, admin_role, staff_role } => {
            assert_eq!((guild, admin_role, staff_role), (77, 5, 6));
        }
        _ => panic!("setup should be ready"),
    }
    assert_eq!(setup.choose_role(&id, SetupRole::Admin, None), Some(true));
}

#[test]
fn mentions_and_escapes() {
    assert_eq!(user_mention(42), "<@42>");
    assert_eq!(channel_mention(7), "<#7>");
    assert_eq!(role_mention(9), "<@&9>");
    assert_eq!(escape_markdown_asterisks("a*b**"), "a\\*b\\*\\*");
    assert_eq!(escape_markdown_backticks("`x`"), "\\`x\\`");
}

#[test]
fn ticket_permissions_match_discord_bits() {
    let expected = Permissions::VIEW_CHANNEL
        | Permissions::READ_MESSAGE_HISTORY
        | Permissions::SEND_MESSAGES
        | Permissions::SEND_MESSAGES_IN_THREADS
        | Permissions::CREATE_PUBLIC_THREADS
        | Permissions::MANAGE_THREADS;
    assert_eq!(ticket_channel_permissions(), expected.bits());
    assert!(has_permissions(u64::MAX, ticket_channel_permissions()));
    assert!(!has_permissions(Permissions::VIEW_CHANNEL.bits(), ticket_channel_permissions()));
    assert!(has_permissions(0, 0));
}

#[test]
fn missing_permissions_message_names_the_channel() {
    let m = ticket_channel_missing_permissions_message("<#5>");
    assert_eq!(
        m,
        "The channel <#5> does not have the necessary permissions (View Channel, Read Message History, Send Messages, Send Messages in Threads, Create Public Threads, Manage Threads) in the ticket channel to create, update, and manage tickets."
    );
    let named = [
        ("View Channel", Permissions::VIEW_CHANNEL),
        ("Read Message History", Permissions::READ_MESSAGE_HISTORY),
        ("Send Messages", Permissions::SEND_MESSAGES),
        ("Send Messages in Threads", Permissions::SEND_MESSAGES_IN_THREADS),
        ("Create Public Threads", Permissions::CREATE_PUBLIC_THREADS),
        ("Manage Threads", Permissions::MANAGE_THREADS),
    ];
    let mut bits = 0u64;
    for (name, permission) in named {
        assert!(m.contains(name));
        bits |= permission.bits();
    }
    assert_eq!(bits, ticket_channel_permissions());
}

#[test]
fn snowflake_times() {
    assert_eq!(snowflake_timestamp(0), DISCORD_EPOCH as i64);
    assert_eq!(snowflake_timestamp(4194304), DISCORD_EPOCH as i64 + 1);
    // An ID created at 2016-04-30 11:18:25.796 UTC.
    assert_eq!(snowflake_timestamp(175928847299117063), 1462015105796);
    let t = timestamp_from_id(175928847299117063).unwrap();
    assert_eq!(t.as_micros(), 1462015105796000);
    assert!(timestamp_from_id(u64::MAX).is_ok());
}

#[test]
fn bot_permissions_in_channels() {
    let view_send = (Permissions::VIEW_CHANNEL | Permissions::SEND_MESSAGES).bits();
    let roles = vec![(100, view_send), (7, Permissions::ADMINISTRATOR.bits())];
    // Unreadable channel: no permissions.
    assert_eq!(bot_channel_permissions(100, 5, &roles, &vec![], &None), 0);
    // An administrator role grants everything.
    assert_eq!(bot_channel_permissions(100, 5, &roles, &vec![7], &Some((0, vec![]))), Permissions::all().bits());
    // Only @everyone's permissions, in a text channel (type 0).
    assert_eq!(bot_channel_permissions(100, 5, &roles, &vec![], &Some((0, vec![]))), view_send);
    // An overwrite on @everyone that denies sending.
    let deny_send = ChannelOverwrite { id: 100, kind: 0, allow: 0, deny: Permissions::SEND_MESSAGES.bits() };
    assert_eq!(
        bot_channel_permissions(100, 5, &roles, &vec![], &Some((0, vec![deny_send]))),
        Permissions::VIEW_CHANNEL.bits()
    );
}

#[test]
fn ticket_creation_starts_in_order() {
    assert!(matches!(start_ticket_creation(true, &Some(guild()), &vec![]), TicketStart::Notice(FlowNotice::Restricted)));
    assert!(matches!(start_ticket_creation(false, &None, &vec![]), TicketStart::Notice(FlowNotice::ServerNotSetUp)));
    let mut closed = guild();
    closed.ban_appeal_ticket_channel = None;
    closed.existing_partner_ticket_channel = None;
    assert!(matches!(start_ticket_creation(false, &Some(closed), &vec![]), TicketStart::Notice(FlowNotice::NoCategories)));
    match start_ticket_creation(false, &Some(guild()), &vec![]) {
        TicketStart::Offer(options) => assert_eq!(options.len(), 2),
        _ => panic!("expected categories to be offered"),
    }
}

#[test]
fn channel_settings_checks() {
    assert!(channel_needs_check(ChannelSetting::ActionReasonComplain));
    assert!(channel_needs_check(ChannelSetting::ExistingPartnerTicket));
    assert!(!channel_needs_check(ChannelSetting::StartTicket));
    assert!(!channel_needs_check(ChannelSetting::NewPartnerTicket));
    assert!(channel_acceptable(ChannelSetting::ActionReasonComplain, Permissions::SEND_MESSAGES.bits()));
    assert!(!channel_acceptable(ChannelSetting::ExistingPartnerTicket, Permissions::SEND_MESSAGES.bits()));
    assert_eq!(
        channel_refusal_text(ChannelSetting::ActionReasonComplain, 5),
        "The channel <#5> doesn't have the necessary permissions (Send Messages) for me to post to it."
    );
    assert!(channel_refusal_text(ChannelSetting::ExistingPartnerTicket, 5).starts_with("The channel <#5> does not have"));
}

#[test]
fn message_reports_channel_setting() {
    assert!(channel_needs_check(ChannelSetting::MessageReports));
    assert!(channel_acceptable(ChannelSetting::MessageReports, ticket_channel_permissions()));
    assert!(!channel_acceptable(ChannelSetting::MessageReports, Permissions::SEND_MESSAGES.bits()));
    assert!(channel_refusal_text(ChannelSetting::MessageReports, 5).starts_with("The channel <#5> does not have"));
    assert_eq!(stored_channel(&guild(), ChannelSetting::MessageReports), Some(14));
    assert_eq!(stored_channel(&guild(), ChannelSetting::NewPartnerTicket), None);
    assert_eq!(stored_channel(&guild(), ChannelSetting::ExistingPartnerTicket), Some(13));
    assert_eq!(
        channel_setting_reply(ChannelSetting::MessageReports, ChannelSettingReply::Updated(7)),
        "Updated the message reports channel to <#7>."
    );
}
