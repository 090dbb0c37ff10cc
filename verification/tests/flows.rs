use twilight_sword::components::form_choice_components;
use twilight_sword::forms::{ban_appeal_form_text, new_partner_form_unset_text, FormUnset};
use twilight_sword::routing::{route_settings_group, SettingsGroup};
use twilight_sword::reply::{plan_reply, ReplyAction, ReplyState};
use twilight_model::util::datetime::Timestamp;
use twilight_sword::category::{BuiltInCategory, CreateTicketState, CustomCategory, GuildSettings};
use twilight_sword::components::{
    category_select_components, custom_category_list_component, last_page, paged_select_options, set_up_components, ticket_modal, Component,
};
use twilight_sword::forms::{read_menu_value, submit_form_choice, CustomCategoryFormAssociationData, FormSubmission, MenuValue};
use twilight_sword::moderation::{complaint_for, read_automod_entry, read_moderation_entry, AuditEntry, AuditEntryProblem, ModerationAction};
use twilight_sword::relay::{is_internal_note, message_side, plan_relay, RelayDecision};
use twilight_sword::settings::{category_creation, restricted_users_text, start_message_action, CategoryCreation, StartMessageAction};
use twilight_sword::submission::{after_custom_category, after_guild, after_invite, after_posting, after_session, begin_submission, SubmissionAction, SubmissionDraft};
use twilight_sword::tickets::{
    check_partner_invite, check_ticket_fields, compose_ticket_message, read_ticket_modal, staff_message,
    submission_problem_text, try_again_text, user_message, InviteLookup, ModalField, QuestionAnswer,
    TicketSubmissionProblem, UserMessageAuthor,
};
use twilight_sword::users::{member_user_data, user_user_data};

fn now() -> Timestamp {
    Timestamp::from_secs(1_700_000_000).unwrap()
}

fn qa(question: &str, position: i32, answer: &str) -> QuestionAnswer {
    QuestionAnswer { question: question.to_string(), position, answer: answer.to_string() }
}

fn guild(start: Option<u64>, partner: Option<u64>) -> GuildSettings {
    GuildSettings {
        guild_id: 1,
        admin_role: 2,
        staff_role: 3,
        start_ticket_channel: start,
        start_ticket_message_id: None,
        start_ticket_message: String::new(),
        ban_appeal_ticket_channel: None,
        ban_appeal_ticket_form: None,
        new_partner_ticket_channel: partner,
        new_partner_ticket_form: None,
        existing_partner_ticket_channel: None,
        existing_partner_ticket_form: None,
        message_reports_channel: None,
        action_reason_complain_channel: None,
    }
}

fn field(id: &str, value: Option<&str>) -> ModalField {
    ModalField { custom_id: id.to_string(), value: value.map(|v| v.to_string()) }
}

#[test]
fn embeds_within_limits_only() {
    let data = staff_message("alice", "hello", now()).unwrap();
    assert!(data.content.is_none());
    assert_eq!(data.embeds.len(), 1);
    assert_eq!(data.embeds[0].author_name, "alice");
    assert_eq!(data.embeds[0].description, "hello");
    assert!(data.allowed_mention_users.is_empty());
    assert!(staff_message("alice", &"x".repeat(4096), now()).is_ok());
    assert!(staff_message("alice", &"x".repeat(4097), now()).is_err());
    assert!(staff_message(&"n".repeat(257), "hi", now()).is_err());
    // 2000 three-byte characters: within 4096 characters but over 6000 bytes in all.
    assert!(staff_message("a", &"\u{20ac}".repeat(2000), now()).is_err());
}

#[test]
fn user_side_messages_ping_when_asked() {
    let data = user_message(UserMessageAuthor::Staff, 42, true, "hi", now()).unwrap();
    assert_eq!(data.content.as_deref(), Some("<@42>"));
    assert_eq!(data.embeds[0].author_name, "Staff");
    assert_eq!(data.allowed_mention_users, vec![42]);
    let data = user_message(UserMessageAuthor::User(String::from("bob")), 42, false, "hi", now()).unwrap();
    assert!(data.content.is_none());
    assert_eq!(data.embeds[0].author_name, "bob");
}

#[test]
fn answers_are_joined_in_question_order() {
    let answers = vec![qa("Second*", 2, "b"), qa("First", 1, "a"), qa("Also first", 1, "c")];
    let message = compose_ticket_message(None, answers).unwrap();
    assert_eq!(message, "**First**\na\n\n**Also first**\nc\n\n**Second\\***\nb");
    assert_eq!(compose_ticket_message(Some(String::from("body")), vec![qa("Q", 1, "a")]), Some(String::from("body")));
    assert_eq!(compose_ticket_message(None, vec![]), None);
}

#[test]
fn modal_inputs_are_read() {
    let fields = vec![
        field("title", Some("T")),
        field("question/q1", Some("A1")),
        field("invite_url", Some("https://discord.gg/x")),
        field("question/q2", None),
        field("body", Some("B")),
        field("other", Some("ignored")),
    ];
    let values = read_ticket_modal(&fields);
    assert_eq!(values.title.as_deref(), Some("T"));
    assert_eq!(values.body.as_deref(), Some("B"));
    assert_eq!(values.invite_url.as_deref(), Some("https://discord.gg/x"));
    assert_eq!(
        values.question_answers,
        vec![(String::from("q1"), String::from("A1")), (String::from("q2"), String::new())]
    );
}

#[test]
fn ticket_fields_checks() {
    assert_eq!(check_ticket_fields(&None, &Some(String::from("m"))), Some(TicketSubmissionProblem::MissingData));
    assert_eq!(check_ticket_fields(&Some(String::from("t")), &None), Some(TicketSubmissionProblem::MissingData));
    assert_eq!(check_ticket_fields(&Some("t".repeat(60)), &Some(String::from("m"))), None);
    assert_eq!(check_ticket_fields(&Some("t".repeat(61)), &Some(String::from("m"))), Some(TicketSubmissionProblem::TitleTooLong));
    // 30 two-byte characters are 60 bytes; 31 are 62.
    assert_eq!(check_ticket_fields(&Some("\u{e9}".repeat(30)), &Some(String::from("m"))), None);
    assert_eq!(check_ticket_fields(&Some("\u{e9}".repeat(31)), &Some(String::from("m"))), Some(TicketSubmissionProblem::TitleTooLong));
}

#[test]
fn partner_invite_checks() {
    assert_eq!(check_partner_invite(InviteLookup::NotFound), Some(TicketSubmissionProblem::UnknownInvite));
    assert_eq!(
        check_partner_invite(InviteLookup::Found { to_guild: false, expires: false }),
        Some(TicketSubmissionProblem::NotAGuildInvite)
    );
    assert_eq!(
        check_partner_invite(InviteLookup::Found { to_guild: true, expires: true }),
        Some(TicketSubmissionProblem::ExpiringInvite)
    );
    assert_eq!(check_partner_invite(InviteLookup::Found { to_guild: true, expires: false }), None);
}

#[test]
fn problem_texts_repeat_the_submission() {
    assert_eq!(
        try_again_text("T", "M"),
        "If you wish to try again, here's the data you submitted:\n\n**Title**: T\n**Message**:\nM"
    );
    assert_eq!(
        submission_problem_text(TicketSubmissionProblem::Expired, "T", "M"),
        "Ticket creation expired.\nIf you wish to try again, here's the data you submitted:\n\n**Title**: T\n**Message**:\nM"
    );
    assert_eq!(
        submission_problem_text(TicketSubmissionProblem::MissingData, "", ""),
        "Ticket not sent: missing required data."
    );
}

fn draft(title: &str, message: &str, invite: Option<&str>) -> SubmissionDraft {
    SubmissionDraft { title: title.to_string(), message: message.to_string(), invite_url: invite.map(|i| i.to_string()) }
}

#[test]
fn submission_starts_with_checked_fields() {
    let fields = vec![field("title", Some("T")), field("body", Some("M"))];
    match begin_submission(read_ticket_modal(&fields), vec![]) {
        SubmissionAction::TakeSession(d) => {
            assert_eq!((d.title.as_str(), d.message.as_str()), ("T", "M"));
            assert!(d.invite_url.is_none());
        }
        _ => panic!("expected the session to be taken"),
    }
    let fields = vec![field("title", Some("T")), field("question/q", Some("a"))];
    match begin_submission(read_ticket_modal(&fields), vec![qa("Q", 1, "a")]) {
        SubmissionAction::TakeSession(d) => assert_eq!(d.message, "**Q**\na"),
        _ => panic!("expected the session to be taken"),
    }
    match begin_submission(read_ticket_modal(&vec![field("body", Some("M"))]), vec![]) {
        SubmissionAction::Answer(t) => assert_eq!(t, "Ticket not sent: missing required data."),
        _ => panic!("expected an answer"),
    }
}

#[test]
fn submission_session_and_invite_steps() {
    match after_session(draft("T", "M", None), None) {
        SubmissionAction::Answer(t) => assert!(t.starts_with("Ticket creation expired.\n")),
        _ => panic!("expected an answer"),
    }
    let mut partner = CreateTicketState::new("tok");
    partner.built_in_category = Some(BuiltInCategory::NewPartner);
    assert!(matches!(after_session(draft("T", "M", None), Some(partner)), SubmissionAction::Fail));
    let mut partner = CreateTicketState::new("tok");
    partner.built_in_category = Some(BuiltInCategory::NewPartner);
    match after_session(draft("T", "M", Some("nope")), Some(partner)) {
        SubmissionAction::Answer(t) => assert!(t.starts_with("The invite URL you provided is not a valid invite.\n")),
        _ => panic!("expected an answer"),
    }
    let mut partner = CreateTicketState::new("tok");
    partner.built_in_category = Some(BuiltInCategory::NewPartner);
    let (d, state, url) = match after_session(draft("T", "M", Some("https://discord.gg/abc")), Some(partner)) {
        SubmissionAction::LookUpInvite { draft, state, invite_url, code } => {
            assert_eq!(code, "abc");
            (draft, state, invite_url)
        }
        _ => panic!("expected an invite lookup"),
    };
    match after_invite(d, state, url, InviteLookup::Found { to_guild: true, expires: false }) {
        SubmissionAction::LoadGuild { draft, .. } => {
            assert_eq!(draft.message, "**Partner invite URL**: https://discord.gg/abc\n\nM");
        }
        _ => panic!("expected the server to be read"),
    }
    let other = CreateTicketState::new("tok");
    assert!(matches!(after_session(draft("T", "M", None), Some(other)), SubmissionAction::LoadGuild { .. }));
}

#[test]
fn submission_guild_and_posting_steps() {
    let mut partner = CreateTicketState::new("tok");
    partner.built_in_category = Some(BuiltInCategory::NewPartner);
    match after_guild(draft("T", "M", None), CreateTicketState::new("t"), None, 5, "ann", now()) {
        SubmissionAction::Answer(t) => assert_eq!(t, "This server is not set up and cannot accept tickets."),
        _ => panic!("expected an answer"),
    }
    match after_guild(draft("T", "M", None), CreateTicketState::new("t"), Some(guild(None, None)), 5, "ann", now()) {
        SubmissionAction::Answer(t) => assert_eq!(t, "This server's ticket system is disabled."),
        _ => panic!("expected an answer"),
    }
    match after_guild(draft("T", "M", None), partner, Some(guild(Some(10), None)), 5, "ann", now()) {
        SubmissionAction::Answer(t) => assert_eq!(t, "The server is no longer accepting tickets of that category."),
        _ => panic!("expected an answer"),
    }
    let mut partner = CreateTicketState::new("tok");
    partner.built_in_category = Some(BuiltInCategory::NewPartner);
    match after_guild(draft("T", "M", None), partner, Some(guild(Some(10), Some(20))), 5, "ann", now()) {
        SubmissionAction::Post(p) => {
            assert_eq!((p.user_channel, p.staff_channel), (10, 20));
            assert_eq!(p.staff_title, "T [ann]");
            assert_eq!(p.user.allowed_mention_users, vec![5]);
        }
        _ => panic!("expected the ticket to be posted"),
    }
    let mut custom = CreateTicketState::new("tok");
    custom.custom_category_id = Some(String::from("cat"));
    let posting = match after_guild(draft("T", "M", None), custom, Some(guild(Some(10), None)), 5, "ann", now()) {
        SubmissionAction::LoadCustomCategory { id, posting } => {
            assert_eq!(id, "cat");
            posting
        }
        _ => panic!("expected the category to be read"),
    };
    let category = CustomCategory { id: String::from("cat"), guild: 1, name: String::from("C"), channel: 30, form: None, active: true };
    assert_eq!(after_custom_category(posting, &category).staff_channel, 30);
    assert!(matches!(
        after_guild(draft("T", "M", None), CreateTicketState::new("t"), Some(guild(Some(10), None)), 5, "ann", now()),
        SubmissionAction::Fail
    ));
    assert_eq!(after_posting("T", "M", true, true), (String::from("Ticket submitted!"), true));
    assert!(!after_posting("T", "M", false, true).1);
    assert!(after_posting("T", "M", true, false).0.contains("**Message**:\nM"));
}

#[test]
fn messages_relayed_from_ticket_threads_only() {
    assert_eq!(message_side(7, 7, 100, Some((100, 200))), None);
    assert_eq!(message_side(1, 7, 100, Some((100, 200))), Some(true));
    assert_eq!(message_side(1, 7, 200, Some((100, 200))), Some(false));
    assert_eq!(message_side(1, 7, 300, Some((100, 200))), None);
    assert_eq!(message_side(1, 7, 100, None), None);
}

#[test]
fn staff_messages_are_notes_unless_replying_to_the_user() {
    assert!(is_internal_note(true, None));
    assert!(is_internal_note(true, Some(false)));
    assert!(!is_internal_note(true, Some(true)));
    assert!(!is_internal_note(false, None));
    match plan_relay("mod", "hello", now(), true, Some(true), 9) {
        RelayDecision::Relay { staff, user } => {
            assert_eq!(staff.embeds[0].author_name, "mod");
            assert_eq!(user.embeds[0].author_name, "Staff");
            assert_eq!(user.content.as_deref(), Some("<@9>"));
        }
        _ => panic!("expected a relay"),
    }
    assert!(matches!(plan_relay("mod", "hello", now(), true, None, 9), RelayDecision::InternalNote));
    assert!(matches!(plan_relay("u", &"x".repeat(5000), now(), false, None, 9), RelayDecision::Unpostable));
}

#[test]
fn pages_of_long_menus() {
    assert_eq!(last_page(0), 0);
    assert_eq!(last_page(25), 0);
    assert_eq!(last_page(26), 1);
    assert_eq!(last_page(46), 1);
    assert_eq!(last_page(47), 2);
    let items: Vec<(String, String)> = (0..30).map(|i| (format!("id{}", i), format!("Item {}", i))).collect();
    let first = paged_select_options(&items, &Some(String::from("id3")), 0, "prev", "next");
    assert_eq!(first.len(), 24);
    assert!(first[3].default);
    assert_eq!(first[23].value, ">1");
    assert_eq!(first[23].label, "Next Page");
    let second = paged_select_options(&items, &None, 1, "prev", "next");
    assert_eq!(second.len(), 8);
    assert_eq!(second[0].value, ">0");
    assert_eq!(second[1].value, "id23");
    assert_eq!(second[7].value, "id29");
    let few: Vec<(String, String)> = (0..25).map(|i| (format!("id{}", i), format!("Item {}", i))).collect();
    assert_eq!(paged_select_options(&few, &None, 0, "p", "n").len(), 25);
}

#[test]
fn pages_show_each_entry_once() {
    let items: Vec<(String, String)> = (0..50).map(|i| (format!("id{}", i), format!("Item {}", i))).collect();
    let last = last_page(items.len());
    assert_eq!(last, 2);
    let mut shown: Vec<String> = Vec::new();
    for page in 0..=last {
        let options = paged_select_options(&items, &Some(String::from("id30")), page, "prev", "next");
        assert!(options.len() <= 25);
        for option in options {
            if !option.value.starts_with('>') {
                assert_eq!(option.default, option.value == "id30");
                shown.push(option.value);
            }
        }
    }
    let ids: Vec<String> = items.iter().map(|item| item.0.clone()).collect();
    assert_eq!(shown, ids);
    let past = custom_category_list_component("custom_categories_form_get", "s", &items, &None, 7);
    let at_last = custom_category_list_component("custom_categories_form_get", "s", &items, &None, last);
    assert_eq!(format!("{:?}", past), format!("{:?}", at_last));
}

#[test]
fn page_links_read_back() {
    assert!(matches!(read_menu_value(">12"), Ok(MenuValue::Page(12))));
    assert!(matches!(read_menu_value("abc"), Ok(MenuValue::Item(ref id)) if id == "abc"));
    assert!(read_menu_value(">x").is_err());
    assert!(read_menu_value(">").is_err());
}

#[test]
fn form_choice_needs_category_then_form() {
    let data = |c: Option<&str>, f: Option<&str>| CustomCategoryFormAssociationData {
        all_categories: vec![],
        selected_category_id: c.map(|s| s.to_string()),
        current_category_page: 0,
        all_forms: vec![],
        selected_form_id: f.map(|s| s.to_string()),
        current_form_page: 0,
    };
    assert!(matches!(submit_form_choice(data(None, Some("f"))), FormSubmission::NoCategory));
    assert!(matches!(submit_form_choice(data(Some("c"), None)), FormSubmission::NoForm));
    match submit_form_choice(data(Some("c"), Some("f"))) {
        FormSubmission::Assign { category_id, form_id } => assert_eq!((category_id.as_str(), form_id.as_str()), ("c", "f")),
        _ => panic!("expected an assignment"),
    }
}

#[test]
fn setup_form_and_category_menu_ids() {
    let rows = set_up_components("abc", true);
    let ids: Vec<String> = rows
        .iter()
        .flat_map(|r| r.components.iter())
        .map(|c| match c {
            Component::Button(b) => b.custom_id.clone(),
            Component::SelectMenu(m) => m.custom_id.clone(),
            Component::TextInput(t) => t.custom_id.clone(),
        })
        .collect();
    assert!(ids.contains(&String::from("setup/abc/admin_role")));
    assert!(ids.contains(&String::from("setup/abc/staff_role")));
    assert!(ids.contains(&String::from("setup/abc/confirm")));
    assert!(ids.contains(&String::from("setup/abc/cancel")));
    let menu = category_select_components("s", &vec![(String::from("default/1"), String::from("Ban Appeal"))], true, &None);
    assert_eq!(menu.len(), 2);
    match &menu[1].components[0] {
        Component::Button(b) => {
            assert_eq!(b.custom_id, "create_ticket/s/confirm_category");
            assert!(b.disabled);
        }
        _ => panic!("expected the create button"),
    }
}

#[test]
fn ticket_modal_layout() {
    let modal = ticket_modal("s", "New Partner", true, &None);
    assert_eq!(modal.custom_id, "create_ticket/s/message");
    assert_eq!(modal.title, "Create Ticket - New Partner");
    assert_eq!(modal.rows.len(), 3);
    let questions: Vec<(String, String)> = (0..5).map(|i| (format!("q{}", i), format!("Question {}", i))).collect();
    let modal = ticket_modal("s", "Other", false, &Some(questions));
    assert_eq!(modal.rows.len(), 2);
}

#[test]
fn moderation_entries() {
    let entry = AuditEntry { id: 4194304, guild_id: Some(1), user_id: Some(2), target_id: Some(3), reason: None, options: None };
    let record = read_moderation_entry(&entry, ModerationAction::Ban).unwrap().unwrap();
    assert_eq!((record.guild, record.actor, record.target), (1, 2, 3));
    assert_eq!(record.reason, "");
    let no_actor = AuditEntry { id: 1, guild_id: Some(1), user_id: None, target_id: Some(3), reason: None, options: None };
    assert!(matches!(read_moderation_entry(&no_actor, ModerationAction::Kick), Err(AuditEntryProblem::MissingActor)));
    let no_guild = AuditEntry { id: 1, guild_id: None, user_id: Some(2), target_id: Some(3), reason: None, options: None };
    assert!(matches!(read_moderation_entry(&no_guild, ModerationAction::Kick), Ok(None)));
    let automod = AuditEntry { id: 1, guild_id: Some(1), user_id: Some(2), target_id: None, reason: Some(String::from("spam")), options: Some(None) };
    let record = read_automod_entry(&automod).unwrap();
    assert_eq!((record.rule_name.as_str(), record.reason.as_str()), ("", "spam"));
}

#[test]
fn complaints_for_unexplained_actions() {
    let (channel, text) = complaint_for(ModerationAction::Ban, 1, 2, "", false, Some(9)).unwrap();
    assert_eq!(channel, 9);
    assert_eq!(text, "<@1>, <@2> has been banned, but you didn't provide a reason. Please write a note about <@2> as soon as you can.");
    assert!(complaint_for(ModerationAction::Unban, 1, 2, "", true, Some(9)).is_none());
    assert!(complaint_for(ModerationAction::Timeout, 1, 2, "", false, Some(9)).is_none());
    assert!(complaint_for(ModerationAction::Timeout, 1, 2, "", true, Some(9)).is_some());
    assert!(complaint_for(ModerationAction::Kick, 1, 2, "", true, None).is_none());
}

#[test]
fn no_complaint_when_a_reason_is_given() {
    assert!(complaint_for(ModerationAction::Ban, 1, 2, "spamming", false, Some(9)).is_none());
    assert!(complaint_for(ModerationAction::Kick, 1, 2, "rule 3", false, Some(9)).is_none());
    assert!(complaint_for(ModerationAction::Timeout, 1, 2, "cool down", true, Some(9)).is_none());
    let entry = AuditEntry { id: 1 << 22, guild_id: Some(5), user_id: Some(1), target_id: Some(2), reason: None, options: None };
    let record = read_moderation_entry(&entry, ModerationAction::Ban).unwrap().unwrap();
    assert!(complaint_for(ModerationAction::Ban, record.actor, record.target, &record.reason, false, Some(9)).is_some());
    let explained = AuditEntry { reason: Some(String::from("raid")), ..entry };
    let record = read_moderation_entry(&explained, ModerationAction::Ban).unwrap().unwrap();
    assert!(complaint_for(ModerationAction::Ban, record.actor, record.target, &record.reason, false, Some(9)).is_none());
}

#[test]
fn settings_answers() {
    assert_eq!(restricted_users_text(&vec![]), "No users are restricted from sending tickets.");
    assert_eq!(
        restricted_users_text(&vec![1, 2]),
        "The following users are restricted from sending tickets:\n- <@1>\n- <@2>"
    );
    assert_eq!(start_message_action(Some(1), Some(2)), StartMessageAction::Edit { channel: 1, message: 2 });
    assert_eq!(start_message_action(Some(1), None), StartMessageAction::Post { channel: 1 });
    assert_eq!(start_message_action(None, Some(2)), StartMessageAction::Nothing);
    assert_eq!(category_creation(true, u64::MAX), CategoryCreation::Duplicate);
    assert_eq!(category_creation(false, 0), CategoryCreation::MissingPermissions);
    assert_eq!(category_creation(false, u64::MAX), CategoryCreation::Create);
}

#[test]
fn display_names() {
    assert_eq!(member_user_data(Some(String::from("n")), Some(String::from("g")), String::from("u")).display_name, "n");
    assert_eq!(member_user_data(None, Some(String::from("g")), String::from("u")).display_name, "g");
    assert_eq!(member_user_data(None, None, String::from("u")).display_name, "u");
    assert_eq!(user_user_data(None, String::from("u")).display_name, "u");
}

fn record() -> twilight_sword::reply::TicketRecord {
    twilight_sword::reply::TicketRecord {
        id: String::from("t1"),
        guild: 1,
        with_user: 42,
        title: String::from("T"),
        built_in_category: None,
        custom_category: None,
        staff_thread: 100,
        user_thread: 200,
        closed_at: None,
    }
}

#[test]
fn staff_replies_reach_the_user_anonymously() {
    match plan_reply(None, Some(ReplyState { ticket: record() }), "mod", now()) {
        ReplyAction::Answer(t) => assert_eq!(t, "Reply not sent: missing required data."),
        _ => panic!("expected an answer"),
    }
    match plan_reply(Some(String::from("hi")), None, "mod", now()) {
        ReplyAction::Answer(t) => {
            assert_eq!(t, "Your reply to this ticket expired. In case you need it again, here's what you entered:\nhi")
        }
        _ => panic!("expected an answer"),
    }
    match plan_reply(Some("x".repeat(5000)), Some(ReplyState { ticket: record() }), "mod", now()) {
        ReplyAction::Answer(t) => {
            assert_eq!(t, "This message can't be posted in a Discord embed, so it couldn't be published.")
        }
        _ => panic!("expected an answer"),
    }
    match plan_reply(Some(String::from("hi")), Some(ReplyState { ticket: record() }), "mod", now()) {
        ReplyAction::Post { ticket, user_thread, staff, user } => {
            assert_eq!(ticket.id, "t1");
            assert_eq!(user_thread, 200);
            assert_eq!(staff.embeds[0].author_name, "mod");
            assert_eq!(user.embeds[0].author_name, "Staff");
            assert_eq!(user.content.as_deref(), Some("<@42>"));
            assert_eq!(user.allowed_mention_users, vec![42]);
        }
        _ => panic!("expected the reply to be posted"),
    }
}

#[test]
fn settings_groups_route_by_name() {
    assert_eq!(route_settings_group("admin_role"), Some(SettingsGroup::AdminRole));
    assert_eq!(route_settings_group("new_partner_ticket"), Some(SettingsGroup::NewPartnerTicket));
    assert_eq!(route_settings_group("message_reports_channel"), Some(SettingsGroup::MessageReportsChannel));
    assert_eq!(route_settings_group("existing_partner_ticket"), Some(SettingsGroup::ExistingPartnerTicket));
    assert_eq!(route_settings_group("new_partner_ticket_channel"), None);
    assert_eq!(route_settings_group("start_ticket_message"), Some(SettingsGroup::StartTicketMessage));
    assert_eq!(route_settings_group("unknown"), None);
}

#[test]
fn form_settings_answers() {
    assert_eq!(ban_appeal_form_text(&Some(String::from("A `b`"))), "Ban appeals ticket use the form `A \\`b\\``.");
    assert_eq!(ban_appeal_form_text(&None), "No ban appeal form is set.");
    assert_eq!(new_partner_form_unset_text(FormUnset::NothingToUnset), "There is no new partner ticket form.");
    let forms: Vec<(String, String)> = (0..30).map(|i| (format!("f{}", i), format!("Form {}", i))).collect();
    let rows = form_choice_components("s", &forms);
    match (&rows[0].components[0], &rows[1].components[0]) {
        (Component::SelectMenu(menu), Component::Button(button)) => {
            assert_eq!(menu.custom_id, "s/form");
            let options = menu.options.as_ref().unwrap();
            assert_eq!(options.len(), 24);
            assert_eq!(options[23].value, ">1");
            assert_eq!(options[23].description.as_deref(), Some("See next page of forms"));
            assert_eq!(button.custom_id, "s/confirm");
            assert_eq!(button.label, "Select Form");
            assert!(button.disabled);
        }
        _ => panic!("expected a menu and a button"),
    }
}

#[test]
fn remaining_refusals() {
    let no_target = AuditEntry { id: 1, guild_id: Some(1), user_id: Some(2), target_id: None, reason: None, options: None };
    assert!(matches!(read_moderation_entry(&no_target, ModerationAction::Ban), Err(AuditEntryProblem::MissingTarget)));
    let unban = AuditEntry { id: 1, guild_id: Some(1), user_id: Some(2), target_id: Some(3), reason: Some(String::from("r")), options: None };
    assert_eq!(read_moderation_entry(&unban, ModerationAction::Unban).unwrap().unwrap().reason, "");
    match after_guild(draft("T", &"x".repeat(5000), None), CreateTicketState::new("t"), Some(guild(Some(10), Some(20))), 5, "ann", now()) {
        SubmissionAction::Answer(t) => assert_eq!(t, "Your ticket couldn't be sent; its contents don't fit in an embed."),
        _ => panic!("expected an answer"),
    }
    let mut partner = CreateTicketState::new("tok");
    partner.built_in_category = Some(BuiltInCategory::NewPartner);
    let (d, state, url) = match after_session(draft("T", "M", Some("https://discord.gg/abc")), Some(partner)) {
        SubmissionAction::LookUpInvite { draft, state, invite_url, .. } => (draft, state, invite_url),
        _ => panic!("expected an invite lookup"),
    };
    match after_invite(d, state, url, InviteLookup::NotFound) {
        SubmissionAction::Answer(t) => assert!(t.starts_with("Discord doesn't recognize that invite code.\n")),
        _ => panic!("expected an answer"),
    }
}
