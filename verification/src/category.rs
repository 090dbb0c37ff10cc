//! Ticket categories: the built-in ones, the custom ones a server defines, and the
//! choice a user makes between them while creating a ticket.
use vstd::prelude::*;
use crate::session::SessionStore;
use crate::tickets::FlowNotice;
use crate::components::{single, button, ActionRow, Button, ButtonStyle, Component};
use crate::text::{opt_view, chars_of, has_prefix, starts_with, suffix_from, concat2, owned, string_of};

verus! {

/// The ticket categories that every server has built in.
#[derive(Clone, Copy, Debug, PartialEq, Eq, Structural)]
pub enum BuiltInCategory {
    BanAppeal,
    NewPartner,
    ExistingPartner,
    MessageReport,
}

/// The identifier with which a built-in category is referred to in component values.
pub open spec fn category_id(c: BuiltInCategory) -> Seq<char> {
    match c {
        BuiltInCategory::BanAppeal => seq!['1'],
        BuiltInCategory::NewPartner => seq!['2'],
        BuiltInCategory::ExistingPartner => seq!['3'],
        BuiltInCategory::MessageReport => seq!['4'],
    }
}

impl BuiltInCategory {
    /// Looks up the category with the given identifier.
    pub fn from_id(id: &str) -> (res: Option<BuiltInCategory>)
        ensures
            res matches Some(c) ==> category_id(c) == id@,
            res is None ==> forall|c: BuiltInCategory| category_id(c) != id@,
    {
        let n = id.unicode_len();
        if n != 1 {
            proof {
                assert(forall|c: BuiltInCategory| #[trigger] category_id(c).len() == 1);
            }
            return None;
        }
        let ch = id.get_char(0);
        proof {
            assert(id@ =~= seq![ch]);
        }
        if ch == '1' {
            Some(BuiltInCategory::BanAppeal)
        } else if ch == '2' {
            Some(BuiltInCategory::NewPartner)
        } else if ch == '3' {
            Some(BuiltInCategory::ExistingPartner)
        } else if ch == '4' {
            Some(BuiltInCategory::MessageReport)
        } else {
            proof {
                assert forall|c: BuiltInCategory| category_id(c) != id@ by {
                    assert(category_id(c)[0] != id@[0]);
                }
            }
            None
        }
    }

    /// The identifier of this category.
    pub fn as_id(&self) -> (res: &'static str)
        ensures
            res@ == category_id(*self),
    {
        proof {
            reveal_strlit("1");
            reveal_strlit("2");
            reveal_strlit("3");
            reveal_strlit("4");
        }
        match self {
            BuiltInCategory::BanAppeal => "1",
            BuiltInCategory::NewPartner => "2",
            BuiltInCategory::ExistingPartner => "3",
            BuiltInCategory::MessageReport => "4",
        }
    }

    /// Every built-in category, in the order in which they are offered.
    pub fn all_categories() -> (res: Vec<BuiltInCategory>)
        ensures
            res@ == all_categories_seq(),
    {
        let v = vec![
            BuiltInCategory::BanAppeal,
            BuiltInCategory::NewPartner,
            BuiltInCategory::ExistingPartner,
            BuiltInCategory::MessageReport,
        ];
        assert(v@ =~= all_categories_seq());
        v
    }

    /// Whether users may open tickets of this category themselves.
    pub fn user_can_submit(&self) -> (res: bool)
        ensures
            res == user_submittable(*self),
    {
        match self {
            BuiltInCategory::MessageReport => false,
            _ => true,
        }
    }

    /// The display name of this category.
    pub fn name(&self) -> (res: &'static str)
        ensures
            res@ == category_name(*self),
    {
        match self {
            BuiltInCategory::BanAppeal => "Ban Appeal",
            BuiltInCategory::NewPartner => "New Partner",
            BuiltInCategory::ExistingPartner => "Existing Partner",
            BuiltInCategory::MessageReport => "Message Report",
        }
    }

    /// Whether the server has set up the channel that tickets of this category go to.
    pub fn is_enabled_for_guild(&self, guild: &GuildSettings) -> (res: bool)
        ensures
            res == enabled_for(*self, *guild),
    {
        match self {
            BuiltInCategory::BanAppeal => guild.ban_appeal_ticket_channel.is_some(),
            BuiltInCategory::NewPartner => guild.new_partner_ticket_channel.is_some(),
            BuiltInCategory::ExistingPartner => guild.existing_partner_ticket_channel.is_some(),
            BuiltInCategory::MessageReport => guild.message_reports_channel.is_some(),
        }
    }
}

/// The built-in categories in order.
pub open spec fn all_categories_seq() -> Seq<BuiltInCategory> {
    seq![
        BuiltInCategory::BanAppeal,
        BuiltInCategory::NewPartner,
        BuiltInCategory::ExistingPartner,
        BuiltInCategory::MessageReport,
    ]
}

/// Whether users may open tickets of category `c` themselves.
pub open spec fn user_submittable(c: BuiltInCategory) -> bool {
    c != BuiltInCategory::MessageReport
}

/// The display name of category `c`.
pub open spec fn category_name(c: BuiltInCategory) -> Seq<char> {
    match c {
        BuiltInCategory::BanAppeal => "Ban Appeal"@,
        BuiltInCategory::NewPartner => "New Partner"@,
        BuiltInCategory::ExistingPartner => "Existing Partner"@,
        BuiltInCategory::MessageReport => "Message Report"@,
    }
}

/// Whether category `c` has its channel set up on the server `g`.
pub open spec fn enabled_for(c: BuiltInCategory, g: GuildSettings) -> bool {
    match c {
        BuiltInCategory::BanAppeal => g.ban_appeal_ticket_channel is Some,
        BuiltInCategory::NewPartner => g.new_partner_ticket_channel is Some,
        BuiltInCategory::ExistingPartner => g.existing_partner_ticket_channel is Some,
        BuiltInCategory::MessageReport => g.message_reports_channel is Some,
    }
}

/// The identifier of a category is found again from its identifier, and only it has that identifier.
pub proof fn category_id_round_trip(c: BuiltInCategory, d: BuiltInCategory)
    ensures
        category_id(c) == category_id(d) <==> c == d,
{
    if c != d {
        assert(category_id(c)[0] != category_id(d)[0]);
    }
}

/// Every built-in category is listed once among all categories.
pub proof fn all_categories_lists_each_once(c: BuiltInCategory)
    ensures
        all_categories_seq().contains(c),
        all_categories_seq().no_duplicates(),
{
    match c {
        BuiltInCategory::BanAppeal => assert(all_categories_seq()[0] == c),
        BuiltInCategory::NewPartner => assert(all_categories_seq()[1] == c),
        BuiltInCategory::ExistingPartner => assert(all_categories_seq()[2] == c),
        BuiltInCategory::MessageReport => assert(all_categories_seq()[3] == c),
    }
}

/// What the ticket and settings logic reads of a server's stored settings. Every ID is a
/// Discord snowflake.
#[derive(Clone, Debug)]
pub struct GuildSettings {
    pub guild_id: u64,
    pub admin_role: u64,
    pub staff_role: u64,
    pub start_ticket_channel: Option<u64>,
    pub start_ticket_message_id: Option<u64>,
    pub start_ticket_message: String,
    pub ban_appeal_ticket_channel: Option<u64>,
    pub ban_appeal_ticket_form: Option<String>,
    pub new_partner_ticket_channel: Option<u64>,
    pub new_partner_ticket_form: Option<String>,
    pub existing_partner_ticket_channel: Option<u64>,
    pub existing_partner_ticket_form: Option<String>,
    pub message_reports_channel: Option<u64>,
    pub action_reason_complain_channel: Option<u64>,
}

/// A ticket category that a server defined for itself.
#[derive(Clone, Debug)]
pub struct CustomCategory {
    pub id: String,
    pub guild: u64,
    pub name: String,
    pub channel: u64,
    pub form: Option<String>,
    pub active: bool,
}

/// The sessions of users who are choosing the category of a new ticket.
pub struct CreateTicketStates {
    pub states: SessionStore<CreateTicketState>,
}

impl CreateTicketStates {
    /// No sessions.
    pub fn new() -> (res: Self)
        ensures
            res.states.sessions() == Map::<Seq<char>, CreateTicketState>::empty(),
    {
        CreateTicketStates { states: SessionStore::new() }
    }
}

/// One user's ticket creation in progress.
#[derive(Debug)]
pub struct CreateTicketState {
    pub built_in_category: Option<BuiltInCategory>,
    pub custom_category_id: Option<String>,
    pub initial_message_token: String,
}

/// The prefix that marks a built-in category in the values of the category menu.
pub open spec fn default_prefix() -> Seq<char> {
    seq!['d', 'e', 'f', 'a', 'u', 'l', 't', '/']
}

/// The menu value for the built-in category `c`.
pub open spec fn builtin_option_value(c: BuiltInCategory) -> Seq<char> {
    default_prefix() + category_id(c)
}

/// Why a category choice was refused.
#[derive(Clone, Copy, Debug, PartialEq, Eq, Structural)]
pub enum CategorySelectionError {
    /// The value named a built-in category that does not exist.
    InvalidBuiltInCategory,
}

/// The category choice the menu value `value` stands for: a built-in category when it
/// carries the `default/` prefix, a custom category's ID otherwise.
pub open spec fn selection_of(value: Seq<char>) -> Result<(Option<BuiltInCategory>, Option<Seq<char>>), CategorySelectionError> {
    if starts_with(value, default_prefix()) {
        let id = value.skip(default_prefix().len() as int);
        if exists|c: BuiltInCategory| category_id(c) == id {
            let c = choose|c: BuiltInCategory| category_id(c) == id;
            Ok((Some(c), None))
        } else {
            Err(CategorySelectionError::InvalidBuiltInCategory)
        }
    } else {
        Ok((None, Some(value)))
    }
}

fn default_prefix_chars() -> (v: Vec<char>)
    ensures
        v@ == default_prefix(),
{
    let v = vec!['d', 'e', 'f', 'a', 'u', 'l', 't', '/'];
    assert(v@ =~= default_prefix());
    v
}

impl CreateTicketState {
    /// A session that has not chosen a category yet.
    pub fn new(initial_message_token: &str) -> (res: Self)
        ensures
            res.built_in_category is None,
            res.custom_category_id is None,
            res.initial_message_token@ == initial_message_token@,
    {
        CreateTicketState {
            built_in_category: None,
            custom_category_id: None,
            initial_message_token: owned(initial_message_token),
        }
    }

    /// Whether a category has been chosen.
    pub fn has_category(&self) -> (res: bool)
        ensures
            res == (self.built_in_category is Some || self.custom_category_id is Some),
    {
        self.built_in_category.is_some() || self.custom_category_id.is_some()
    }

    /// Records the category that the menu value `value` stands for; on a refused value
    /// the session is left as it was.
    pub fn select_category(&mut self, value: &str) -> (res: Result<(), CategorySelectionError>)
        ensures
            res is Ok <==> selection_of(value@) is Ok,
            res matches Err(e) ==> selection_of(value@) == Err::<(Option<BuiltInCategory>, Option<Seq<char>>), CategorySelectionError>(e)
                && *final(self) == *old(self),
            res is Ok ==> {
                &&& final(self).built_in_category == selection_of(value@)->Ok_0.0
                &&& opt_view(final(self).custom_category_id) == selection_of(value@)->Ok_0.1
                &&& final(self).initial_message_token == old(self).initial_message_token
            },
    {
        let chars = chars_of(value);
        let prefix = default_prefix_chars();
        if has_prefix(&chars, &prefix) {
            let id = string_of(suffix_from(&chars, prefix.len()).as_slice());
            match BuiltInCategory::from_id(id.as_str()) {
                Some(c) => {
                    proof {
                        let cc = choose|c: BuiltInCategory| category_id(c) == id@;
                        category_id_round_trip(c, cc);
                    }
                    self.built_in_category = Some(c);
                    self.custom_category_id = None;
                    Ok(())
                },
                None => Err(CategorySelectionError::InvalidBuiltInCategory),
            }
        } else {
            self.built_in_category = None;
            self.custom_category_id = Some(owned(value));
            Ok(())
        }
    }
}

/// The menu value offered for a built-in category selects exactly that category, and a
/// value without the `default/` prefix selects the custom category with that ID.
pub proof fn offered_value_selects_its_category(c: BuiltInCategory, custom_id: Seq<char>)
    ensures
        selection_of(builtin_option_value(c)) == Ok::<(Option<BuiltInCategory>, Option<Seq<char>>), CategorySelectionError>((Some(c), None)),
        !starts_with(custom_id, default_prefix()) ==> selection_of(custom_id) == Ok::<(Option<BuiltInCategory>, Option<Seq<char>>), CategorySelectionError>((None, Some(custom_id))),
{
    let v = builtin_option_value(c);
    assert(v.take(default_prefix().len() as int) =~= default_prefix());
    assert(v.skip(default_prefix().len() as int) =~= category_id(c));
    let cc = choose|d: BuiltInCategory| category_id(d) == category_id(c);
    category_id_round_trip(c, cc);
}

/// Whether category `c` is offered to users creating a ticket on server `g`.
pub open spec fn offered(c: BuiltInCategory, g: GuildSettings) -> bool {
    user_submittable(c) && enabled_for(c, g)
}

/// The menu entry (value, label) of built-in category `c`.
pub open spec fn builtin_option(c: BuiltInCategory) -> (Seq<char>, Seq<char>) {
    (builtin_option_value(c), category_name(c))
}

/// The menu entries of those of the built-in categories `cs` that are offered on server `g`, in order.
pub open spec fn offered_options(cs: Seq<BuiltInCategory>, g: GuildSettings) -> Seq<(Seq<char>, Seq<char>)> {
    cs.filter(|c: BuiltInCategory| offered(c, g)).map_values(|c: BuiltInCategory| builtin_option(c))
}

/// The menu entries of the custom categories `cs`, in order.
pub open spec fn custom_options(cs: Seq<CustomCategory>) -> Seq<(Seq<char>, Seq<char>)> {
    cs.map_values(|c: CustomCategory| (c.id@, c.name@))
}

/// The menu entries (value, label) of the categories a user may pick on server `g`: the
/// offered built-in categories, then every custom category of the server.
pub open spec fn selectable_options(g: GuildSettings, customs: Seq<CustomCategory>) -> Seq<(Seq<char>, Seq<char>)> {
    offered_options(all_categories_seq(), g) + custom_options(customs)
}

proof fn lemma_offered_options_push(cs: Seq<BuiltInCategory>, c: BuiltInCategory, g: GuildSettings)
    ensures
        offered_options(cs.push(c), g) == if offered(c, g) {
            offered_options(cs, g).push(builtin_option(c))
        } else {
            offered_options(cs, g)
        },
{
    reveal(Seq::filter);
    let pred = |c: BuiltInCategory| offered(c, g);
    assert(cs.push(c).drop_last() =~= cs);
    assert(cs.push(c).filter(pred) == if pred(c) { cs.filter(pred).push(c) } else { cs.filter(pred) });
    if offered(c, g) {
        assert(offered_options(cs.push(c), g) =~= offered_options(cs, g).push(builtin_option(c)));
    }
}

proof fn lemma_builtin_option_injective(c: BuiltInCategory, d: BuiltInCategory)
    ensures
        builtin_option(c) == builtin_option(d) ==> c == d,
{
    if builtin_option(c) == builtin_option(d) {
        let n = default_prefix().len() as int;
        assert(builtin_option_value(c).skip(n) =~= category_id(c));
        assert(builtin_option_value(d).skip(n) =~= category_id(d));
        category_id_round_trip(c, d);
    }
}

/// The category menu offers a built-in category exactly when users may submit it and
/// the server has set up its channel; message reports are never offered.
pub proof fn offered_builtin_categories(g: GuildSettings, c: BuiltInCategory)
    ensures
        offered_options(all_categories_seq(), g).contains(builtin_option(c)) <==> offered(c, g),
        !offered_options(all_categories_seq(), g).contains(builtin_option(BuiltInCategory::MessageReport)),
{
    let s0 = Seq::<BuiltInCategory>::empty();
    let s1 = s0.push(BuiltInCategory::BanAppeal);
    let s2 = s1.push(BuiltInCategory::NewPartner);
    let s3 = s2.push(BuiltInCategory::ExistingPartner);
    let s4 = s3.push(BuiltInCategory::MessageReport);
    assert(s4 =~= all_categories_seq());
    reveal(Seq::filter);
    assert(offered_options(s0, g) =~= Seq::<(Seq<char>, Seq<char>)>::empty());
    lemma_offered_options_push(s0, BuiltInCategory::BanAppeal, g);
    lemma_offered_options_push(s1, BuiltInCategory::NewPartner, g);
    lemma_offered_options_push(s2, BuiltInCategory::ExistingPartner, g);
    lemma_offered_options_push(s3, BuiltInCategory::MessageReport, g);
    let all = offered_options(s4, g);
    assert forall|i: int| 0 <= i < all.len() implies
        (exists|d: BuiltInCategory| offered(d, g) && #[trigger] all[i] == builtin_option(d)) by {
        let o1 = offered_options(s1, g);
        let o2 = offered_options(s2, g);
        let o3 = offered_options(s3, g);
        if i < o1.len() {
            assert(o2[i] == o1[i]);
            assert(o3[i] == o1[i]);
            assert(all[i] == o1[i]);
            assert(all[i] == builtin_option(BuiltInCategory::BanAppeal));
        } else if i < o2.len() {
            assert(o3[i] == o2[i]);
            assert(all[i] == o2[i]);
            assert(all[i] == builtin_option(BuiltInCategory::NewPartner));
        } else if i < o3.len() {
            assert(all[i] == o3[i]);
            assert(all[i] == builtin_option(BuiltInCategory::ExistingPartner));
        }
    }
    if all.contains(builtin_option(c)) {
        let i = choose|i: int| 0 <= i < all.len() && all[i] == builtin_option(c);
        let d = choose|d: BuiltInCategory| offered(d, g) && all[i] == builtin_option(d);
        lemma_builtin_option_injective(c, d);
    }
    if offered(c, g) {
        let o1 = offered_options(s1, g);
        let o2 = offered_options(s2, g);
        let o3 = offered_options(s3, g);
        match c {
            BuiltInCategory::BanAppeal => {
                assert(o1[0] == builtin_option(c));
                assert(o2[0] == builtin_option(c));
                assert(o3[0] == builtin_option(c));
                assert(all[0] == builtin_option(c));
            },
            BuiltInCategory::NewPartner => {
                assert(o2[o1.len() as int] == builtin_option(c));
                assert(o3[o1.len() as int] == builtin_option(c));
                assert(all[o1.len() as int] == builtin_option(c));
            },
            BuiltInCategory::ExistingPartner => {
                assert(o3[o2.len() as int] == builtin_option(c));
                assert(all[o2.len() as int] == builtin_option(c));
            },
            BuiltInCategory::MessageReport => {},
        }
    }
    if all.contains(builtin_option(BuiltInCategory::MessageReport)) {
        let i = choose|i: int| 0 <= i < all.len() && all[i] == builtin_option(BuiltInCategory::MessageReport);
        let d = choose|d: BuiltInCategory| offered(d, g) && all[i] == builtin_option(d);
        lemma_builtin_option_injective(BuiltInCategory::MessageReport, d);
    }
}

/// The view of a list of menu entries.
pub open spec fn option_pairs_view(v: Seq<(String, String)>) -> Seq<(Seq<char>, Seq<char>)> {
    v.map_values(|p: (String, String)| (p.0@, p.1@))
}

/// The categories a user may choose from on `guild`, as (menu value, label) pairs.
pub fn selectable_categories_for_guild(guild: &GuildSettings, custom_categories: &Vec<CustomCategory>) -> (res: Vec<(String, String)>)
    ensures
        option_pairs_view(res@) == selectable_options(*guild, custom_categories@),
{
    let all = BuiltInCategory::all_categories();
    let mut res: Vec<(String, String)> = Vec::new();
    let mut i: usize = 0;
    while i < all.len()
        invariant
            i <= all.len(),
            all@ == all_categories_seq(),
            option_pairs_view(res@) == offered_options(all@.take(i as int), *guild),
        decreases all.len() - i,
    {
        let c = all[i];
        proof {
            assert(all@.take(i + 1) =~= all@.take(i as int).push(c));
            lemma_offered_options_push(all@.take(i as int), c, *guild);
        }
        if c.user_can_submit() && c.is_enabled_for_guild(guild) {
            let value = concat2("default/", c.as_id());
            let label = owned(c.name());
            proof {
                reveal_strlit("default/");
                assert("default/"@ =~= default_prefix());
            }
            res.push((value, label));
            proof {
                assert(option_pairs_view(res@) =~= offered_options(all@.take(i as int), *guild).push(builtin_option(c)));
            }
        }
        i = i + 1;
    }
    assert(all@.take(all.len() as int) =~= all@);
    let ghost base = res@;
    let mut j: usize = 0;
    while j < custom_categories.len()
        invariant
            j <= custom_categories.len(),
            option_pairs_view(res@) == option_pairs_view(base) + custom_options(custom_categories@.take(j as int)),
        decreases custom_categories.len() - j,
    {
        let c = &custom_categories[j];
        let id = c.id.clone();
        let name = c.name.clone();
        let ghost old_res = res@;
        res.push((id, name));
        proof {
            assert(option_pairs_view(res@) =~= option_pairs_view(old_res).push((c.id@, c.name@)));
            assert(custom_categories@.take(j + 1) =~= custom_categories@.take(j as int).push(*c));
            assert(custom_options(custom_categories@.take(j + 1)) =~= custom_options(custom_categories@.take(j as int)).push((c.id@, c.name@)));
        }
        j = j + 1;
        assert(option_pairs_view(res@) =~= option_pairs_view(base) + custom_options(custom_categories@.take(j as int)));
    }
    assert(custom_categories@.take(custom_categories.len() as int) =~= custom_categories@);
    res
}

/// How a request to create a ticket is answered.
pub enum TicketStart {
    /// Answer with this notice, which only the user sees.
    Notice(FlowNotice),
    /// Offer the categories (menu value, label) in the category menu.
    Offer(Vec<(String, String)>),
}

/// Decides how a request to create a ticket on server `guild` (`None` when it is not set
/// up) with custom categories `custom_categories` is answered: a user restricted from
/// sending tickets is refused, then a server that is not set up, then a server that
/// offers no category; otherwise the selectable categories are offered.
pub fn start_ticket_creation(restricted: bool, guild: &Option<GuildSettings>, custom_categories: &Vec<CustomCategory>) -> (res: TicketStart)
    ensures
        restricted ==> (res matches TicketStart::Notice(n) && n == FlowNotice::Restricted),
        !restricted && guild is None ==> (res matches TicketStart::Notice(n) && n == FlowNotice::ServerNotSetUp),
        !restricted && guild is Some ==> if selectable_options(guild->0, custom_categories@).len() == 0 {
            res matches TicketStart::Notice(n) && n == FlowNotice::NoCategories
        } else {
            res matches TicketStart::Offer(v) && option_pairs_view(v@) == selectable_options(guild->0, custom_categories@)
        },
{
    if restricted {
        return TicketStart::Notice(FlowNotice::Restricted);
    }
    match guild {
        None => TicketStart::Notice(FlowNotice::ServerNotSetUp),
        Some(g) => {
            let options = selectable_categories_for_guild(g, custom_categories);
            if options.len() == 0 {
                TicketStart::Notice(FlowNotice::NoCategories)
            } else {
                TicketStart::Offer(options)
            }
        },
    }
}

/// The title suffix and the form of the category chosen in `state`: for a built-in category
/// its name and the form the server set for it (message reports have none); for a custom
/// category the name and form of `custom`, the stored category with the chosen ID; empty
/// and no form when nothing was chosen.
pub open spec fn category_title_and_form(state: CreateTicketState, guild: GuildSettings, custom: Option<CustomCategory>) -> Option<(Seq<char>, Option<Seq<char>>)> {
    match (state.built_in_category, state.custom_category_id) {
        (Some(c), _) => Some((category_name(c), match c {
            BuiltInCategory::BanAppeal => opt_view(guild.ban_appeal_ticket_form),
            BuiltInCategory::NewPartner => opt_view(guild.new_partner_ticket_form),
            BuiltInCategory::ExistingPartner => opt_view(guild.existing_partner_ticket_form),
            BuiltInCategory::MessageReport => None,
        })),
        (None, Some(_)) => match custom {
            Some(cat) => Some((cat.name@, opt_view(cat.form))),
            None => None,
        },
        (None, None) => Some((Seq::empty(), None)),
    }
}

/// Each built-in category reads its own settings of the server: ban appeals the ban
/// appeal channel and form, new partners the new partner channel and form, existing
/// partners the existing partner channel and form, message reports the message reports
/// channel (and no form). A category is enabled exactly when its channel is set, its
/// ticket is titled with its own name, and a partner ticket's staff side goes to its own
/// partner channel.
pub proof fn categories_read_their_own_settings(g: GuildSettings, custom: Option<CustomCategory>, token: String, other: Option<String>)
    ensures
        enabled_for(BuiltInCategory::BanAppeal, g) == g.ban_appeal_ticket_channel is Some,
        enabled_for(BuiltInCategory::NewPartner, g) == g.new_partner_ticket_channel is Some,
        enabled_for(BuiltInCategory::ExistingPartner, g) == g.existing_partner_ticket_channel is Some,
        enabled_for(BuiltInCategory::MessageReport, g) == g.message_reports_channel is Some,
        category_name(BuiltInCategory::BanAppeal) == "Ban Appeal"@,
        category_name(BuiltInCategory::NewPartner) == "New Partner"@,
        category_name(BuiltInCategory::ExistingPartner) == "Existing Partner"@,
        category_name(BuiltInCategory::MessageReport) == "Message Report"@,
        category_title_and_form(CreateTicketState { built_in_category: Some(BuiltInCategory::BanAppeal), custom_category_id: other, initial_message_token: token }, g, custom)
            == Some(("Ban Appeal"@, opt_view(g.ban_appeal_ticket_form))),
        category_title_and_form(CreateTicketState { built_in_category: Some(BuiltInCategory::NewPartner), custom_category_id: other, initial_message_token: token }, g, custom)
            == Some(("New Partner"@, opt_view(g.new_partner_ticket_form))),
        category_title_and_form(CreateTicketState { built_in_category: Some(BuiltInCategory::ExistingPartner), custom_category_id: other, initial_message_token: token }, g, custom)
            == Some(("Existing Partner"@, opt_view(g.existing_partner_ticket_form))),
        category_title_and_form(CreateTicketState { built_in_category: Some(BuiltInCategory::MessageReport), custom_category_id: other, initial_message_token: token }, g, custom)
            == Some(("Message Report"@, None::<Seq<char>>)),
        staff_channel_choice(CreateTicketState { built_in_category: Some(BuiltInCategory::NewPartner), custom_category_id: other, initial_message_token: token }, g, custom)
            == Ok::<Option<u64>, ()>(g.new_partner_ticket_channel),
        staff_channel_choice(CreateTicketState { built_in_category: Some(BuiltInCategory::ExistingPartner), custom_category_id: other, initial_message_token: token }, g, custom)
            == Ok::<Option<u64>, ()>(g.existing_partner_ticket_channel),
{
}

/// The name and form of the chosen category (see `category_title_and_form`). `None` when a
/// custom category was chosen but `custom` does not hold it.
pub fn chosen_category_details(state: &CreateTicketState, guild: &GuildSettings, custom: &Option<CustomCategory>) -> (res: Option<(String, Option<String>)>)
    ensures
        match res { Some(p) => Some((p.0@, opt_view(p.1))), None => None::<(Seq<char>, Option<Seq<char>>)> } == category_title_and_form(*state, *guild, *custom),
{
    match state.built_in_category {
        Some(c) => {
            let form = match c {
                BuiltInCategory::BanAppeal => guild.ban_appeal_ticket_form.clone(),
                BuiltInCategory::NewPartner => guild.new_partner_ticket_form.clone(),
                BuiltInCategory::ExistingPartner => guild.existing_partner_ticket_form.clone(),
                BuiltInCategory::MessageReport => None,
            };
            Some((owned(c.name()), form))
        },
        None => match &state.custom_category_id {
            Some(_) => match custom {
                Some(cat) => Some((cat.name.clone(), cat.form.clone())),
                None => None,
            },
            None => Some((String::new(), None)),
        },
    }
}

/// The forum channel that receives the staff side of a ticket of the chosen category:
/// `Err` when the choice is neither a partner category nor a custom category (ban
/// appeals, message reports, no choice), the server's partner channel (when set) for the
/// partner categories, and the channel of `custom`, the stored custom category, otherwise.
pub open spec fn staff_channel_choice(state: CreateTicketState, guild: GuildSettings, custom: Option<CustomCategory>) -> Result<Option<u64>, ()> {
    match (state.built_in_category, state.custom_category_id) {
        (Some(BuiltInCategory::NewPartner), _) => Ok(guild.new_partner_ticket_channel),
        (Some(BuiltInCategory::ExistingPartner), _) => Ok(guild.existing_partner_ticket_channel),
        (_, Some(_)) => match custom {
            Some(cat) => Ok(Some(cat.channel)),
            None => Err(()),
        },
        _ => Err(()),
    }
}

/// Where the staff side of a new ticket goes (see `staff_channel_choice`).
pub fn staff_channel_for(state: &CreateTicketState, guild: &GuildSettings, custom: &Option<CustomCategory>) -> (res: Result<Option<u64>, ()>)
    ensures
        res == staff_channel_choice(*state, *guild, *custom),
{
    match (state.built_in_category, &state.custom_category_id) {
        (Some(BuiltInCategory::NewPartner), _) => Ok(guild.new_partner_ticket_channel),
        (Some(BuiltInCategory::ExistingPartner), _) => Ok(guild.existing_partner_ticket_channel),
        (_, Some(_)) => match custom {
            Some(cat) => Ok(Some(cat.channel)),
            None => Err(()),
        },
        _ => Err(()),
    }
}

/// The row with the button that starts ticket creation (its custom ID carries an empty
/// session part and the `start` action).
pub fn new_ticket_button() -> (res: ActionRow)
    ensures
        res@ == single(button("create_ticket//start"@, "Create Ticket"@, ButtonStyle::Primary, false)),
{
    let mut v: Vec<Component> = Vec::new();
    v.push(Component::Button(Button { custom_id: owned("create_ticket//start"), label: owned("Create Ticket"), style: ButtonStyle::Primary, disabled: false }));
    let r = ActionRow { components: v };
    assert(r@ =~= single(button("create_ticket//start"@, "Create Ticket"@, ButtonStyle::Primary, false)));
    r
}

} // verus!
