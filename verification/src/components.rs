//! Message components (buttons, select menus, text inputs in action rows) and the
//! component layouts the bot sends: paged select menus, the setup form, the ticket
//! category menu and the ticket modals.
use vstd::prelude::*;
use crate::text::{concat2, concat3, concat5, decimal, decimal_string, escape_asterisks, escape_markdown_asterisks, opt_view, owned};

verus! {

#[derive(Clone, Copy, Debug, PartialEq, Eq, Structural)]
pub enum ButtonStyle {
    Primary,
    Secondary,
}

#[derive(Clone, Copy, Debug, PartialEq, Eq, Structural)]
pub enum SelectMenuKind {
    Text,
    Role,
}

#[derive(Clone, Copy, Debug, PartialEq, Eq, Structural)]
pub enum TextInputStyle {
    Short,
    Paragraph,
}

/// One entry of a text select menu.
#[derive(Debug)]
pub struct SelectOption {
    pub default: bool,
    pub description: Option<String>,
    pub label: String,
    pub value: String,
}

#[derive(Debug)]
pub struct Button {
    pub custom_id: String,
    pub label: String,
    pub style: ButtonStyle,
    pub disabled: bool,
}

#[derive(Debug)]
pub struct SelectMenu {
    pub custom_id: String,
    pub kind: SelectMenuKind,
    /// The entries of a text menu; role menus have none.
    pub options: Option<Vec<SelectOption>>,
    pub placeholder: String,
}

#[derive(Debug)]
pub struct TextInput {
    pub custom_id: String,
    pub label: String,
    pub max_length: Option<u16>,
    pub min_length: Option<u16>,
    pub placeholder: Option<String>,
    pub required: bool,
    pub style: TextInputStyle,
    /// The text the input is filled with.
    pub value: Option<String>,
}

#[derive(Debug)]
pub enum Component {
    Button(Button),
    SelectMenu(SelectMenu),
    TextInput(TextInput),
}

/// A row of components; messages and modals hold a list of rows.
#[derive(Debug)]
pub struct ActionRow {
    pub components: Vec<Component>,
}

pub struct SelectOptionView {
    pub default: bool,
    pub description: Option<Seq<char>>,
    pub label: Seq<char>,
    pub value: Seq<char>,
}

pub struct ButtonView {
    pub custom_id: Seq<char>,
    pub label: Seq<char>,
    pub style: ButtonStyle,
    pub disabled: bool,
}

pub struct SelectMenuView {
    pub custom_id: Seq<char>,
    pub kind: SelectMenuKind,
    pub options: Option<Seq<SelectOptionView>>,
    pub placeholder: Seq<char>,
}

pub struct TextInputView {
    pub custom_id: Seq<char>,
    pub label: Seq<char>,
    pub max_length: Option<u16>,
    pub min_length: Option<u16>,
    pub placeholder: Option<Seq<char>>,
    pub required: bool,
    pub style: TextInputStyle,
    pub value: Option<Seq<char>>,
}

pub enum ComponentView {
    Button(ButtonView),
    SelectMenu(SelectMenuView),
    TextInput(TextInputView),
}

impl View for SelectOption {
    type V = SelectOptionView;

    open spec fn view(&self) -> SelectOptionView {
        SelectOptionView {
            default: self.default,
            description: opt_view(self.description),
            label: self.label@,
            value: self.value@,
        }
    }
}

/// The view of a list of menu entries.
pub open spec fn options_view(v: Seq<SelectOption>) -> Seq<SelectOptionView> {
    v.map_values(|o: SelectOption| o@)
}

impl View for Component {
    type V = ComponentView;

    open spec fn view(&self) -> ComponentView {
        match self {
            Component::Button(b) => ComponentView::Button(
                ButtonView { custom_id: b.custom_id@, label: b.label@, style: b.style, disabled: b.disabled },
            ),
            Component::SelectMenu(m) => ComponentView::SelectMenu(
                SelectMenuView {
                    custom_id: m.custom_id@,
                    kind: m.kind,
                    options: match m.options {
                        Some(o) => Some(options_view(o@)),
                        None => None,
                    },
                    placeholder: m.placeholder@,
                },
            ),
            Component::TextInput(t) => ComponentView::TextInput(
                TextInputView {
                    custom_id: t.custom_id@,
                    label: t.label@,
                    max_length: t.max_length,
                    min_length: t.min_length,
                    placeholder: opt_view(t.placeholder),
                    required: t.required,
                    style: t.style,
                    value: opt_view(t.value),
                },
            ),
        }
    }
}

impl View for ActionRow {
    type V = Seq<ComponentView>;

    open spec fn view(&self) -> Seq<ComponentView> {
        self.components@.map_values(|c: Component| c@)
    }
}

/// The view of a list of rows.
pub open spec fn rows_view(v: Seq<ActionRow>) -> Seq<Seq<ComponentView>> {
    v.map_values(|r: ActionRow| r@)
}

/// A row holding the single component `c`.
pub open spec fn single(c: ComponentView) -> Seq<ComponentView> {
    seq![c]
}

fn single_row(c: Component) -> (r: ActionRow)
    ensures
        r@ == single(c@),
{
    let mut v: Vec<Component> = Vec::new();
    v.push(c);
    let r = ActionRow { components: v };
    assert(r@ =~= single(c@));
    r
}

// ---------------------------------------------------------------------------------
// Paged text menus
// ---------------------------------------------------------------------------------

/// How many entries a text menu holds on one page when the list is split into pages.
pub open spec fn page_size() -> nat {
    23
}

/// The last page of a list of `len` entries: everything fits on one page (page 0) up to
/// 25 entries, otherwise pages hold 23 entries each.
pub open spec fn max_page(len: nat) -> nat {
    if len <= 25 {
        0
    } else {
        ((len - 1) as nat) / page_size()
    }
}

/// The number of the last page of a list of `len` entries.
pub fn last_page(len: usize) -> (res: usize)
    ensures
        res == max_page(len as nat),
        res <= usize::MAX / 23,
{
    if len <= 25 {
        0
    } else {
        let r = (len - 1) / 23;
        assert(r <= usize::MAX / 23) by (nonlinear_arith)
            requires
                r == (len - 1) / 23,
                len <= usize::MAX,
                len >= 1,
        ;
        r
    }
}

/// The value of the menu entry that leads to page `page`.
pub open spec fn page_link_value(page: nat) -> Seq<char> {
    seq!['>'] + decimal(page)
}

/// The entry (value, label) pairs `items` as menu entries, the one whose value is
/// `selected` marked as chosen.
pub open spec fn item_options(items: Seq<(Seq<char>, Seq<char>)>, selected: Option<Seq<char>>) -> Seq<SelectOptionView> {
    items.map_values(
        |it: (Seq<char>, Seq<char>)|
            SelectOptionView { default: selected == Some(it.0), description: None, label: it.1, value: it.0 },
    )
}

/// The entries of page `page` of a paged menu over `items` (value, label): all of them
/// when they fit on one page; otherwise the `page_size()` entries of that page, preceded
/// by a link to the previous page (when there is one) and followed by a link to the next
/// page (when there is one), the links described by `previous` and `next`.
pub open spec fn paged_options(
    items: Seq<(Seq<char>, Seq<char>)>,
    selected: Option<Seq<char>>,
    page: nat,
    previous: Seq<char>,
    next: Seq<char>,
) -> Seq<SelectOptionView> {
    let last = max_page(items.len());
    if last == 0 {
        item_options(items, selected)
    } else {
        let start = if page * page_size() <= items.len() {
            page * page_size()
        } else {
            items.len()
        };
        let end = if start + page_size() <= items.len() {
            start + page_size()
        } else {
            items.len()
        };
        let before = if page > 0 {
            seq![SelectOptionView { default: false, description: Some(previous), label: "Previous Page"@, value: page_link_value((page - 1) as nat) }]
        } else {
            Seq::empty()
        };
        let after = if page < last {
            seq![SelectOptionView { default: false, description: Some(next), label: "Next Page"@, value: page_link_value(page + 1) }]
        } else {
            Seq::empty()
        };
        before + item_options(items.subrange(start as int, end as int), selected) + after
    }
}

/// Every page of a paged menu fits in one text menu (at most 25 entries).
pub proof fn paged_menu_fits(
    items: Seq<(Seq<char>, Seq<char>)>,
    selected: Option<Seq<char>>,
    page: nat,
    previous: Seq<char>,
    next: Seq<char>,
)
    requires
        page <= max_page(items.len()),
    ensures
        paged_options(items, selected, page, previous, next).len() <= 25,
{
}

/// Every entry of a paged menu is shown, unchanged, on the page its position puts it
/// on: entry `i` is on page `i / 23` (on page 0 when the list fits on one page), after
/// the link to the previous page when there is one.
pub proof fn paged_menu_shows_every_entry(
    items: Seq<(Seq<char>, Seq<char>)>,
    selected: Option<Seq<char>>,
    i: int,
    previous: Seq<char>,
    next: Seq<char>,
)
    requires
        0 <= i < items.len(),
    ensures
        ({
            let page: nat = if max_page(items.len()) == 0 { 0 } else { (i / 23) as nat };
            let offset: int = if max_page(items.len()) == 0 { i } else if page > 0 { 1 + i - page * 23 } else { i };
            &&& page <= max_page(items.len())
            &&& 0 <= offset < paged_options(items, selected, page, previous, next).len()
            &&& paged_options(items, selected, page, previous, next)[offset] == item_options(items, selected)[i]
        }),
{
    if max_page(items.len()) > 0 {
        let page: nat = (i / 23) as nat;
        assert(page * 23 <= i < page * 23 + 23) by (nonlinear_arith)
            requires page == i / 23, i >= 0;
        assert(page <= max_page(items.len())) by (nonlinear_arith)
            requires page == i / 23, i < items.len(), items.len() > 25, max_page(items.len()) == ((items.len() - 1) as nat) / 23;
    }
}

/// The entries (not the page links) that page `page` of a paged menu over `items` shows.
pub open spec fn page_entries(items: Seq<(Seq<char>, Seq<char>)>, selected: Option<Seq<char>>, page: nat) -> Seq<SelectOptionView> {
    if max_page(items.len()) == 0 {
        item_options(items, selected)
    } else {
        let start = if page * page_size() <= items.len() { page * page_size() } else { items.len() };
        let end = if start + page_size() <= items.len() { start + page_size() } else { items.len() };
        item_options(items.subrange(start as int, end as int), selected)
    }
}

/// The entries of the first `n` pages of a paged menu over `items`, in page order.
pub open spec fn pages_entries(items: Seq<(Seq<char>, Seq<char>)>, selected: Option<Seq<char>>, n: nat) -> Seq<SelectOptionView>
    decreases n,
{
    if n == 0 {
        Seq::empty()
    } else {
        pages_entries(items, selected, (n - 1) as nat) + page_entries(items, selected, (n - 1) as nat)
    }
}

proof fn lemma_item_options_split(items: Seq<(Seq<char>, Seq<char>)>, selected: Option<Seq<char>>, x: int, y: int)
    requires
        0 <= x <= y <= items.len(),
    ensures
        item_options(items.subrange(0, x), selected) + item_options(items.subrange(x, y), selected)
            == item_options(items.subrange(0, y), selected),
{
    assert(item_options(items.subrange(0, x), selected) + item_options(items.subrange(x, y), selected)
        =~= item_options(items.subrange(0, y), selected));
}

proof fn lemma_pages_entries_prefix(items: Seq<(Seq<char>, Seq<char>)>, selected: Option<Seq<char>>, n: nat)
    requires
        max_page(items.len()) > 0,
    ensures
        pages_entries(items, selected, n) == item_options(
            items.subrange(0, if n * 23 <= items.len() { (n * 23) as int } else { items.len() as int }),
            selected,
        ),
    decreases n,
{
    if n == 0 {
        assert(items.subrange(0, 0) =~= Seq::<(Seq<char>, Seq<char>)>::empty());
        assert(item_options(items.subrange(0, 0), selected) =~= Seq::<SelectOptionView>::empty());
    } else {
        let m = (n - 1) as nat;
        lemma_pages_entries_prefix(items, selected, m);
        let x: int = if m * 23 <= items.len() { (m * 23) as int } else { items.len() as int };
        let y: int = if n * 23 <= items.len() { (n * 23) as int } else { items.len() as int };
        assert(m * 23 + 23 == n * 23);
        lemma_item_options_split(items, selected, x, y);
    }
}

/// Every entry of a paged menu is shown exactly once over its pages: each page shows its
/// entries between an optional link to the previous page and an optional link to the
/// next page (links are the values starting with `>`), and the entries of pages `0` to
/// the last page, in order, are all the entries of the menu. A page past the last one
/// shows the last page in the category menus.
pub proof fn paged_menu_shows_entries_once(
    items: Seq<(Seq<char>, Seq<char>)>,
    selected: Option<Seq<char>>,
    page: nat,
    previous: Seq<char>,
    next: Seq<char>,
    kind: Seq<char>,
    session: Seq<char>,
)
    ensures
        pages_entries(items, selected, max_page(items.len()) + 1) == item_options(items, selected),
        page <= max_page(items.len()) ==> ({
            let all = paged_options(items, selected, page, previous, next);
            let before: int = if max_page(items.len()) > 0 && page > 0 { 1 } else { 0 };
            let after: int = if max_page(items.len()) > 0 && page < max_page(items.len()) { 1 } else { 0 };
            &&& all == all.take(before) + page_entries(items, selected, page) + all.skip(all.len() - after)
            &&& forall|k: int| 0 <= k < before ==> (#[trigger] all[k]).value[0] == '>'
            &&& forall|k: int| all.len() - after <= k < all.len() ==> (#[trigger] all[k]).value[0] == '>'
        }),
        page >= max_page(items.len()) ==> category_list_row(kind, session, items, selected, page)
            == category_list_row(kind, session, items, selected, max_page(items.len())),
{
    let m = max_page(items.len());
    if m == 0 {
        assert(pages_entries(items, selected, 0) =~= Seq::<SelectOptionView>::empty());
        assert(pages_entries(items, selected, 1) =~= item_options(items, selected));
    } else {
        lemma_pages_entries_prefix(items, selected, m + 1);
        assert((m + 1) * 23 >= items.len()) by (nonlinear_arith)
            requires m == ((items.len() - 1) as nat) / 23, items.len() > 25;
        assert(items.subrange(0, items.len() as int) =~= items);
    }
    if page <= m {
        let all = paged_options(items, selected, page, previous, next);
        let before: int = if m > 0 && page > 0 { 1 } else { 0 };
        let after: int = if m > 0 && page < m { 1 } else { 0 };
        if m > 0 {
            reveal_strlit(">");
            assert(all =~= all.take(before) + page_entries(items, selected, page) + all.skip(all.len() - after));
        } else {
            assert(all =~= all.take(before) + page_entries(items, selected, page) + all.skip(all.len() - after));
        }
    }
}

/// The view of (value, label) pairs.
pub open spec fn pairs_view(v: Seq<(String, String)>) -> Seq<(Seq<char>, Seq<char>)> {
    v.map_values(|p: (String, String)| (p.0@, p.1@))
}

fn page_link(page: usize) -> (res: String)
    ensures
        res@ == page_link_value(page as nat),
{
    let d = decimal_string(page as u64);
    proof {
        reveal_strlit(">");
        assert(">"@ =~= seq!['>']);
    }
    concat2(">", d.as_str())
}

fn item_option(value: &String, label: &String, selected: &Option<String>) -> (res: SelectOption)
    ensures
        res@ == (SelectOptionView { default: opt_view(*selected) == Some(value@), description: None, label: label@, value: value@ }),
{
    let default = match selected {
        Some(s) => *s == *value,
        None => false,
    };
    SelectOption { default, description: None, label: label.clone(), value: value.clone() }
}

fn push_items(
    out: &mut Vec<SelectOption>,
    items: &Vec<(String, String)>,
    selected: &Option<String>,
    start: usize,
    end: usize,
)
    requires
        start <= end <= items.len(),
    ensures
        options_view(final(out)@) == options_view(old(out)@) + item_options(pairs_view(items@).subrange(start as int, end as int), opt_view(*selected)),
{
    let ghost base = options_view(out@);
    let mut i: usize = start;
    while i < end
        invariant
            start <= i <= end <= items.len(),
            options_view(out@) == base + item_options(pairs_view(items@).subrange(start as int, i as int), opt_view(*selected)),
        decreases end - i,
    {
        let o = item_option(&items[i].0, &items[i].1, selected);
        let ghost prev = out@;
        out.push(o);
        proof {
            assert(options_view(out@) =~= options_view(prev).push(o@));
            assert(pairs_view(items@).subrange(start as int, i + 1) =~= pairs_view(items@).subrange(start as int, i as int).push(pairs_view(items@)[i as int]));
            assert(item_options(pairs_view(items@).subrange(start as int, i + 1), opt_view(*selected)) =~=
                item_options(pairs_view(items@).subrange(start as int, i as int), opt_view(*selected)).push(o@));
        }
        i = i + 1;
    }
}

/// The entries of page `page` of a paged menu over `items` (see `paged_options`).
pub fn paged_select_options(
    items: &Vec<(String, String)>,
    selected: &Option<String>,
    page: usize,
    previous_description: &str,
    next_description: &str,
) -> (res: Vec<SelectOption>)
    requires
        page <= usize::MAX / 23,
    ensures
        options_view(res@) == paged_options(pairs_view(items@), opt_view(*selected), page as nat, previous_description@, next_description@),
{
    let n = items.len();
    let last = last_page(n);
    let mut out: Vec<SelectOption> = Vec::new();
    if last == 0 {
        push_items(&mut out, items, selected, 0, n);
        assert(pairs_view(items@).subrange(0, n as int) =~= pairs_view(items@));
        assert(options_view(out@) =~= item_options(pairs_view(items@), opt_view(*selected)));
        return out;
    }
    if page > 0 {
        out.push(SelectOption {
            default: false,
            description: Some(owned(previous_description)),
            label: owned("Previous Page"),
            value: page_link(page - 1),
        });
    }
    let ghost before = options_view(out@);
    let start = if page * 23 <= n { page * 23 } else { n };
    let end = if n >= 23 && start <= n - 23 { start + 23 } else { n };
    push_items(&mut out, items, selected, start, end);
    let ghost middle = options_view(out@);
    if page < last {
        out.push(SelectOption {
            default: false,
            description: Some(owned(next_description)),
            label: owned("Next Page"),
            value: page_link(page + 1),
        });
        assert(options_view(out@) =~= middle.push(options_view(out@).last()));
    }
    proof {
        let p = paged_options(pairs_view(items@), opt_view(*selected), page as nat, previous_description@, next_description@);
        if page > 0 {
            assert(before =~= seq![before[0]]);
        } else {
            assert(before =~= Seq::<SelectOptionView>::empty());
        }
        assert(options_view(out@) =~= p);
    }
    out
}

/// A text menu with custom ID `custom_id`, entries `options` and placeholder `placeholder`.
pub open spec fn text_menu(custom_id: Seq<char>, options: Seq<SelectOptionView>, placeholder: Seq<char>) -> ComponentView {
    ComponentView::SelectMenu(SelectMenuView { custom_id, kind: SelectMenuKind::Text, options: Some(options), placeholder })
}

/// A button.
pub open spec fn button(custom_id: Seq<char>, label: Seq<char>, style: ButtonStyle, disabled: bool) -> ComponentView {
    ComponentView::Button(ButtonView { custom_id, label, style, disabled })
}

fn text_menu_row(custom_id: String, options: Vec<SelectOption>, placeholder: &str) -> (r: ActionRow)
    ensures
        r@ == single(text_menu(custom_id@, options_view(options@), placeholder@)),
{
    single_row(Component::SelectMenu(SelectMenu {
        custom_id,
        kind: SelectMenuKind::Text,
        options: Some(options),
        placeholder: owned(placeholder),
    }))
}

fn button_row(custom_id: String, label: &str, style: ButtonStyle, disabled: bool) -> (r: ActionRow)
    ensures
        r@ == single(button(custom_id@, label@, style, disabled)),
{
    single_row(Component::Button(Button { custom_id, label: owned(label), style, disabled }))
}

/// The custom ID `settings/{kind}/{session}/{part}` of a settings form component.
pub open spec fn settings_id(kind: Seq<char>, session: Seq<char>, part: Seq<char>) -> Seq<char> {
    "settings/"@ + kind + "/"@ + session + "/"@ + part
}

fn settings_custom_id(kind: &str, session: &str, part: &str) -> (res: String)
    ensures
        res@ == settings_id(kind@, session@, part@),
{
    let a = concat5("settings/", kind, "/", session, "/");
    concat2(a.as_str(), part)
}

/// The menu of custom categories of a settings form of kind `kind` (see
/// `custom_category_list_component`).
pub open spec fn category_list_row(
    kind: Seq<char>,
    session: Seq<char>,
    categories: Seq<(Seq<char>, Seq<char>)>,
    selected: Option<Seq<char>>,
    page: nat,
) -> Seq<ComponentView> {
    let p = if page <= max_page(categories.len()) { page } else { max_page(categories.len()) };
    single(text_menu(
        settings_id(kind, session, "category"@),
        paged_options(categories, selected, p, "See the previous page of categories"@, "See the next page of categories"@),
        "Category"@,
    ))
}

/// Creates the menu of a list of custom categories (given as (ID, name) pairs), showing
/// the requested page or the last page when fewer pages exist.
///
/// Assumes that there are categories in the list. If the list is empty, this creates a
/// menu that Discord rejects as invalid (due to having no options).
pub fn custom_category_list_component(
    interaction_type_name: &str,
    session_id: &str,
    category_list: &Vec<(String, String)>,
    selected_category_id: &Option<String>,
    category_page: usize,
) -> (res: ActionRow)
    ensures
        res@ == category_list_row(interaction_type_name@, session_id@, pairs_view(category_list@), opt_view(*selected_category_id), category_page as nat),
{
    let last = last_page(category_list.len());
    let page = if category_page <= last { category_page } else { last };
    let options = paged_select_options(
        category_list,
        selected_category_id,
        page,
        "See the previous page of categories",
        "See the next page of categories",
    );
    text_menu_row(settings_custom_id(interaction_type_name, session_id, "category"), options, "Category")
}

/// The rows of a form association session of kind `kind` (see
/// `ticket_form_association_components`).
pub open spec fn form_association_rows(
    kind: Seq<char>,
    session: Seq<char>,
    forms: Seq<(Seq<char>, Seq<char>)>,
    selected: Option<Seq<char>>,
    page: nat,
) -> Seq<Seq<ComponentView>> {
    if forms.len() == 0 {
        Seq::empty()
    } else {
        let p = if page >= max_page(forms.len()) { page } else { max_page(forms.len()) };
        seq![
            single(text_menu(
                settings_id(kind, session, "form"@),
                paged_options(forms, selected, p, "See the previous page of forms"@, "See next page of forms"@),
                "Form"@,
            )),
            single(button(settings_id(kind, session, "submit"@), "Set Form"@, ButtonStyle::Primary, selected is None)),
        ]
    }
}

/// The form menu and submit button of a session that associates a form (given as (ID,
/// title) pairs) with a built-in ticket category; nothing when there are no forms. The
/// page shown is the requested page or the last page, whichever is later.
pub fn ticket_form_association_components(
    interaction_type_name: &str,
    session_id: &str,
    form_list: &Vec<(String, String)>,
    selected_id: &Option<String>,
    page_number: usize,
) -> (res: Vec<ActionRow>)
    requires
        page_number <= usize::MAX / 23,
    ensures
        rows_view(res@) == form_association_rows(interaction_type_name@, session_id@, pairs_view(form_list@), opt_view(*selected_id), page_number as nat),
{
    let mut rows: Vec<ActionRow> = Vec::new();
    if form_list.len() == 0 {
        assert(rows_view(rows@) =~= Seq::<Seq<ComponentView>>::empty());
        return rows;
    }
    let last = last_page(form_list.len());
    let page = if page_number >= last { page_number } else { last };
    let options = paged_select_options(form_list, selected_id, page, "See the previous page of forms", "See next page of forms");
    rows.push(text_menu_row(settings_custom_id(interaction_type_name, session_id, "form"), options, "Form"));
    rows.push(button_row(settings_custom_id(interaction_type_name, session_id, "submit"), "Set Form", ButtonStyle::Primary, selected_id.is_none()));
    assert(rows_view(rows@) =~= form_association_rows(interaction_type_name@, session_id@, pairs_view(form_list@), opt_view(*selected_id), page_number as nat));
    rows
}

/// The first form menu of `/settings ban_appeal_ticket form_set` for session `session`
/// over `forms` (ID, title): the first page of forms under custom ID `{session}/form`,
/// and the disabled "Select Form" button under custom ID `{session}/confirm`.
pub open spec fn form_choice_rows(session: Seq<char>, forms: Seq<(Seq<char>, Seq<char>)>) -> Seq<Seq<ComponentView>> {
    seq![
        single(text_menu(
            session + "/form"@,
            paged_options(forms, None, 0, "See the previous page of forms"@, "See next page of forms"@),
            "Form"@,
        )),
        single(button(session + "/confirm"@, "Select Form"@, ButtonStyle::Primary, true)),
    ]
}

/// The first form menu of the ban appeal form choice (see `form_choice_rows`).
pub fn form_choice_components(session_id: &str, form_list: &Vec<(String, String)>) -> (res: Vec<ActionRow>)
    ensures
        rows_view(res@) == form_choice_rows(session_id@, pairs_view(form_list@)),
{
    let options = paged_select_options(form_list, &None, 0, "See the previous page of forms", "See next page of forms");
    let mut rows: Vec<ActionRow> = Vec::new();
    rows.push(text_menu_row(concat2(session_id, "/form"), options, "Form"));
    rows.push(button_row(concat2(session_id, "/confirm"), "Select Form", ButtonStyle::Primary, true));
    assert(rows_view(rows@) =~= form_choice_rows(session_id@, pairs_view(form_list@)));
    rows
}

/// The components of the session that associates a form with the ban appeal category.
pub fn form_association_components(
    session_id: &str,
    form_list: &Vec<(String, String)>,
    selected_id: &Option<String>,
    page_number: usize,
) -> (res: Vec<ActionRow>)
    requires
        page_number <= usize::MAX / 23,
    ensures
        rows_view(res@) == form_association_rows("ban_appeal_ticket_form_set"@, session_id@, pairs_view(form_list@), opt_view(*selected_id), page_number as nat),
{
    ticket_form_association_components("ban_appeal_ticket_form_set", session_id, form_list, selected_id, page_number)
}

/// The components of the session that associates a form with the existing partner category.
pub fn existing_partner_form_association_components(
    session_id: &str,
    form_list: &Vec<(String, String)>,
    selected_id: &Option<String>,
    page_number: usize,
) -> (res: Vec<ActionRow>)
    requires
        page_number <= usize::MAX / 23,
    ensures
        rows_view(res@) == form_association_rows("existing_partner_ticket_form_set"@, session_id@, pairs_view(form_list@), opt_view(*selected_id), page_number as nat),
{
    ticket_form_association_components("existing_partner_ticket_form_set", session_id, form_list, selected_id, page_number)
}

/// The components of the session that shows the form of a custom category: the category
/// menu, or nothing when there are no categories.
pub fn custom_category_form_retrieval_components(
    session_id: &str,
    category_list: &Vec<(String, String)>,
    selected_id: &Option<String>,
    current_page: usize,
) -> (res: Vec<ActionRow>)
    ensures
        rows_view(res@) == if category_list@.len() == 0 {
            Seq::<Seq<ComponentView>>::empty()
        } else {
            seq![category_list_row("custom_categories_form_get"@, session_id@, pairs_view(category_list@), opt_view(*selected_id), current_page as nat)]
        },
{
    let mut rows: Vec<ActionRow> = Vec::new();
    if category_list.len() == 0 {
        assert(rows_view(rows@) =~= Seq::<Seq<ComponentView>>::empty());
        return rows;
    }
    rows.push(custom_category_list_component("custom_categories_form_get", session_id, category_list, selected_id, current_page));
    assert(rows_view(rows@) =~= seq![rows@[0]@]);
    rows
}

/// The components of the session that removes the form of a custom category: the
/// category menu and the submit button, or nothing when there are no categories.
pub fn custom_category_form_removal_components(
    session_id: &str,
    category_list: &Vec<(String, String)>,
    selected_id: &Option<String>,
    current_page: usize,
) -> (res: Vec<ActionRow>)
    ensures
        rows_view(res@) == if category_list@.len() == 0 {
            Seq::<Seq<ComponentView>>::empty()
        } else {
            seq![
                category_list_row("custom_categories_form_unset"@, session_id@, pairs_view(category_list@), opt_view(*selected_id), current_page as nat),
                single(button(settings_id("custom_categories_form_unset"@, session_id@, "submit"@), "Remove Form"@, ButtonStyle::Primary, selected_id is None)),
            ]
        },
{
    let mut rows: Vec<ActionRow> = Vec::new();
    if category_list.len() == 0 {
        assert(rows_view(rows@) =~= Seq::<Seq<ComponentView>>::empty());
        return rows;
    }
    rows.push(custom_category_list_component("custom_categories_form_unset", session_id, category_list, selected_id, current_page));
    rows.push(button_row(settings_custom_id("custom_categories_form_unset", session_id, "submit"), "Remove Form", ButtonStyle::Primary, selected_id.is_none()));
    assert(rows_view(rows@) =~= seq![rows@[0]@, rows@[1]@]);
    rows
}

/// The rows of the session that associates a form with a custom category.
pub open spec fn category_form_rows(
    session: Seq<char>,
    categories: Seq<(Seq<char>, Seq<char>)>,
    selected_category: Option<Seq<char>>,
    category_page: nat,
    forms: Seq<(Seq<char>, Seq<char>)>,
    selected_form: Option<Seq<char>>,
    form_page: nat,
) -> Seq<Seq<ComponentView>> {
    if categories.len() == 0 || forms.len() == 0 {
        Seq::empty()
    } else {
        let p = if form_page <= max_page(forms.len()) { form_page } else { max_page(forms.len()) };
        seq![
            category_list_row("custom_categories_form_set"@, session, categories, selected_category, category_page),
            single(text_menu(
                settings_id("custom_categories_form_set"@, session, "form"@),
                paged_options(forms, selected_form, p, "See the previous page of forms"@, "See the next page of forms"@),
                "Form"@,
            )),
            single(button(
                settings_id("custom_categories_form_set"@, session, "submit"@),
                "Set Form"@,
                ButtonStyle::Primary,
                selected_category is None || selected_form is None,
            )),
        ]
    }
}

/// The components of the session that associates a form with a custom category: the
/// category menu, the form menu (requested page, or the last page when fewer exist) and
/// the submit button; nothing when there are no categories or no forms.
pub fn custom_category_form_association_components(
    session_id: &str,
    category_list: &Vec<(String, String)>,
    selected_category_id: &Option<String>,
    category_page: usize,
    form_list: &Vec<(String, String)>,
    selected_form_id: &Option<String>,
    form_page: usize,
) -> (res: Vec<ActionRow>)
    ensures
        rows_view(res@) == category_form_rows(
            session_id@,
            pairs_view(category_list@),
            opt_view(*selected_category_id),
            category_page as nat,
            pairs_view(form_list@),
            opt_view(*selected_form_id),
            form_page as nat,
        ),
{
    let mut rows: Vec<ActionRow> = Vec::new();
    if category_list.len() == 0 || form_list.len() == 0 {
        assert(rows_view(rows@) =~= Seq::<Seq<ComponentView>>::empty());
        return rows;
    }
    let last = last_page(form_list.len());
    let page = if form_page <= last { form_page } else { last };
    let form_options = paged_select_options(form_list, selected_form_id, page, "See the previous page of forms", "See the next page of forms");
    rows.push(custom_category_list_component("custom_categories_form_set", session_id, category_list, selected_category_id, category_page));
    rows.push(text_menu_row(settings_custom_id("custom_categories_form_set", session_id, "form"), form_options, "Form"));
    rows.push(button_row(
        settings_custom_id("custom_categories_form_set", session_id, "submit"),
        "Set Form",
        ButtonStyle::Primary,
        selected_category_id.is_none() || selected_form_id.is_none(),
    ));
    assert(rows_view(rows@) =~= seq![rows@[0]@, rows@[1]@, rows@[2]@]);
    rows
}

// ---------------------------------------------------------------------------------
// Setup form, ticket buttons and the ticket category menu
// ---------------------------------------------------------------------------------

/// A role menu with custom ID `custom_id` and placeholder `placeholder`.
pub open spec fn role_menu(custom_id: Seq<char>, placeholder: Seq<char>) -> ComponentView {
    ComponentView::SelectMenu(SelectMenuView { custom_id, kind: SelectMenuKind::Role, options: None, placeholder })
}

/// The custom ID `setup/{session}/{part}` of a setup form component.
pub open spec fn setup_component_id(session: Seq<char>, part: Seq<char>) -> Seq<char> {
    "setup/"@ + session + "/"@ + part
}

/// The rows of the setup form.
pub open spec fn setup_rows(session: Seq<char>, confirm_disabled: bool) -> Seq<Seq<ComponentView>> {
    seq![
        single(role_menu(setup_component_id(session, "admin_role"@), "Admin Role"@)),
        single(role_menu(setup_component_id(session, "staff_role"@), "Staff Role"@)),
        seq![
            button(setup_component_id(session, "confirm"@), "Set Up!"@, ButtonStyle::Primary, confirm_disabled),
            button(setup_component_id(session, "cancel"@), "Cancel"@, ButtonStyle::Secondary, false),
        ],
    ]
}

fn role_menu_row(custom_id: String, placeholder: &str) -> (r: ActionRow)
    ensures
        r@ == single(role_menu(custom_id@, placeholder@)),
{
    single_row(Component::SelectMenu(SelectMenu { custom_id, kind: SelectMenuKind::Role, options: None, placeholder: owned(placeholder) }))
}

/// The setup form: the admin role menu, the staff role menu, and the confirm and cancel
/// buttons of setup session `setup_id`.
pub fn set_up_components(setup_id: &str, confirm_button_disabled: bool) -> (res: Vec<ActionRow>)
    ensures
        rows_view(res@) == setup_rows(setup_id@, confirm_button_disabled),
{
    let admin_role_select_id = concat3("setup/", setup_id, "/admin_role");
    let staff_role_select_id = concat3("setup/", setup_id, "/staff_role");
    let set_up_button_id = concat3("setup/", setup_id, "/confirm");
    let cancel_button_id = concat3("setup/", setup_id, "/cancel");
    proof {
        reveal_strlit("/admin_role");
        reveal_strlit("/staff_role");
        reveal_strlit("/confirm");
        reveal_strlit("/cancel");
        reveal_strlit("/");
        reveal_strlit("admin_role");
        reveal_strlit("staff_role");
        reveal_strlit("confirm");
        reveal_strlit("cancel");
        assert("/admin_role"@ =~= "/"@ + "admin_role"@);
        assert("/staff_role"@ =~= "/"@ + "staff_role"@);
        assert("/confirm"@ =~= "/"@ + "confirm"@);
        assert("/cancel"@ =~= "/"@ + "cancel"@);
        assert(admin_role_select_id@ =~= setup_component_id(setup_id@, "admin_role"@));
        assert(staff_role_select_id@ =~= setup_component_id(setup_id@, "staff_role"@));
        assert(set_up_button_id@ =~= setup_component_id(setup_id@, "confirm"@));
        assert(cancel_button_id@ =~= setup_component_id(setup_id@, "cancel"@));
    }
    let mut rows: Vec<ActionRow> = Vec::new();
    rows.push(role_menu_row(admin_role_select_id, "Admin Role"));
    rows.push(role_menu_row(staff_role_select_id, "Staff Role"));
    let mut buttons: Vec<Component> = Vec::new();
    buttons.push(Component::Button(Button { label: owned("Set Up!"), style: ButtonStyle::Primary, custom_id: set_up_button_id, disabled: confirm_button_disabled }));
    buttons.push(Component::Button(Button { label: owned("Cancel"), style: ButtonStyle::Secondary, custom_id: cancel_button_id, disabled: false }));
    let buttons_row = ActionRow { components: buttons };
    assert(buttons_row@ =~= seq![buttons_row.components@[0]@, buttons_row.components@[1]@]);
    rows.push(buttons_row);
    assert(rows_view(rows@) =~= setup_rows(setup_id@, confirm_button_disabled));
    rows
}

/// The row with the "Create Ticket" button of the start ticket message.
pub fn new_ticket_button() -> (res: ActionRow)
    ensures
        res@ == single(button("create_ticket"@, "Create Ticket"@, ButtonStyle::Primary, false)),
{
    button_row(owned("create_ticket"), "Create Ticket", ButtonStyle::Primary, false)
}

/// The custom ID `create_ticket/{session}/{part}` of a ticket creation component.
pub open spec fn create_ticket_id(session: Seq<char>, part: Seq<char>) -> Seq<char> {
    "create_ticket/"@ + session + "/"@ + part
}

/// The ticket category menu over `categories` (value, label), with `selected` marked as
/// chosen, and the button that confirms the choice.
pub open spec fn category_select_rows(
    session: Seq<char>,
    categories: Seq<(Seq<char>, Seq<char>)>,
    create_button_disabled: bool,
    selected: Option<Seq<char>>,
) -> Seq<Seq<ComponentView>> {
    seq![
        single(text_menu(create_ticket_id(session, "set_category"@), item_options(categories, selected), "Ticket category"@)),
        single(button(create_ticket_id(session, "confirm_category"@), "Create Ticket"@, ButtonStyle::Primary, create_button_disabled)),
    ]
}

/// The category menu of ticket creation session `create_id` (see `category_select_rows`).
pub fn category_select_components(
    create_id: &str,
    available_ticket_categories: &Vec<(String, String)>,
    create_button_disabled: bool,
    selected_category_id: &Option<String>,
) -> (res: Vec<ActionRow>)
    ensures
        rows_view(res@) == category_select_rows(create_id@, pairs_view(available_ticket_categories@), create_button_disabled, opt_view(*selected_category_id)),
{
    let mut options: Vec<SelectOption> = Vec::new();
    push_items(&mut options, available_ticket_categories, selected_category_id, 0, available_ticket_categories.len());
    assert(pairs_view(available_ticket_categories@).subrange(0, available_ticket_categories@.len() as int) =~= pairs_view(available_ticket_categories@));
    let menu_id = concat3("create_ticket/", create_id, "/set_category");
    let button_id = concat3("create_ticket/", create_id, "/confirm_category");
    proof {
        reveal_strlit("/set_category");
        reveal_strlit("/confirm_category");
        reveal_strlit("/");
        reveal_strlit("set_category");
        reveal_strlit("confirm_category");
        assert("/set_category"@ =~= "/"@ + "set_category"@);
        assert("/confirm_category"@ =~= "/"@ + "confirm_category"@);
        assert(menu_id@ =~= create_ticket_id(create_id@, "set_category"@));
        assert(button_id@ =~= create_ticket_id(create_id@, "confirm_category"@));
    }
    let mut rows: Vec<ActionRow> = Vec::new();
    rows.push(text_menu_row(menu_id, options, "Ticket category"));
    rows.push(button_row(button_id, "Create Ticket", ButtonStyle::Primary, create_button_disabled));
    assert(rows_view(rows@) =~= category_select_rows(create_id@, pairs_view(available_ticket_categories@), create_button_disabled, opt_view(*selected_category_id)));
    rows
}

// ---------------------------------------------------------------------------------
// Modals
// ---------------------------------------------------------------------------------

/// The view of an optional list of (ID, question) pairs.
pub open spec fn questions_view(o: Option<Vec<(String, String)>>) -> Option<Seq<(Seq<char>, Seq<char>)>> {
    match o {
        Some(qs) => Some(pairs_view(qs@)),
        None => None,
    }
}

/// A modal: its custom ID, its title and its rows of text inputs.
#[derive(Debug)]
pub struct Modal {
    pub custom_id: String,
    pub title: String,
    pub rows: Vec<ActionRow>,
}

/// A required text input without length limits, placeholder or prefilled text.
pub open spec fn plain_input(custom_id: Seq<char>, label: Seq<char>, style: TextInputStyle, value: Option<Seq<char>>) -> ComponentView {
    ComponentView::TextInput(TextInputView {
        custom_id,
        label,
        max_length: None,
        min_length: None,
        placeholder: None,
        required: true,
        style,
        value,
    })
}

/// The input for a new partner's invite URL.
pub open spec fn invite_input() -> ComponentView {
    ComponentView::TextInput(TextInputView {
        custom_id: "invite_url"@,
        label: "Server invite URL"@,
        max_length: None,
        min_length: Some(10),
        placeholder: Some("Invite URL"@),
        required: true,
        style: TextInputStyle::Short,
        value: None,
    })
}

/// The input for a ticket's title.
pub open spec fn title_input() -> ComponentView {
    ComponentView::TextInput(TextInputView {
        custom_id: "title"@,
        label: "Ticket Title"@,
        max_length: Some(60),
        min_length: None,
        placeholder: Some("Title"@),
        required: true,
        style: TextInputStyle::Short,
        value: None,
    })
}

/// The input for a ticket's message, filled with `value`.
pub open spec fn body_input(value: Option<Seq<char>>) -> ComponentView {
    plain_input("body"@, "Message"@, TextInputStyle::Paragraph, value)
}

/// One input row per form question (ID, question).
pub open spec fn question_rows(questions: Seq<(Seq<char>, Seq<char>)>) -> Seq<Seq<ComponentView>> {
    questions.map_values(|q: (Seq<char>, Seq<char>)| single(plain_input("question/"@ + q.0, q.1, TextInputStyle::Paragraph, None)))
}

/// The message input's prefilled text when the questions do not get inputs of their
/// own: each question in bold, followed by room for the answer.
pub open spec fn questions_template(questions: Seq<(Seq<char>, Seq<char>)>) -> Seq<char>
    decreases questions.len(),
{
    if questions.len() == 0 {
        Seq::empty()
    } else {
        questions_template(questions.drop_last()) + "**"@ + escape_asterisks(questions.last().1) + "**\n\n\n"@
    }
}

/// How many form questions get inputs of their own: one fewer for new partner tickets,
/// whose modal also asks for the invite URL.
pub open spec fn max_separate_questions(new_partner: bool) -> nat {
    if new_partner { 3 } else { 4 }
}

/// The rows of the ticket modal: the invite URL input for new partner tickets, the title
/// input, then one input per form question when the form has few enough questions, or
/// else the message input prefilled with the questions; the plain message input when the
/// category has no form.
pub open spec fn ticket_modal_rows(new_partner: bool, questions: Option<Seq<(Seq<char>, Seq<char>)>>) -> Seq<Seq<ComponentView>> {
    let head = if new_partner { seq![single(invite_input())] } else { Seq::empty() };
    let tail = match questions {
        Some(qs) => if qs.len() <= max_separate_questions(new_partner) {
            question_rows(qs)
        } else {
            seq![single(body_input(Some(questions_template(qs))))]
        },
        None => seq![single(body_input(None))],
    };
    head + seq![single(title_input())] + tail
}

/// When a form's questions get inputs of their own, the modal holds, after the title
/// input (and, for new partners, the invite input before it), one required paragraph
/// input per question, in form order: the input for question (ID, text) is identified by
/// `question/` and the ID and labelled with the question's own text, and it starts empty.
pub proof fn questions_get_their_own_inputs(new_partner: bool, qs: Seq<(Seq<char>, Seq<char>)>, k: int)
    requires
        qs.len() <= max_separate_questions(new_partner),
        0 <= k < qs.len(),
    ensures
        max_separate_questions(new_partner) == if new_partner { 3nat } else { 4nat },
        ({
            let rows = ticket_modal_rows(new_partner, Some(qs));
            let before: int = if new_partner { 2 } else { 1 };
            &&& rows.len() == qs.len() + before
            &&& rows[before - 1] == seq![title_input()]
            &&& rows[k + before].len() == 1
            &&& rows[k + before][0] == ComponentView::TextInput(TextInputView {
                custom_id: "question/"@ + qs[k].0,
                label: qs[k].1,
                max_length: None,
                min_length: None,
                placeholder: None,
                required: true,
                style: TextInputStyle::Paragraph,
                value: None,
            })
        }),
{
}

fn plain_input_row(custom_id: String, label: String, value: Option<String>) -> (r: ActionRow)
    ensures
        r@ == single(plain_input(custom_id@, label@, TextInputStyle::Paragraph, opt_view(value))),
{
    single_row(Component::TextInput(TextInput {
        custom_id,
        label,
        max_length: None,
        min_length: None,
        placeholder: None,
        required: true,
        style: TextInputStyle::Paragraph,
        value,
    }))
}

/// The rows of the modal in which a ticket of the chosen category is written (see
/// `ticket_modal_rows`); `form_questions` holds the (ID, question) pairs of the
/// category's form in form order, when the category has a form.
pub fn ticket_modal_components(new_partner: bool, form_questions: &Option<Vec<(String, String)>>) -> (res: Vec<ActionRow>)
    ensures
        rows_view(res@) == ticket_modal_rows(new_partner, questions_view(*form_questions)),
{
    let mut rows: Vec<ActionRow> = Vec::new();
    if new_partner {
        rows.push(single_row(Component::TextInput(TextInput {
            custom_id: owned("invite_url"),
            label: owned("Server invite URL"),
            max_length: None,
            min_length: Some(10),
            placeholder: Some(owned("Invite URL")),
            required: true,
            style: TextInputStyle::Short,
            value: None,
        })));
    }
    rows.push(single_row(Component::TextInput(TextInput {
        custom_id: owned("title"),
        label: owned("Ticket Title"),
        max_length: Some(60),
        min_length: None,
        placeholder: Some(owned("Title")),
        required: true,
        style: TextInputStyle::Short,
        value: None,
    })));
    let ghost head = rows_view(rows@);
    assert(head =~= (if new_partner { seq![single(invite_input())] } else { Seq::empty() }) + seq![single(title_input())]);
    match form_questions {
        Some(qs) => {
            let max_separate: usize = if new_partner { 3 } else { 4 };
            if qs.len() <= max_separate {
                let mut i: usize = 0;
                while i < qs.len()
                    invariant
                        i <= qs.len(),
                        rows_view(rows@) == head + question_rows(pairs_view(qs@).take(i as int)),
                    decreases qs.len() - i,
                {
                    let id = concat2("question/", qs[i].0.as_str());
                    let ghost prev = rows_view(rows@);
                    rows.push(plain_input_row(id, qs[i].1.clone(), None));
                    proof {
                        assert(pairs_view(qs@).take(i + 1) =~= pairs_view(qs@).take(i as int).push(pairs_view(qs@)[i as int]));
                        assert(question_rows(pairs_view(qs@).take(i + 1)) =~= question_rows(pairs_view(qs@).take(i as int)).push(rows@.last()@));
                        assert(rows_view(rows@) =~= prev.push(rows@.last()@));
                    }
                    i = i + 1;
                }
                assert(pairs_view(qs@).take(qs.len() as int) =~= pairs_view(qs@));
            } else {
                let mut body = String::new();
                let mut i: usize = 0;
                while i < qs.len()
                    invariant
                        i <= qs.len(),
                        body@ == questions_template(pairs_view(qs@).take(i as int)),
                    decreases qs.len() - i,
                {
                    let question = escape_markdown_asterisks(qs[i].1.as_str());
                    proof {
                        assert(pairs_view(qs@).take(i + 1).drop_last() =~= pairs_view(qs@).take(i as int));
                        assert(pairs_view(qs@).take(i + 1).last() == pairs_view(qs@)[i as int]);
                    }
                    body.append("**");
                    body.append(question.as_str());
                    body.append("**\n\n\n");
                    i = i + 1;
                }
                assert(pairs_view(qs@).take(qs.len() as int) =~= pairs_view(qs@));
                let ghost prev = rows_view(rows@);
                rows.push(plain_input_row(owned("body"), owned("Message"), Some(body)));
                assert(rows_view(rows@) =~= prev.push(rows@.last()@));
            }
        },
        None => {
            let ghost prev = rows_view(rows@);
            rows.push(plain_input_row(owned("body"), owned("Message"), None));
            assert(rows_view(rows@) =~= prev.push(rows@.last()@));
        },
    }
    proof {
        let target = ticket_modal_rows(new_partner, questions_view(*form_questions));
        assert(rows_view(rows@) =~= target);
    }
    rows
}

/// The modal in which a ticket of category `category_name` is written in ticket creation
/// session `create_id`.
pub fn ticket_modal(create_id: &str, category_name: &str, new_partner: bool, form_questions: &Option<Vec<(String, String)>>) -> (res: Modal)
    ensures
        res.custom_id@ == create_ticket_id(create_id@, "message"@),
        res.title@ == "Create Ticket - "@ + category_name@,
        rows_view(res.rows@) == ticket_modal_rows(new_partner, questions_view(*form_questions)),
{
    let custom_id = concat3("create_ticket/", create_id, "/message");
    proof {
        reveal_strlit("/message");
        reveal_strlit("/");
        reveal_strlit("message");
        assert("/message"@ =~= "/"@ + "message"@);
        assert(custom_id@ =~= create_ticket_id(create_id@, "message"@));
    }
    Modal { custom_id, title: concat2("Create Ticket - ", category_name), rows: ticket_modal_components(new_partner, form_questions) }
}

/// The modal in which a staff member writes a reply in reply session `reply_id`.
pub fn reply_modal(reply_id: &str) -> (res: Modal)
    ensures
        res.custom_id@ == "reply/"@ + reply_id@ + "/message"@,
        res.title@ == "Ticket Reply"@,
        rows_view(res.rows@) == seq![single(body_input(None))],
{
    let mut rows: Vec<ActionRow> = Vec::new();
    rows.push(plain_input_row(owned("body"), owned("Message"), None));
    assert(rows_view(rows@) =~= seq![single(body_input(None))]);
    Modal { custom_id: concat3("reply/", reply_id, "/message"), title: owned("Ticket Reply"), rows }
}

} // verus!
