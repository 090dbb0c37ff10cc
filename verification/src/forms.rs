//! The settings sessions that pick forms for ticket categories: paged menus of
//! categories and forms, the choices made in them, and the answers they end with.
use vstd::prelude::*;
use crate::category::CustomCategory;
use crate::components::pairs_view;
use crate::session::SessionStore;
use crate::components::page_link_value;
use crate::setup::{parse_reads_decimal, parse_u64, parse_u64_spec};
use crate::text::{chars_of, concat5, escape_backticks, escape_markdown_backticks, opt_view, owned, string_of, suffix_from};

verus! {

/// A form that tickets are written with.
#[derive(Clone, Debug)]
pub struct Form {
    pub id: String,
    pub title: String,
}

/// The (ID, title) menu entries of `forms`.
pub open spec fn form_pairs_spec(forms: Seq<Form>) -> Seq<(Seq<char>, Seq<char>)> {
    forms.map_values(|f: Form| (f.id@, f.title@))
}

/// The (ID, name) menu entries of `categories`.
pub open spec fn category_pairs_spec(categories: Seq<CustomCategory>) -> Seq<(Seq<char>, Seq<char>)> {
    categories.map_values(|c: CustomCategory| (c.id@, c.name@))
}

/// A menu of forms has one entry per form, in the forms' order, whose value is the form's
/// ID and whose label is the form's title; a menu of custom categories likewise shows
/// each category's name under its ID.
pub proof fn menu_entries_show_titles_and_names(forms: Seq<Form>, categories: Seq<CustomCategory>, i: int, j: int)
    ensures
        form_pairs_spec(forms).len() == forms.len(),
        0 <= i < forms.len() ==> form_pairs_spec(forms)[i] == (forms[i].id@, forms[i].title@),
        category_pairs_spec(categories).len() == categories.len(),
        0 <= j < categories.len() ==> category_pairs_spec(categories)[j] == (categories[j].id@, categories[j].name@),
{
}

/// The menu entries of a list of forms.
pub fn form_pairs(forms: &Vec<Form>) -> (res: Vec<(String, String)>)
    ensures
        pairs_view(res@) == form_pairs_spec(forms@),
        res.len() == forms.len(),
        forall|i: int| 0 <= i < forms.len() ==> (#[trigger] res@[i]).0@ == forms@[i].id@ && res@[i].1@ == forms@[i].title@,
{
    let mut res: Vec<(String, String)> = Vec::new();
    let mut i: usize = 0;
    while i < forms.len()
        invariant
            i <= forms.len(),
            pairs_view(res@) == form_pairs_spec(forms@.take(i as int)),
        decreases forms.len() - i,
    {
        let ghost prev = res@;
        res.push((forms[i].id.clone(), forms[i].title.clone()));
        proof {
            assert(forms@.take(i + 1) =~= forms@.take(i as int).push(forms@[i as int]));
            assert(pairs_view(res@) =~= pairs_view(prev).push((forms@[i as int].id@, forms@[i as int].title@)));
            assert(form_pairs_spec(forms@.take(i + 1)) =~= form_pairs_spec(forms@.take(i as int)).push((forms@[i as int].id@, forms@[i as int].title@)));
        }
        i = i + 1;
    }
    assert(forms@.take(forms.len() as int) =~= forms@);
    assert(pairs_view(res@).len() == res@.len());
    assert forall|i: int| 0 <= i < forms.len() implies (#[trigger] res@[i]).0@ == forms@[i].id@ && res@[i].1@ == forms@[i].title@ by {
        assert(pairs_view(res@)[i] == form_pairs_spec(forms@)[i]);
    }
    res
}

/// The menu entries of a list of custom categories.
pub fn category_pairs(categories: &Vec<CustomCategory>) -> (res: Vec<(String, String)>)
    ensures
        pairs_view(res@) == category_pairs_spec(categories@),
        res.len() == categories.len(),
        forall|i: int| 0 <= i < categories.len() ==> (#[trigger] res@[i]).0@ == categories@[i].id@ && res@[i].1@ == categories@[i].name@,
{
    let mut res: Vec<(String, String)> = Vec::new();
    let mut i: usize = 0;
    while i < categories.len()
        invariant
            i <= categories.len(),
            pairs_view(res@) == category_pairs_spec(categories@.take(i as int)),
        decreases categories.len() - i,
    {
        let ghost prev = res@;
        res.push((categories[i].id.clone(), categories[i].name.clone()));
        proof {
            assert(categories@.take(i + 1) =~= categories@.take(i as int).push(categories@[i as int]));
            assert(pairs_view(res@) =~= pairs_view(prev).push((categories@[i as int].id@, categories@[i as int].name@)));
            assert(category_pairs_spec(categories@.take(i + 1)) =~= category_pairs_spec(categories@.take(i as int)).push((categories@[i as int].id@, categories@[i as int].name@)));
        }
        i = i + 1;
    }
    assert(categories@.take(categories.len() as int) =~= categories@);
    assert(pairs_view(res@).len() == res@.len());
    assert forall|i: int| 0 <= i < categories.len() implies (#[trigger] res@[i]).0@ == categories@[i].id@ && res@[i].1@ == categories@[i].name@ by {
        assert(pairs_view(res@)[i] == category_pairs_spec(categories@)[i]);
    }
    res
}

/// What a value chosen in a paged menu stands for.
#[derive(Debug)]
pub enum MenuValue {
    /// A link to another page of the menu.
    Page(usize),
    /// An entry's ID.
    Item(String),
}

/// The value chosen in a paged menu held a page link that is not a page number.
#[derive(Clone, Copy, Debug, PartialEq, Eq, Structural)]
pub struct InvalidPageLink;

/// What the menu value `value` stands for: values starting with `>` link to the page
/// whose number follows; any other value is an entry's ID.
pub open spec fn menu_value_spec(value: Seq<char>) -> Option<Option<nat>> {
    if value.len() > 0 && value[0] == '>' {
        match parse_u64_spec(value.drop_first()) {
            Some(n) => if n <= usize::MAX { Some(Some(n as nat)) } else { None },
            None => None,
        }
    } else {
        Some(None)
    }
}

/// The value of a page link reads back as a link to that page, and a value that does not
/// start with `>` reads as an entry's ID.
pub proof fn page_link_reads_back(page: nat, id: Seq<char>)
    requires
        page <= usize::MAX,
        id.len() == 0 || id[0] != '>',
    ensures
        menu_value_spec(page_link_value(page)) == Some(Some(page)),
        menu_value_spec(id) == Some(None::<nat>),
{
    let v = page_link_value(page);
    assert(v.drop_first() =~= crate::text::decimal(page));
    parse_reads_decimal(page as u64);
}

/// Reads a value chosen in a paged menu (see `menu_value_spec`: the outer `None` there is
/// the refused page link, the inner `None` an entry).
pub fn read_menu_value(value: &str) -> (res: Result<MenuValue, InvalidPageLink>)
    ensures
        match menu_value_spec(value@) {
            None => res is Err,
            Some(None) => res matches Ok(MenuValue::Item(id)) && id@ == value@,
            Some(Some(n)) => res matches Ok(MenuValue::Page(p)) && p == n,
        },
{
    let chars = chars_of(value);
    if chars.len() > 0 && chars[0] == '>' {
        let rest = string_of(suffix_from(&chars, 1).as_slice());
        assert(rest@ =~= value@.drop_first());
        match parse_u64(rest.as_str()) {
            Some(n) => if n <= usize::MAX as u64 {
                Ok(MenuValue::Page(n as usize))
            } else {
                Err(InvalidPageLink)
            },
            None => Err(InvalidPageLink),
        }
    } else {
        Ok(MenuValue::Item(owned(value)))
    }
}

/// A session that associates a form with a custom category.
pub struct CustomCategoryFormAssociationData {
    pub all_categories: Vec<CustomCategory>,
    pub selected_category_id: Option<String>,
    pub current_category_page: usize,
    pub all_forms: Vec<Form>,
    pub selected_form_id: Option<String>,
    pub current_form_page: usize,
}

/// The sessions that associate forms with custom categories.
pub struct CustomCategoryFormAssociations {
    pub sessions: SessionStore<CustomCategoryFormAssociationData>,
}

/// Which menu of the session a value was chosen in.
#[derive(Clone, Copy, Debug, PartialEq, Eq, Structural)]
pub enum FormSessionMenu {
    Category,
    Form,
}

impl CustomCategoryFormAssociationData {
    /// Applies a value chosen in one of the session's menus: a page link turns that
    /// menu's page, an entry becomes that menu's choice.
    pub fn apply_choice(&mut self, menu: FormSessionMenu, value: MenuValue)
        ensures
            final(self).all_categories == old(self).all_categories,
            final(self).all_forms == old(self).all_forms,
            match (menu, value) {
                (FormSessionMenu::Category, MenuValue::Page(p)) => final(self).current_category_page == p
                    && final(self).selected_category_id == old(self).selected_category_id
                    && final(self).current_form_page == old(self).current_form_page
                    && final(self).selected_form_id == old(self).selected_form_id,
                (FormSessionMenu::Category, MenuValue::Item(id)) => final(self).selected_category_id == Some(id)
                    && final(self).current_category_page == old(self).current_category_page
                    && final(self).current_form_page == old(self).current_form_page
                    && final(self).selected_form_id == old(self).selected_form_id,
                (FormSessionMenu::Form, MenuValue::Page(p)) => final(self).current_form_page == p
                    && final(self).selected_form_id == old(self).selected_form_id
                    && final(self).current_category_page == old(self).current_category_page
                    && final(self).selected_category_id == old(self).selected_category_id,
                (FormSessionMenu::Form, MenuValue::Item(id)) => final(self).selected_form_id == Some(id)
                    && final(self).current_form_page == old(self).current_form_page
                    && final(self).current_category_page == old(self).current_category_page
                    && final(self).selected_category_id == old(self).selected_category_id,
            },
    {
        match (menu, value) {
            (FormSessionMenu::Category, MenuValue::Page(p)) => self.current_category_page = p,
            (FormSessionMenu::Category, MenuValue::Item(id)) => self.selected_category_id = Some(id),
            (FormSessionMenu::Form, MenuValue::Page(p)) => self.current_form_page = p,
            (FormSessionMenu::Form, MenuValue::Item(id)) => self.selected_form_id = Some(id),
        }
    }
}

/// What submitting a category form session leads to.
pub enum FormSubmission {
    NoCategory,
    NoForm,
    /// Set the form of this category to this form.
    Assign { category_id: String, form_id: String },
}

/// What submitting a category form session leads to: a category must be chosen first,
/// then a form.
pub fn submit_form_choice(data: CustomCategoryFormAssociationData) -> (res: FormSubmission)
    ensures
        match (data.selected_category_id, data.selected_form_id) {
            (None, _) => res is NoCategory,
            (Some(_), None) => res is NoForm,
            (Some(c), Some(f)) => res matches FormSubmission::Assign { category_id, form_id } && category_id == c && form_id == f,
        },
{
    match (data.selected_category_id, data.selected_form_id) {
        (None, _) => FormSubmission::NoCategory,
        (Some(_), None) => FormSubmission::NoForm,
        (Some(category_id), Some(form_id)) => FormSubmission::Assign { category_id, form_id },
    }
}

/// The answers of the category form sessions.
#[derive(Clone, Copy, Debug, PartialEq, Eq, Structural)]
pub enum FormSessionNotice {
    NoCategory,
    NoForm,
    UpdateFailed,
    LookupFailed,
}

/// The text of an answer of the category form sessions.
pub open spec fn form_session_notice_text(n: FormSessionNotice) -> Seq<char> {
    match n {
        FormSessionNotice::NoCategory => "No category was selected."@,
        FormSessionNotice::NoForm => "No form was selected."@,
        FormSessionNotice::UpdateFailed => "An internal error prevented updating the category form"@,
        FormSessionNotice::LookupFailed => "An internal error prevented getting the form name."@,
    }
}

/// The text of an answer of the category form sessions (see `form_session_notice_text`).
pub fn form_session_notice(n: FormSessionNotice) -> (res: String)
    ensures
        res@ == form_session_notice_text(n),
{
    match n {
        FormSessionNotice::NoCategory => owned("No category was selected."),
        FormSessionNotice::NoForm => owned("No form was selected."),
        FormSessionNotice::UpdateFailed => owned("An internal error prevented updating the category form"),
        FormSessionNotice::LookupFailed => owned("An internal error prevented getting the form name."),
    }
}

/// The answer once a category's form was set.
pub fn form_set_text(category_name: &str, form_title: &str) -> (res: String)
    ensures
        res@ == "The form for `"@ + escape_backticks(category_name@) + "` has been set to `"@ + escape_backticks(form_title@) + "`."@,
{
    let c = escape_markdown_backticks(category_name);
    let f = escape_markdown_backticks(form_title);
    concat5("The form for `", c.as_str(), "` has been set to `", f.as_str(), "`.")
}

/// The answer to reading a category's form: its title, or that it has none.
pub fn category_form_text(category_name: &str, form_title: &Option<String>) -> (res: String)
    ensures
        res@ == match opt_view(*form_title) {
            Some(t) => "The form for `"@ + escape_backticks(category_name@) + "` is `"@ + escape_backticks(t) + "`."@,
            None => "There is no form set for `"@ + escape_backticks(category_name@) + "`."@,
        },
{
    let c = escape_markdown_backticks(category_name);
    match form_title {
        Some(t) => {
            let f = escape_markdown_backticks(t.as_str());
            concat5("The form for `", c.as_str(), "` is `", f.as_str(), "`.")
        },
        None => crate::text::concat3("There is no form set for `", c.as_str(), "`."),
    }
}

/// A session that shows the form of a custom category.
pub struct CustomCategoryFormRetrievalData {
    pub all_categories: Vec<CustomCategory>,
    pub current_page: usize,
}

/// The sessions that show forms of custom categories.
pub struct CustomCategoryFormRetrievals {
    pub sessions: SessionStore<CustomCategoryFormRetrievalData>,
}

/// A session that removes the form of a custom category.
pub struct CustomCategoryFormRemovalData {
    pub all_categories: Vec<CustomCategory>,
    pub selected_id: Option<String>,
    pub current_page: usize,
}

/// The sessions that remove forms of custom categories.
pub struct CustomCategoryFormRemovals {
    pub sessions: SessionStore<CustomCategoryFormRemovalData>,
}

/// A session that associates a form with a built-in category of server `guild_id`.
pub struct FormAssociationData {
    pub guild_id: u64,
    pub all_forms: Vec<Form>,
    pub selected_form_id: Option<String>,
    pub current_page: usize,
}

/// The sessions that associate a form with the ban appeal category.
pub struct FormAssociations {
    pub sessions: SessionStore<FormAssociationData>,
}

/// A session that associates a form with the existing partner category of server
/// `guild_id`.
pub struct ExistingPartnerFormAssociationData {
    pub guild_id: u64,
    pub all_forms: Vec<Form>,
    pub selected_form_id: Option<String>,
    pub current_page: usize,
}

/// The sessions that associate a form with the existing partner category.
pub struct ExistingPartnerFormAssociations {
    pub sessions: SessionStore<ExistingPartnerFormAssociationData>,
}

/// The answers of the form settings commands.
#[derive(Clone, Copy, Debug, PartialEq, Eq, Structural)]
pub enum FormSettingNotice {
    /// The server has no forms to choose from.
    NoForms,
    /// The server has no custom categories to give a form.
    NoCustomCategories,
    /// The server has no forms to give a custom category.
    NoCategoryForms,
    /// The server's categories or forms could not be read.
    RetrievalFailed,
}

/// The text of a form settings answer.
pub open spec fn form_setting_notice_text(n: FormSettingNotice) -> Seq<char> {
    match n {
        FormSettingNotice::NoForms => "There are no forms set up for this server."@,
        FormSettingNotice::NoCustomCategories => "This server has no custom categories set up."@,
        FormSettingNotice::NoCategoryForms => "This server has no forms."@,
        FormSettingNotice::RetrievalFailed => "An internal error prevented retrieval of necessary data."@,
    }
}

/// The text of a form settings answer (see `form_setting_notice_text`).
pub fn form_setting_notice(n: FormSettingNotice) -> (res: String)
    ensures
        res@ == form_setting_notice_text(n),
{
    match n {
        FormSettingNotice::NoForms => owned("There are no forms set up for this server."),
        FormSettingNotice::NoCustomCategories => owned("This server has no custom categories set up."),
        FormSettingNotice::NoCategoryForms => owned("This server has no forms."),
        FormSettingNotice::RetrievalFailed => owned("An internal error prevented retrieval of necessary data."),
    }
}

/// The answer to reading the ban appeal form: its title, or that none is set.
pub fn ban_appeal_form_text(form_title: &Option<String>) -> (res: String)
    ensures
        res@ == match opt_view(*form_title) {
            Some(t) => "Ban appeals ticket use the form `"@ + escape_backticks(t) + "`."@,
            None => "No ban appeal form is set."@,
        },
{
    match form_title {
        Some(t) => {
            let f = escape_markdown_backticks(t.as_str());
            crate::text::concat3("Ban appeals ticket use the form `", f.as_str(), "`.")
        },
        None => owned("No ban appeal form is set."),
    }
}

/// What removing the new partner ticket form came to.
#[derive(Clone, Copy, Debug, PartialEq, Eq, Structural)]
pub enum FormUnset {
    Unset,
    /// No form was set.
    NothingToUnset,
    Failed,
}

/// The answer to removing the new partner ticket form.
pub fn new_partner_form_unset_text(outcome: FormUnset) -> (res: String)
    ensures
        res@ == match outcome {
            FormUnset::Unset => "The new partner ticket form has been unset."@,
            FormUnset::NothingToUnset => "There is no new partner ticket form."@,
            FormUnset::Failed => "An internal error occurred, so the new partner ticket form couldn't be unset."@,
        },
{
    match outcome {
        FormUnset::Unset => owned("The new partner ticket form has been unset."),
        FormUnset::NothingToUnset => owned("There is no new partner ticket form."),
        FormUnset::Failed => owned("An internal error occurred, so the new partner ticket form couldn't be unset."),
    }
}

} // verus!
