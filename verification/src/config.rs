//! The bot's configuration file: a KDL document with a `discord`, a `database` and a
//! `web` node, each holding one child node per setting whose first argument is the
//! setting's value.
use vstd::prelude::*;
use crate::text::owned;

verus! {

/// The first argument of a configuration node, as far as the configuration reads it.
#[derive(Debug)]
pub enum ConfigValue {
    Text(String),
    Integer(i128),
    /// Any other KDL value (a float, a boolean, `null`).
    Other,
}

/// A setting node: its name and its first argument, if it has one.
#[derive(Debug)]
pub struct ConfigEntry {
    pub name: String,
    pub first_argument: Option<ConfigValue>,
}

/// A top-level node: its name and its child nodes, if it has a children block.
#[derive(Debug)]
pub struct ConfigSection {
    pub name: String,
    pub entries: Option<Vec<ConfigEntry>>,
}

pub enum ConfigValueView {
    Text(Seq<char>),
    Integer(i128),
    Other,
}

pub struct ConfigEntryView {
    pub name: Seq<char>,
    pub first_argument: Option<ConfigValueView>,
}

pub struct ConfigSectionView {
    pub name: Seq<char>,
    pub entries: Option<Seq<ConfigEntryView>>,
}

impl View for ConfigValue {
    type V = ConfigValueView;

    open spec fn view(&self) -> ConfigValueView {
        match self {
            ConfigValue::Text(s) => ConfigValueView::Text(s@),
            ConfigValue::Integer(i) => ConfigValueView::Integer(*i),
            ConfigValue::Other => ConfigValueView::Other,
        }
    }
}

impl View for ConfigEntry {
    type V = ConfigEntryView;

    open spec fn view(&self) -> ConfigEntryView {
        ConfigEntryView {
            name: self.name@,
            first_argument: match self.first_argument {
                Some(v) => Some(v@),
                None => None,
            },
        }
    }
}

/// The view of a list of setting nodes.
pub open spec fn entries_view(v: Seq<ConfigEntry>) -> Seq<ConfigEntryView> {
    v.map_values(|e: ConfigEntry| e@)
}

impl View for ConfigSection {
    type V = ConfigSectionView;

    open spec fn view(&self) -> ConfigSectionView {
        ConfigSectionView {
            name: self.name@,
            entries: match self.entries {
                Some(v) => Some(entries_view(v@)),
                None => None,
            },
        }
    }
}

/// The view of a list of top-level nodes.
pub open spec fn sections_view(v: Seq<ConfigSection>) -> Seq<ConfigSectionView> {
    v.map_values(|s: ConfigSection| s@)
}

#[derive(Debug)]
pub struct ConfigData {
    pub discord: DiscordArgs,
    pub database: DatabaseArgs,
    pub web: WebArgs,
}

#[derive(Debug)]
pub struct DiscordArgs {
    pub bot_token: String,
    pub client_id: String,
    pub client_secret: String,
}

#[derive(Debug)]
pub struct DatabaseArgs {
    pub host: String,
    pub port: Option<u16>,
    pub username: String,
    pub password: String,
    pub database: String,
}

#[derive(Debug)]
pub struct WebArgs {
    pub bind_addr: String,
    pub base_url: String,
}

pub struct DiscordArgsView {
    pub bot_token: Seq<char>,
    pub client_id: Seq<char>,
    pub client_secret: Seq<char>,
}

pub struct DatabaseArgsView {
    pub host: Seq<char>,
    pub port: Option<u16>,
    pub username: Seq<char>,
    pub password: Seq<char>,
    pub database: Seq<char>,
}

pub struct WebArgsView {
    pub bind_addr: Seq<char>,
    pub base_url: Seq<char>,
}

pub struct ConfigDataView {
    pub discord: DiscordArgsView,
    pub database: DatabaseArgsView,
    pub web: WebArgsView,
}

impl View for ConfigData {
    type V = ConfigDataView;

    open spec fn view(&self) -> ConfigDataView {
        ConfigDataView {
            discord: DiscordArgsView {
                bot_token: self.discord.bot_token@,
                client_id: self.discord.client_id@,
                client_secret: self.discord.client_secret@,
            },
            database: DatabaseArgsView {
                host: self.database.host@,
                port: self.database.port,
                username: self.database.username@,
                password: self.database.password@,
                database: self.database.database@,
            },
            web: WebArgsView { bind_addr: self.web.bind_addr@, base_url: self.web.base_url@ },
        }
    }
}

/// The top-level nodes of the configuration.
#[derive(Clone, Copy, Debug, PartialEq, Eq, Structural)]
pub enum ConfigSectionName {
    Discord,
    Database,
    Web,
}

/// The settings of the configuration.
#[derive(Clone, Copy, Debug, PartialEq, Eq, Structural)]
pub enum ConfigProperty {
    BotToken,
    ClientId,
    ClientSecret,
    Host,
    Port,
    Username,
    Password,
    Database,
    BindAddr,
    BaseUrl,
}

/// Why a configuration was refused.
#[derive(Clone, Copy, Debug, PartialEq, Eq, Structural)]
pub enum ConfigError {
    /// The text is not a KDL document.
    Syntax,
    /// A top-level node is missing.
    MissingSection(ConfigSectionName),
    /// A top-level node has no children block.
    SectionWithoutChildren(ConfigSectionName),
    /// A required setting is missing.
    MissingProperty(ConfigProperty),
    /// A setting node has no argument.
    MissingValue(ConfigProperty),
    /// A setting's argument has the wrong type.
    WrongType(ConfigProperty),
    /// The port is an integer outside the range of port numbers.
    PortOutOfRange,
}

/// The node name of a top-level node.
pub open spec fn section_key(s: ConfigSectionName) -> Seq<char> {
    match s {
        ConfigSectionName::Discord => "discord"@,
        ConfigSectionName::Database => "database"@,
        ConfigSectionName::Web => "web"@,
    }
}

/// The node name of a setting.
pub open spec fn property_key(p: ConfigProperty) -> Seq<char> {
    match p {
        ConfigProperty::BotToken => "bot-token"@,
        ConfigProperty::ClientId => "client-id"@,
        ConfigProperty::ClientSecret => "client-secret"@,
        ConfigProperty::Host => "host"@,
        ConfigProperty::Port => "port"@,
        ConfigProperty::Username => "username"@,
        ConfigProperty::Password => "password"@,
        ConfigProperty::Database => "database"@,
        ConfigProperty::BindAddr => "bind-addr"@,
        ConfigProperty::BaseUrl => "base-url"@,
    }
}

fn section_key_str(s: ConfigSectionName) -> (res: &'static str)
    ensures
        res@ == section_key(s),
{
    match s {
        ConfigSectionName::Discord => "discord",
        ConfigSectionName::Database => "database",
        ConfigSectionName::Web => "web",
    }
}

fn property_key_str(p: ConfigProperty) -> (res: &'static str)
    ensures
        res@ == property_key(p),
{
    match p {
        ConfigProperty::BotToken => "bot-token",
        ConfigProperty::ClientId => "client-id",
        ConfigProperty::ClientSecret => "client-secret",
        ConfigProperty::Host => "host",
        ConfigProperty::Port => "port",
        ConfigProperty::Username => "username",
        ConfigProperty::Password => "password",
        ConfigProperty::Database => "database",
        ConfigProperty::BindAddr => "bind-addr",
        ConfigProperty::BaseUrl => "base-url",
    }
}

/// The first top-level node named `name`.
pub open spec fn find_section(secs: Seq<ConfigSectionView>, name: Seq<char>) -> Option<ConfigSectionView>
    decreases secs.len(),
{
    if secs.len() == 0 {
        None
    } else if secs[0].name == name {
        Some(secs[0])
    } else {
        find_section(secs.drop_first(), name)
    }
}

/// The first setting node named `name`.
pub open spec fn find_entry(es: Seq<ConfigEntryView>, name: Seq<char>) -> Option<ConfigEntryView>
    decreases es.len(),
{
    if es.len() == 0 {
        None
    } else if es[0].name == name {
        Some(es[0])
    } else {
        find_entry(es.drop_first(), name)
    }
}

/// The child nodes of the top-level node `s`, or why there are none.
pub open spec fn section_entries(secs: Seq<ConfigSectionView>, s: ConfigSectionName) -> Result<Seq<ConfigEntryView>, ConfigError> {
    match find_section(secs, section_key(s)) {
        None => Err(ConfigError::MissingSection(s)),
        Some(sec) => match sec.entries {
            None => Err(ConfigError::SectionWithoutChildren(s)),
            Some(es) => Ok(es),
        },
    }
}

/// Whether the setting `p` is present among `es`.
pub open spec fn present(es: Seq<ConfigEntryView>, p: ConfigProperty) -> bool {
    find_entry(es, property_key(p)) is Some
}

/// The string value of the present setting `p`.
pub open spec fn text_setting(es: Seq<ConfigEntryView>, p: ConfigProperty) -> Result<Seq<char>, ConfigError> {
    match find_entry(es, property_key(p)) {
        None => Err(ConfigError::MissingProperty(p)),
        Some(e) => match e.first_argument {
            None => Err(ConfigError::MissingValue(p)),
            Some(ConfigValueView::Text(t)) => Ok(t),
            Some(_) => Err(ConfigError::WrongType(p)),
        },
    }
}

/// The optional port setting.
pub open spec fn port_setting(es: Seq<ConfigEntryView>) -> Result<Option<u16>, ConfigError> {
    match find_entry(es, property_key(ConfigProperty::Port)) {
        None => Ok(None),
        Some(e) => match e.first_argument {
            None => Err(ConfigError::MissingValue(ConfigProperty::Port)),
            Some(ConfigValueView::Integer(i)) => if 0 <= i <= u16::MAX {
                Ok(Some(i as u16))
            } else {
                Err(ConfigError::PortOutOfRange)
            },
            Some(_) => Err(ConfigError::WrongType(ConfigProperty::Port)),
        },
    }
}

/// The `discord` settings of the document `secs`, or the first problem with them: the
/// node, its children, the presence of each setting, then each setting's value, in order.
pub open spec fn discord_settings(secs: Seq<ConfigSectionView>) -> Result<DiscordArgsView, ConfigError> {
    match section_entries(secs, ConfigSectionName::Discord) {
        Err(e) => Err(e),
        Ok(es) => if !present(es, ConfigProperty::BotToken) {
            Err(ConfigError::MissingProperty(ConfigProperty::BotToken))
        } else if !present(es, ConfigProperty::ClientId) {
            Err(ConfigError::MissingProperty(ConfigProperty::ClientId))
        } else if !present(es, ConfigProperty::ClientSecret) {
            Err(ConfigError::MissingProperty(ConfigProperty::ClientSecret))
        } else {
            match (text_setting(es, ConfigProperty::BotToken), text_setting(es, ConfigProperty::ClientId), text_setting(es, ConfigProperty::ClientSecret)) {
                (Err(e), _, _) => Err(e),
                (Ok(_), Err(e), _) => Err(e),
                (Ok(_), Ok(_), Err(e)) => Err(e),
                (Ok(t), Ok(i), Ok(s)) => Ok(DiscordArgsView { bot_token: t, client_id: i, client_secret: s }),
            }
        },
    }
}

/// The `database` settings of `secs`, or the first problem with them; the port is optional.
pub open spec fn database_settings(secs: Seq<ConfigSectionView>) -> Result<DatabaseArgsView, ConfigError> {
    match section_entries(secs, ConfigSectionName::Database) {
        Err(e) => Err(e),
        Ok(es) => if !present(es, ConfigProperty::Host) {
            Err(ConfigError::MissingProperty(ConfigProperty::Host))
        } else if !present(es, ConfigProperty::Username) {
            Err(ConfigError::MissingProperty(ConfigProperty::Username))
        } else if !present(es, ConfigProperty::Password) {
            Err(ConfigError::MissingProperty(ConfigProperty::Password))
        } else if !present(es, ConfigProperty::Database) {
            Err(ConfigError::MissingProperty(ConfigProperty::Database))
        } else {
            match (text_setting(es, ConfigProperty::Host), port_setting(es)) {
                (Err(e), _) => Err(e),
                (Ok(_), Err(e)) => Err(e),
                (Ok(h), Ok(port)) => match (text_setting(es, ConfigProperty::Username), text_setting(es, ConfigProperty::Password), text_setting(es, ConfigProperty::Database)) {
                    (Err(e), _, _) => Err(e),
                    (Ok(_), Err(e), _) => Err(e),
                    (Ok(_), Ok(_), Err(e)) => Err(e),
                    (Ok(u), Ok(pw), Ok(d)) => Ok(DatabaseArgsView { host: h, port, username: u, password: pw, database: d }),
                },
            }
        },
    }
}

/// The `web` settings of `secs`, or the first problem with them.
pub open spec fn web_settings(secs: Seq<ConfigSectionView>) -> Result<WebArgsView, ConfigError> {
    match section_entries(secs, ConfigSectionName::Web) {
        Err(e) => Err(e),
        Ok(es) => if !present(es, ConfigProperty::BindAddr) {
            Err(ConfigError::MissingProperty(ConfigProperty::BindAddr))
        } else if !present(es, ConfigProperty::BaseUrl) {
            Err(ConfigError::MissingProperty(ConfigProperty::BaseUrl))
        } else {
            match (text_setting(es, ConfigProperty::BindAddr), text_setting(es, ConfigProperty::BaseUrl)) {
                (Err(e), _) => Err(e),
                (Ok(_), Err(e)) => Err(e),
                (Ok(b), Ok(u)) => Ok(WebArgsView { bind_addr: b, base_url: u }),
            }
        },
    }
}

/// The configuration the document `secs` describes, or the first problem with it (the
/// `discord` node is read first, then `database`, then `web`).
pub open spec fn config_of(secs: Seq<ConfigSectionView>) -> Result<ConfigDataView, ConfigError> {
    match (discord_settings(secs), database_settings(secs), web_settings(secs)) {
        (Err(e), _, _) => Err(e),
        (Ok(_), Err(e), _) => Err(e),
        (Ok(_), Ok(_), Err(e)) => Err(e),
        (Ok(d), Ok(db), Ok(w)) => Ok(ConfigDataView { discord: d, database: db, web: w }),
    }
}

fn find_section_index(sections: &Vec<ConfigSection>, name: &str) -> (res: Option<usize>)
    ensures
        match res {
            Some(i) => i < sections.len() && find_section(sections_view(sections@), name@) == Some(sections@[i as int]@),
            None => find_section(sections_view(sections@), name@) is None,
        },
{
    let ghost all = sections_view(sections@);
    let target = owned(name);
    assert(all.skip(0) =~= all);
    let mut i: usize = 0;
    while i < sections.len()
        invariant
            i <= sections.len(),
            all == sections_view(sections@),
            target@ == name@,
            find_section(all, name@) == find_section(all.skip(i as int), name@),
        decreases sections.len() - i,
    {
        assert(all.skip(i as int)[0] == sections@[i as int]@);
        assert(all.skip(i as int).drop_first() =~= all.skip(i + 1));
        if sections[i].name == target {
            return Some(i);
        }
        i = i + 1;
    }
    assert(all.skip(i as int).len() == 0);
    None
}

fn find_entry_index(entries: &Vec<ConfigEntry>, name: &str) -> (res: Option<usize>)
    ensures
        match res {
            Some(i) => i < entries.len() && find_entry(entries_view(entries@), name@) == Some(entries@[i as int]@),
            None => find_entry(entries_view(entries@), name@) is None,
        },
{
    let ghost all = entries_view(entries@);
    let target = owned(name);
    assert(all.skip(0) =~= all);
    let mut i: usize = 0;
    while i < entries.len()
        invariant
            i <= entries.len(),
            all == entries_view(entries@),
            target@ == name@,
            find_entry(all, name@) == find_entry(all.skip(i as int), name@),
        decreases entries.len() - i,
    {
        assert(all.skip(i as int)[0] == entries@[i as int]@);
        assert(all.skip(i as int).drop_first() =~= all.skip(i + 1));
        if entries[i].name == target {
            return Some(i);
        }
        i = i + 1;
    }
    assert(all.skip(i as int).len() == 0);
    None
}

fn get_section_entries(sections: &Vec<ConfigSection>, s: ConfigSectionName) -> (res: Result<&Vec<ConfigEntry>, ConfigError>)
    ensures
        match res {
            Ok(es) => section_entries(sections_view(sections@), s) == Ok::<Seq<ConfigEntryView>, ConfigError>(entries_view(es@)),
            Err(e) => section_entries(sections_view(sections@), s) == Err::<Seq<ConfigEntryView>, ConfigError>(e),
        },
{
    match find_section_index(sections, section_key_str(s)) {
        None => Err(ConfigError::MissingSection(s)),
        Some(i) => match &sections[i].entries {
            None => Err(ConfigError::SectionWithoutChildren(s)),
            Some(es) => Ok(es),
        },
    }
}

fn check_present(entries: &Vec<ConfigEntry>, p: ConfigProperty) -> (res: bool)
    ensures
        res == present(entries_view(entries@), p),
{
    find_entry_index(entries, property_key_str(p)).is_some()
}

fn read_text_setting(entries: &Vec<ConfigEntry>, p: ConfigProperty) -> (res: Result<String, ConfigError>)
    ensures
        match res {
            Ok(t) => text_setting(entries_view(entries@), p) == Ok::<Seq<char>, ConfigError>(t@),
            Err(e) => text_setting(entries_view(entries@), p) == Err::<Seq<char>, ConfigError>(e),
        },
{
    match find_entry_index(entries, property_key_str(p)) {
        None => Err(ConfigError::MissingProperty(p)),
        Some(i) => match &entries[i].first_argument {
            None => Err(ConfigError::MissingValue(p)),
            Some(ConfigValue::Text(t)) => Ok(t.clone()),
            Some(_) => Err(ConfigError::WrongType(p)),
        },
    }
}

fn read_port_setting(entries: &Vec<ConfigEntry>) -> (res: Result<Option<u16>, ConfigError>)
    ensures
        res == port_setting(entries_view(entries@)),
{
    match find_entry_index(entries, property_key_str(ConfigProperty::Port)) {
        None => Ok(None),
        Some(i) => match &entries[i].first_argument {
            None => Err(ConfigError::MissingValue(ConfigProperty::Port)),
            Some(ConfigValue::Integer(n)) => {
                let n = *n;
                if 0 <= n && n <= 65535 {
                    Ok(Some(n as u16))
                } else {
                    Err(ConfigError::PortOutOfRange)
                }
            },
            Some(_) => Err(ConfigError::WrongType(ConfigProperty::Port)),
        },
    }
}

fn read_discord(sections: &Vec<ConfigSection>) -> (res: Result<DiscordArgs, ConfigError>)
    ensures
        match res {
            Ok(d) => discord_settings(sections_view(sections@)) == Ok::<DiscordArgsView, ConfigError>(
                DiscordArgsView { bot_token: d.bot_token@, client_id: d.client_id@, client_secret: d.client_secret@ },
            ),
            Err(e) => discord_settings(sections_view(sections@)) == Err::<DiscordArgsView, ConfigError>(e),
        },
{
    let es = get_section_entries(sections, ConfigSectionName::Discord)?;
    let ghost ev = entries_view(es@);
    if !check_present(es, ConfigProperty::BotToken) {
        return Err(ConfigError::MissingProperty(ConfigProperty::BotToken));
    }
    if !check_present(es, ConfigProperty::ClientId) {
        return Err(ConfigError::MissingProperty(ConfigProperty::ClientId));
    }
    if !check_present(es, ConfigProperty::ClientSecret) {
        return Err(ConfigError::MissingProperty(ConfigProperty::ClientSecret));
    }
    let bot_token = read_text_setting(es, ConfigProperty::BotToken)?;
    let client_id = read_text_setting(es, ConfigProperty::ClientId)?;
    let client_secret = read_text_setting(es, ConfigProperty::ClientSecret)?;
    Ok(DiscordArgs { bot_token, client_id, client_secret })
}

fn read_database(sections: &Vec<ConfigSection>) -> (res: Result<DatabaseArgs, ConfigError>)
    ensures
        match res {
            Ok(d) => database_settings(sections_view(sections@)) == Ok::<DatabaseArgsView, ConfigError>(
                DatabaseArgsView { host: d.host@, port: d.port, username: d.username@, password: d.password@, database: d.database@ },
            ),
            Err(e) => database_settings(sections_view(sections@)) == Err::<DatabaseArgsView, ConfigError>(e),
        },
{
    let es = get_section_entries(sections, ConfigSectionName::Database)?;
    let ghost ev = entries_view(es@);
    if !check_present(es, ConfigProperty::Host) {
        return Err(ConfigError::MissingProperty(ConfigProperty::Host));
    }
    if !check_present(es, ConfigProperty::Username) {
        return Err(ConfigError::MissingProperty(ConfigProperty::Username));
    }
    if !check_present(es, ConfigProperty::Password) {
        return Err(ConfigError::MissingProperty(ConfigProperty::Password));
    }
    if !check_present(es, ConfigProperty::Database) {
        return Err(ConfigError::MissingProperty(ConfigProperty::Database));
    }
    let host = read_text_setting(es, ConfigProperty::Host)?;
    let port = read_port_setting(es)?;
    let username = read_text_setting(es, ConfigProperty::Username)?;
    let password = read_text_setting(es, ConfigProperty::Password)?;
    let database = read_text_setting(es, ConfigProperty::Database)?;
    Ok(DatabaseArgs { host, port, username, password, database })
}

fn read_web(sections: &Vec<ConfigSection>) -> (res: Result<WebArgs, ConfigError>)
    ensures
        match res {
            Ok(w) => web_settings(sections_view(sections@)) == Ok::<WebArgsView, ConfigError>(
                WebArgsView { bind_addr: w.bind_addr@, base_url: w.base_url@ },
            ),
            Err(e) => web_settings(sections_view(sections@)) == Err::<WebArgsView, ConfigError>(e),
        },
{
    let es = get_section_entries(sections, ConfigSectionName::Web)?;
    let ghost ev = entries_view(es@);
    if !check_present(es, ConfigProperty::BindAddr) {
        return Err(ConfigError::MissingProperty(ConfigProperty::BindAddr));
    }
    if !check_present(es, ConfigProperty::BaseUrl) {
        return Err(ConfigError::MissingProperty(ConfigProperty::BaseUrl));
    }
    let bind_addr = read_text_setting(es, ConfigProperty::BindAddr)?;
    let base_url = read_text_setting(es, ConfigProperty::BaseUrl)?;
    Ok(WebArgs { bind_addr, base_url })
}

/// Reads the configuration out of the top-level nodes of a configuration document.
pub fn config_from_sections(sections: &Vec<ConfigSection>) -> (res: Result<ConfigData, ConfigError>)
    ensures
        match res {
            Ok(c) => config_of(sections_view(sections@)) == Ok::<ConfigDataView, ConfigError>(c@),
            Err(e) => config_of(sections_view(sections@)) == Err::<ConfigDataView, ConfigError>(e),
        },
{
    let discord = read_discord(sections)?;
    let database = read_database(sections)?;
    let web = read_web(sections)?;
    Ok(ConfigData { discord, database, web })
}

/// A setting node whose first argument is the string `v`.
pub open spec fn text_entry(p: ConfigProperty, v: Seq<char>) -> ConfigEntryView {
    ConfigEntryView { name: property_key(p), first_argument: Some(ConfigValueView::Text(v)) }
}

/// The configuration document that writes out `c`: the three top-level nodes in order,
/// each with one child node per setting (no port node when there is no port).
pub open spec fn document_of(c: ConfigDataView) -> Seq<ConfigSectionView> {
    seq![
        ConfigSectionView {
            name: section_key(ConfigSectionName::Discord),
            entries: Some(seq![
                text_entry(ConfigProperty::BotToken, c.discord.bot_token),
                text_entry(ConfigProperty::ClientId, c.discord.client_id),
                text_entry(ConfigProperty::ClientSecret, c.discord.client_secret),
            ]),
        },
        ConfigSectionView {
            name: section_key(ConfigSectionName::Database),
            entries: Some(seq![
                text_entry(ConfigProperty::Host, c.database.host),
                text_entry(ConfigProperty::Username, c.database.username),
                text_entry(ConfigProperty::Password, c.database.password),
                text_entry(ConfigProperty::Database, c.database.database),
            ] + match c.database.port {
                Some(p) => seq![ConfigEntryView { name: property_key(ConfigProperty::Port), first_argument: Some(ConfigValueView::Integer(p as i128)) }],
                None => Seq::empty(),
            }),
        },
        ConfigSectionView {
            name: section_key(ConfigSectionName::Web),
            entries: Some(seq![
                text_entry(ConfigProperty::BindAddr, c.web.bind_addr),
                text_entry(ConfigProperty::BaseUrl, c.web.base_url),
            ]),
        },
    ]
}

/// `find_entry` finds the node at `i` when no earlier node has its name.
proof fn lemma_find_entry_at(es: Seq<ConfigEntryView>, name: Seq<char>, i: int)
    requires
        0 <= i < es.len(),
        es[i].name == name,
        forall|j: int| 0 <= j < i ==> es[j].name != name,
    ensures
        find_entry(es, name) == Some(es[i]),
    decreases i,
{
    if i > 0 {
        assert forall|j: int| 0 <= j < i - 1 implies es.drop_first()[j].name != name by {
            assert(es.drop_first()[j] == es[j + 1]);
        }
        lemma_find_entry_at(es.drop_first(), name, i - 1);
    }
}

/// `find_entry` finds nothing when no node has the name.
proof fn lemma_find_entry_none(es: Seq<ConfigEntryView>, name: Seq<char>)
    requires
        forall|j: int| 0 <= j < es.len() ==> es[j].name != name,
    ensures
        find_entry(es, name) is None,
    decreases es.len(),
{
    if es.len() > 0 {
        assert forall|j: int| 0 <= j < es.drop_first().len() implies es.drop_first()[j].name != name by {
            assert(es.drop_first()[j] == es[j + 1]);
        }
        lemma_find_entry_none(es.drop_first(), name);
    }
}

/// `find_section` finds the node at `i` when no earlier node has its name.
proof fn lemma_find_section_at(secs: Seq<ConfigSectionView>, name: Seq<char>, i: int)
    requires
        0 <= i < secs.len(),
        secs[i].name == name,
        forall|j: int| 0 <= j < i ==> secs[j].name != name,
    ensures
        find_section(secs, name) == Some(secs[i]),
    decreases i,
{
    if i > 0 {
        assert forall|j: int| 0 <= j < i - 1 implies secs.drop_first()[j].name != name by {
            assert(secs.drop_first()[j] == secs[j + 1]);
        }
        lemma_find_section_at(secs.drop_first(), name, i - 1);
    }
}

/// Reading back a configuration written out as a document gives the same configuration.
pub proof fn config_document_round_trip(c: ConfigDataView)
    ensures
        config_of(document_of(c)) == Ok::<ConfigDataView, ConfigError>(c),
{
    reveal_strlit("discord");
    reveal_strlit("database");
    reveal_strlit("web");
    reveal_strlit("bot-token");
    reveal_strlit("client-id");
    reveal_strlit("client-secret");
    reveal_strlit("host");
    reveal_strlit("port");
    reveal_strlit("username");
    reveal_strlit("password");
    reveal_strlit("bind-addr");
    reveal_strlit("base-url");
    let doc = document_of(c);
    let dk = section_key(ConfigSectionName::Discord);
    let bk = section_key(ConfigSectionName::Database);
    let wk = section_key(ConfigSectionName::Web);
    assert(dk.len() == 7 && bk.len() == 8 && wk.len() == 3);
    lemma_find_section_at(doc, dk, 0);
    lemma_find_section_at(doc, bk, 1);
    lemma_find_section_at(doc, wk, 2);
    let d = doc[0].entries->0;
    let tk = property_key(ConfigProperty::BotToken);
    let ik = property_key(ConfigProperty::ClientId);
    let sk = property_key(ConfigProperty::ClientSecret);
    assert(tk[0] == 'b' && ik[0] == 'c' && tk.len() == 9 && ik.len() == 9 && sk.len() == 13);
    lemma_find_entry_at(d, tk, 0);
    lemma_find_entry_at(d, ik, 1);
    lemma_find_entry_at(d, sk, 2);
    assert(discord_settings(doc) == Ok::<DiscordArgsView, ConfigError>(c.discord));
    let b = doc[1].entries->0;
    let hk = property_key(ConfigProperty::Host);
    let uk = property_key(ConfigProperty::Username);
    let pk = property_key(ConfigProperty::Password);
    let nk = property_key(ConfigProperty::Database);
    let ok = property_key(ConfigProperty::Port);
    assert(hk.len() == 4 && uk.len() == 8 && pk.len() == 8 && nk.len() == 8 && ok.len() == 4);
    assert(hk[0] == 'h' && ok[0] == 'p' && uk[0] == 'u' && pk[0] == 'p' && nk[0] == 'd');
    lemma_find_entry_at(b, hk, 0);
    lemma_find_entry_at(b, uk, 1);
    lemma_find_entry_at(b, pk, 2);
    lemma_find_entry_at(b, nk, 3);
    match c.database.port {
        Some(p) => {
            lemma_find_entry_at(b, ok, 4);
            assert((p as i128) as u16 == p);
        },
        None => {
            lemma_find_entry_none(b, ok);
        },
    }
    assert(port_setting(b) == Ok::<Option<u16>, ConfigError>(c.database.port));
    assert(database_settings(doc) == Ok::<DatabaseArgsView, ConfigError>(c.database));
    let w = doc[2].entries->0;
    let ak = property_key(ConfigProperty::BindAddr);
    let rk = property_key(ConfigProperty::BaseUrl);
    assert(ak.len() == 9 && rk.len() == 8);
    lemma_find_entry_at(w, ak, 0);
    lemma_find_entry_at(w, rk, 1);
    assert(web_settings(doc) == Ok::<WebArgsView, ConfigError>(c.web));
}

proof fn lemma_find_section_skip(extra: Seq<ConfigSectionView>, rest: Seq<ConfigSectionView>, name: Seq<char>)
    requires
        forall|j: int| 0 <= j < extra.len() ==> extra[j].name != name,
    ensures
        find_section(extra + rest, name) == find_section(rest, name),
    decreases extra.len(),
{
    if extra.len() == 0 {
        assert(extra + rest =~= rest);
    } else {
        assert((extra + rest).drop_first() =~= extra.drop_first() + rest);
        assert((extra + rest)[0] == extra[0]);
        assert forall|j: int| 0 <= j < extra.drop_first().len() implies extra.drop_first()[j].name != name by {
            assert(extra.drop_first()[j] == extra[j + 1]);
        }
        lemma_find_section_skip(extra.drop_first(), rest, name);
    }
}

proof fn lemma_find_section_insert(
    front: Seq<ConfigSectionView>,
    extra: Seq<ConfigSectionView>,
    back: Seq<ConfigSectionView>,
    name: Seq<char>,
)
    requires
        forall|j: int| 0 <= j < extra.len() ==> extra[j].name != name,
    ensures
        find_section(front + (extra + back), name) == find_section(front + back, name),
    decreases front.len(),
{
    if front.len() == 0 {
        assert(front + (extra + back) =~= extra + back);
        assert(front + back =~= back);
        lemma_find_section_skip(extra, back, name);
    } else {
        assert((front + (extra + back)).drop_first() =~= front.drop_first() + (extra + back));
        assert((front + back).drop_first() =~= front.drop_first() + back);
        assert((front + (extra + back))[0] == front[0]);
        assert((front + back)[0] == front[0]);
        lemma_find_section_insert(front.drop_first(), extra, back, name);
    }
}

proof fn lemma_find_entry_skip(extra: Seq<ConfigEntryView>, rest: Seq<ConfigEntryView>, name: Seq<char>)
    requires
        forall|j: int| 0 <= j < extra.len() ==> extra[j].name != name,
    ensures
        find_entry(extra + rest, name) == find_entry(rest, name),
    decreases extra.len(),
{
    if extra.len() == 0 {
        assert(extra + rest =~= rest);
    } else {
        assert((extra + rest).drop_first() =~= extra.drop_first() + rest);
        assert((extra + rest)[0] == extra[0]);
        assert forall|j: int| 0 <= j < extra.drop_first().len() implies extra.drop_first()[j].name != name by {
            assert(extra.drop_first()[j] == extra[j + 1]);
        }
        lemma_find_entry_skip(extra.drop_first(), rest, name);
    }
}

proof fn lemma_find_entry_insert(
    front: Seq<ConfigEntryView>,
    extra: Seq<ConfigEntryView>,
    back: Seq<ConfigEntryView>,
    name: Seq<char>,
)
    requires
        forall|j: int| 0 <= j < extra.len() ==> extra[j].name != name,
    ensures
        find_entry(front + (extra + back), name) == find_entry(front + back, name),
    decreases front.len(),
{
    if front.len() == 0 {
        assert(front + (extra + back) =~= extra + back);
        assert(front + back =~= back);
        lemma_find_entry_skip(extra, back, name);
    } else {
        assert((front + (extra + back)).drop_first() =~= front.drop_first() + (extra + back));
        assert((front + back).drop_first() =~= front.drop_first() + back);
        assert((front + (extra + back))[0] == front[0]);
        assert((front + back)[0] == front[0]);
        lemma_find_entry_insert(front.drop_first(), extra, back, name);
    }
}

proof fn lemma_find_section_update(secs: Seq<ConfigSectionView>, i: int, node: ConfigSectionView, name: Seq<char>)
    requires
        0 <= i < secs.len(),
        node.name == secs[i].name,
    ensures
        match find_section(secs, name) {
            None => find_section(secs.update(i, node), name) is None,
            Some(x) => find_section(secs.update(i, node), name) == Some(x)
                || (x == secs[i] && find_section(secs.update(i, node), name) == Some(node)),
        },
    decreases secs.len(),
{
    let u = secs.update(i, node);
    if i == 0 {
        assert(u[0] == node);
        assert(u.drop_first() =~= secs.drop_first());
    } else {
        assert(u[0] == secs[0]);
        assert(u.drop_first() =~= secs.drop_first().update(i - 1, node));
        assert(secs.drop_first()[i - 1] == secs[i]);
        lemma_find_section_update(secs.drop_first(), i - 1, node, name);
    }
}

/// Whether the settings `a` and `b` give every setting the same node.
pub open spec fn entries_agree(a: Seq<ConfigEntryView>, b: Seq<ConfigEntryView>) -> bool {
    forall|p: ConfigProperty| #[trigger] find_entry(a, property_key(p)) == find_entry(b, property_key(p))
}

/// Whether the documents `a` and `b` give every top-level section the same outcome:
/// the same error, or settings that agree.
pub open spec fn sections_agree(a: Seq<ConfigSectionView>, b: Seq<ConfigSectionView>) -> bool {
    forall|s: ConfigSectionName| match (#[trigger] section_entries(a, s), section_entries(b, s)) {
        (Err(e1), Err(e2)) => e1 == e2,
        (Ok(x), Ok(y)) => entries_agree(x, y),
        _ => false,
    }
}

proof fn lemma_config_of_agrees(a: Seq<ConfigSectionView>, b: Seq<ConfigSectionView>)
    requires
        sections_agree(a, b),
    ensures
        config_of(a) == config_of(b),
{
    let d = section_entries(a, ConfigSectionName::Discord);
    let db = section_entries(a, ConfigSectionName::Database);
    let w = section_entries(a, ConfigSectionName::Web);
    assert(discord_settings(a) == discord_settings(b)) by {
        if d is Ok {
            let x = d->Ok_0;
            let y = section_entries(b, ConfigSectionName::Discord)->Ok_0;
            assert(find_entry(x, property_key(ConfigProperty::BotToken)) == find_entry(y, property_key(ConfigProperty::BotToken)));
            assert(find_entry(x, property_key(ConfigProperty::ClientId)) == find_entry(y, property_key(ConfigProperty::ClientId)));
            assert(find_entry(x, property_key(ConfigProperty::ClientSecret)) == find_entry(y, property_key(ConfigProperty::ClientSecret)));
        }
    }
    assert(database_settings(a) == database_settings(b)) by {
        if db is Ok {
            let x = db->Ok_0;
            let y = section_entries(b, ConfigSectionName::Database)->Ok_0;
            assert(find_entry(x, property_key(ConfigProperty::Host)) == find_entry(y, property_key(ConfigProperty::Host)));
            assert(find_entry(x, property_key(ConfigProperty::Port)) == find_entry(y, property_key(ConfigProperty::Port)));
            assert(find_entry(x, property_key(ConfigProperty::Username)) == find_entry(y, property_key(ConfigProperty::Username)));
            assert(find_entry(x, property_key(ConfigProperty::Password)) == find_entry(y, property_key(ConfigProperty::Password)));
            assert(find_entry(x, property_key(ConfigProperty::Database)) == find_entry(y, property_key(ConfigProperty::Database)));
        }
    }
    assert(web_settings(a) == web_settings(b)) by {
        if w is Ok {
            let x = w->Ok_0;
            let y = section_entries(b, ConfigSectionName::Web)->Ok_0;
            assert(find_entry(x, property_key(ConfigProperty::BindAddr)) == find_entry(y, property_key(ConfigProperty::BindAddr)));
            assert(find_entry(x, property_key(ConfigProperty::BaseUrl)) == find_entry(y, property_key(ConfigProperty::BaseUrl)));
        }
    }
}

/// The first argument of the first node named `key` among the children of the first
/// top-level node named `section`, if there is such a node.
pub open spec fn argument_at(secs: Seq<ConfigSectionView>, section: Seq<char>, key: Seq<char>) -> Option<ConfigValueView> {
    match find_section(secs, section) {
        Some(sec) => match sec.entries {
            Some(es) => match find_entry(es, key) {
                Some(e) => e.first_argument,
                None => None,
            },
            None => None,
        },
        None => None,
    }
}

/// A configuration that is read takes each setting from its own node: the string
/// argument of `bot-token`, `client-id` and `client-secret` under `discord`; of `host`,
/// `username`, `password` and `database` under `database`; of `bind-addr` and `base-url`
/// under `web`; and the port from the integer argument of `port` under `database`, no
/// port when there is no such node.
pub proof fn config_settings_come_from_their_nodes(secs: Seq<ConfigSectionView>)
    requires
        config_of(secs) is Ok,
    ensures
        ({
            let c = config_of(secs)->Ok_0;
            &&& argument_at(secs, "discord"@, "bot-token"@) == Some(ConfigValueView::Text(c.discord.bot_token))
            &&& argument_at(secs, "discord"@, "client-id"@) == Some(ConfigValueView::Text(c.discord.client_id))
            &&& argument_at(secs, "discord"@, "client-secret"@) == Some(ConfigValueView::Text(c.discord.client_secret))
            &&& argument_at(secs, "database"@, "host"@) == Some(ConfigValueView::Text(c.database.host))
            &&& argument_at(secs, "database"@, "username"@) == Some(ConfigValueView::Text(c.database.username))
            &&& argument_at(secs, "database"@, "password"@) == Some(ConfigValueView::Text(c.database.password))
            &&& argument_at(secs, "database"@, "database"@) == Some(ConfigValueView::Text(c.database.database))
            &&& argument_at(secs, "web"@, "bind-addr"@) == Some(ConfigValueView::Text(c.web.bind_addr))
            &&& argument_at(secs, "web"@, "base-url"@) == Some(ConfigValueView::Text(c.web.base_url))
            &&& match c.database.port {
                Some(p) => argument_at(secs, "database"@, "port"@) == Some(ConfigValueView::Integer(p as i128)),
                None => argument_at(secs, "database"@, "port"@) is None,
            }
        }),
{
}

/// Top-level nodes that the configuration does not read (any name but `discord`,
/// `database` and `web`), inserted anywhere among the others, leave the configuration
/// as it was: the same settings, or the same error.
pub proof fn config_ignores_unread_sections(secs: Seq<ConfigSectionView>, at: int, extra: Seq<ConfigSectionView>)
    requires
        0 <= at <= secs.len(),
        forall|j: int, s: ConfigSectionName| #![trigger extra[j], section_key(s)] 0 <= j < extra.len() ==> extra[j].name != section_key(s),
    ensures
        config_of(secs.take(at) + (extra + secs.skip(at))) == config_of(secs),
{
    let longer = secs.take(at) + (extra + secs.skip(at));
    assert(secs.take(at) + secs.skip(at) =~= secs);
    assert forall|s: ConfigSectionName| #[trigger] section_entries(longer, s) == section_entries(secs, s) by {
        assert forall|j: int| 0 <= j < extra.len() implies extra[j].name != section_key(s) by {
            assert(extra[j].name != section_key(s));
        }
        lemma_find_section_insert(secs.take(at), extra, secs.skip(at), section_key(s));
    }
    lemma_config_of_agrees(longer, secs);
}

/// Setting nodes that the configuration does not read (no setting's name), inserted
/// anywhere among the children of a top-level node, leave the configuration as it was:
/// the same settings, or the same error. (Each setting is read by its name and its first
/// argument only; further arguments are not part of what is read.)
pub proof fn config_ignores_unread_settings(secs: Seq<ConfigSectionView>, i: int, at: int, extra: Seq<ConfigEntryView>)
    requires
        0 <= i < secs.len(),
        secs[i].entries is Some,
        0 <= at <= secs[i].entries->0.len(),
        forall|j: int, p: ConfigProperty| #![trigger extra[j], property_key(p)] 0 <= j < extra.len() ==> extra[j].name != property_key(p),
    ensures
        config_of(secs.update(i, ConfigSectionView {
            name: secs[i].name,
            entries: Some(secs[i].entries->0.take(at) + (extra + secs[i].entries->0.skip(at))),
        })) == config_of(secs),
{
    let es = secs[i].entries->0;
    let node = ConfigSectionView { name: secs[i].name, entries: Some(es.take(at) + (extra + es.skip(at))) };
    let u = secs.update(i, node);
    assert(es.take(at) + es.skip(at) =~= es);
    assert forall|s: ConfigSectionName| match (#[trigger] section_entries(u, s), section_entries(secs, s)) {
        (Err(e1), Err(e2)) => e1 == e2,
        (Ok(x), Ok(y)) => entries_agree(x, y),
        _ => false,
    } by {
        lemma_find_section_update(secs, i, node, section_key(s));
        assert forall|p: ConfigProperty| #[trigger] find_entry(es.take(at) + (extra + es.skip(at)), property_key(p)) == find_entry(es, property_key(p)) by {
            assert forall|j: int| 0 <= j < extra.len() implies extra[j].name != property_key(p) by {
                assert(extra[j].name != property_key(p));
            }
            lemma_find_entry_insert(es.take(at), extra, es.skip(at), property_key(p));
        }
        match find_section(secs, section_key(s)) {
            None => {},
            Some(x) => {
                if find_section(u, section_key(s)) == Some(node) && x == secs[i] {
                    assert(entries_agree(es.take(at) + (extra + es.skip(at)), es));
                }
            },
        }
    }
    lemma_config_of_agrees(u, secs);
}

/// The top-level nodes of the KDL document that `text` holds, as `kdl::KdlDocument`'s
/// parser reads it; `None` when `text` is not a KDL document.
pub uninterp spec fn kdl_document_sections(text: Seq<char>) -> Option<Seq<ConfigSectionView>>;

/// Parses `text` with `kdl::KdlDocument`'s `FromStr` (`KdlDocument::parse`) and lists its
/// top-level nodes in document order: each node's name (`KdlNode::name`) and, when it has
/// a children block (`KdlNode::children`), its child nodes, each with its name and its
/// first argument (`KdlNode::get(0)`), strings and integers kept. The contract names the
/// result as a function of the text alone; what the KDL grammar accepts is not stated.
#[verifier::external_body]
fn parse_kdl_sections(text: &str) -> (res: Option<Vec<ConfigSection>>)
    ensures
        match res {
            Some(v) => kdl_document_sections(text@) == Some(sections_view(v@)),
            None => kdl_document_sections(text@) is None,
        },
{
    let document: kdl::KdlDocument = text.parse().ok()?;
    let value = |v: &kdl::KdlValue| match v {
        kdl::KdlValue::String(s) => ConfigValue::Text(s.clone()),
        kdl::KdlValue::Integer(i) => ConfigValue::Integer(*i),
        _ => ConfigValue::Other,
    };
    let entry = |n: &kdl::KdlNode| ConfigEntry { name: n.name().value().to_string(), first_argument: n.get(0).map(value) };
    Some(document.nodes().iter().map(|n| ConfigSection {
        name: n.name().value().to_string(),
        entries: n.children().map(|c| c.nodes().iter().map(entry).collect()),
    }).collect())
}

/// Reads the configuration out of the text of a configuration file.
pub fn parse_config_text(text: &str) -> (res: Result<ConfigData, ConfigError>)
    ensures
        match kdl_document_sections(text@) {
            None => res == Err::<ConfigData, ConfigError>(ConfigError::Syntax),
            Some(secs) => match res {
                Ok(c) => config_of(secs) == Ok::<ConfigDataView, ConfigError>(c@),
                Err(e) => config_of(secs) == Err::<ConfigDataView, ConfigError>(e),
            },
        },
{
    match parse_kdl_sections(text) {
        None => Err(ConfigError::Syntax),
        Some(sections) => config_from_sections(&sections),
    }
}

} // verus!
