//! Per-guild policy: the settings a guild can choose, their component ids and
//! stored integer codes, and the guild's configuration record.
use vstd::prelude::*;

use crate::text::str_eq;

verus! {

/// A component id that names no known setting or value.
#[derive(Debug, Clone, PartialEq, Eq)]
pub struct UnknownIdError {
    pub id: String,
}

fn unknown(id: &str) -> (r: UnknownIdError)
    ensures
        r.id@ == id@,
{
    UnknownIdError { id: id.to_owned() }
}

/// Which of the settings a menu edits.
#[derive(Clone, Copy, PartialEq, Eq, Structural, Debug)]
pub enum SettingsMenuType {
    SanitizerMode,
    DeletePermission,
    HideOriginalEmbed,
}

pub open spec fn menu_id(m: SettingsMenuType) -> Seq<char> {
    match m {
        SettingsMenuType::SanitizerMode => "sanitizer_mode"@,
        SettingsMenuType::DeletePermission => "delete_permission"@,
        SettingsMenuType::HideOriginalEmbed => "hide_original_embed"@,
    }
}

impl SettingsMenuType {
    /// The component id of the menu.
    pub fn as_ref(&self) -> (r: &'static str)
        ensures
            r@ == menu_id(*self),
    {
        match self {
            SettingsMenuType::SanitizerMode => "sanitizer_mode",
            SettingsMenuType::DeletePermission => "delete_permission",
            SettingsMenuType::HideOriginalEmbed => "hide_original_embed",
        }
    }

    /// The menu whose component id is `s`.
    pub fn parse_id(s: &str) -> (r: Result<SettingsMenuType, UnknownIdError>)
        ensures
            match r {
                Ok(m) => menu_id(m) == s@,
                Err(e) => e.id@ == s@ && forall|m: SettingsMenuType| menu_id(m) != s@,
            },
    {
        if str_eq(s, "sanitizer_mode") {
            Ok(SettingsMenuType::SanitizerMode)
        } else if str_eq(s, "delete_permission") {
            Ok(SettingsMenuType::DeletePermission)
        } else if str_eq(s, "hide_original_embed") {
            Ok(SettingsMenuType::HideOriginalEmbed)
        } else {
            Err(unknown(s))
        }
    }
}

/// When the bot rewrites links in a guild.
#[derive(Clone, Copy, PartialEq, Eq, Structural, Debug)]
pub enum SanitizerMode {
    /// Every message with a link is rewritten.
    Automatic,
    /// Messages with a link get a marker reaction; a person adding it triggers the rewrite.
    ManualEmote,
    /// Only messages that mention the bot, or replies, are rewritten.
    ManualMention,
    /// Both manual paths.
    ManualBoth,
}

pub open spec fn mode_id(m: SanitizerMode) -> Seq<char> {
    match m {
        SanitizerMode::Automatic => "automatic"@,
        SanitizerMode::ManualEmote => "manual_emote"@,
        SanitizerMode::ManualMention => "manual_mention"@,
        SanitizerMode::ManualBoth => "manual_both"@,
    }
}

pub open spec fn mode_code(m: SanitizerMode) -> i32 {
    match m {
        SanitizerMode::Automatic => 0,
        SanitizerMode::ManualEmote => 1,
        SanitizerMode::ManualMention => 2,
        SanitizerMode::ManualBoth => 3,
    }
}

/// The mode a stored integer stands for; unknown codes give the default.
pub open spec fn mode_of_code(v: i32) -> SanitizerMode {
    if v == 1 {
        SanitizerMode::ManualEmote
    } else if v == 2 {
        SanitizerMode::ManualMention
    } else if v == 3 {
        SanitizerMode::ManualBoth
    } else {
        SanitizerMode::Automatic
    }
}

impl SanitizerMode {
    /// The component id of the mode.
    pub fn as_ref(&self) -> (r: &'static str)
        ensures
            r@ == mode_id(*self),
    {
        match self {
            SanitizerMode::Automatic => "automatic",
            SanitizerMode::ManualEmote => "manual_emote",
            SanitizerMode::ManualMention => "manual_mention",
            SanitizerMode::ManualBoth => "manual_both",
        }
    }

    /// The mode whose component id is `s`.
    pub fn parse_id(s: &str) -> (r: Result<SanitizerMode, UnknownIdError>)
        ensures
            match r {
                Ok(m) => mode_id(m) == s@,
                Err(e) => e.id@ == s@ && forall|m: SanitizerMode| mode_id(m) != s@,
            },
    {
        if str_eq(s, "automatic") {
            Ok(SanitizerMode::Automatic)
        } else if str_eq(s, "manual_emote") {
            Ok(SanitizerMode::ManualEmote)
        } else if str_eq(s, "manual_mention") {
            Ok(SanitizerMode::ManualMention)
        } else if str_eq(s, "manual_both") {
            Ok(SanitizerMode::ManualBoth)
        } else {
            Err(unknown(s))
        }
    }

    /// The integer stored for the mode.
    pub fn code(&self) -> (r: i32)
        ensures
            r == mode_code(*self),
    {
        match self {
            SanitizerMode::Automatic => 0,
            SanitizerMode::ManualEmote => 1,
            SanitizerMode::ManualMention => 2,
            SanitizerMode::ManualBoth => 3,
        }
    }

    /// Whether the mode marks link messages with a reaction.
    pub fn uses_emote(&self) -> (r: bool)
        ensures
            r == (*self == SanitizerMode::ManualEmote || *self == SanitizerMode::ManualBoth),
    {
        matches!(self, SanitizerMode::ManualEmote | SanitizerMode::ManualBoth)
    }

    /// Whether the mode rewrites on a mention or a reply.
    pub fn uses_mention(&self) -> (r: bool)
        ensures
            r == (*self == SanitizerMode::ManualMention || *self == SanitizerMode::ManualBoth),
    {
        matches!(self, SanitizerMode::ManualMention | SanitizerMode::ManualBoth)
    }
}

impl Default for SanitizerMode {
    fn default() -> (r: SanitizerMode)
        ensures
            r == SanitizerMode::Automatic,
    {
        SanitizerMode::Automatic
    }
}

impl From<i32> for SanitizerMode {
    fn from(value: i32) -> (r: SanitizerMode) {
        if value == 1 {
            SanitizerMode::ManualEmote
        } else if value == 2 {
            SanitizerMode::ManualMention
        } else if value == 3 {
            SanitizerMode::ManualBoth
        } else {
            SanitizerMode::Automatic
        }
    }
}

impl vstd::std_specs::convert::FromSpecImpl<i32> for SanitizerMode {
    open spec fn obeys_from_spec() -> bool {
        true
    }

    open spec fn from_spec(v: i32) -> SanitizerMode {
        mode_of_code(v)
    }
}

/// Who may delete the bot's rewritten message.
#[derive(Clone, Copy, PartialEq, Eq, Structural, Debug)]
pub enum DeletePermission {
    /// The author of the original message and members who can manage messages.
    AuthorAndMods,
    Everyone,
    /// No delete button is offered.
    Disabled,
}

pub open spec fn permission_id(p: DeletePermission) -> Seq<char> {
    match p {
        DeletePermission::AuthorAndMods => "author_and_mods"@,
        DeletePermission::Everyone => "everyone"@,
        DeletePermission::Disabled => "disabled"@,
    }
}

pub open spec fn permission_code(p: DeletePermission) -> i32 {
    match p {
        DeletePermission::AuthorAndMods => 0,
        DeletePermission::Everyone => 1,
        DeletePermission::Disabled => 2,
    }
}

/// The permission a stored integer stands for; unknown codes give the default.
pub open spec fn permission_of_code(v: i32) -> DeletePermission {
    if v == 1 {
        DeletePermission::Everyone
    } else if v == 2 {
        DeletePermission::Disabled
    } else {
        DeletePermission::AuthorAndMods
    }
}

impl DeletePermission {
    /// The component id of the permission.
    pub fn as_ref(&self) -> (r: &'static str)
        ensures
            r@ == permission_id(*self),
    {
        match self {
            DeletePermission::AuthorAndMods => "author_and_mods",
            DeletePermission::Everyone => "everyone",
            DeletePermission::Disabled => "disabled",
        }
    }

    /// The permission whose component id is `s`.
    pub fn parse_id(s: &str) -> (r: Result<DeletePermission, UnknownIdError>)
        ensures
            match r {
                Ok(p) => permission_id(p) == s@,
                Err(e) => e.id@ == s@ && forall|p: DeletePermission| permission_id(p) != s@,
            },
    {
        if str_eq(s, "author_and_mods") {
            Ok(DeletePermission::AuthorAndMods)
        } else if str_eq(s, "everyone") {
            Ok(DeletePermission::Everyone)
        } else if str_eq(s, "disabled") {
            Ok(DeletePermission::Disabled)
        } else {
            Err(unknown(s))
        }
    }

    /// The integer stored for the permission.
    pub fn code(&self) -> (r: i32)
        ensures
            r == permission_code(*self),
    {
        match self {
            DeletePermission::AuthorAndMods => 0,
            DeletePermission::Everyone => 1,
            DeletePermission::Disabled => 2,
        }
    }
}

impl Default for DeletePermission {
    fn default() -> (r: DeletePermission)
        ensures
            r == DeletePermission::AuthorAndMods,
    {
        DeletePermission::AuthorAndMods
    }
}

impl From<i32> for DeletePermission {
    fn from(value: i32) -> (r: DeletePermission) {
        if value == 1 {
            DeletePermission::Everyone
        } else if value == 2 {
            DeletePermission::Disabled
        } else {
            DeletePermission::AuthorAndMods
        }
    }
}

impl vstd::std_specs::convert::FromSpecImpl<i32> for DeletePermission {
    open spec fn obeys_from_spec() -> bool {
        true
    }

    open spec fn from_spec(v: i32) -> DeletePermission {
        permission_of_code(v)
    }
}

/// Whether the original message's own link preview is hidden after a rewrite.
#[derive(Clone, Copy, PartialEq, Eq, Structural, Debug)]
pub enum HideOriginalEmbed {
    On,
    Off,
}

pub open spec fn hide_id(h: HideOriginalEmbed) -> Seq<char> {
    match h {
        HideOriginalEmbed::On => "on"@,
        HideOriginalEmbed::Off => "off"@,
    }
}

impl HideOriginalEmbed {
    /// The component id of the setting.
    pub fn as_ref(&self) -> (r: &'static str)
        ensures
            r@ == hide_id(*self),
    {
        match self {
            HideOriginalEmbed::On => "on",
            HideOriginalEmbed::Off => "off",
        }
    }

    /// The setting whose component id is `s`.
    pub fn parse_id(s: &str) -> (r: Result<HideOriginalEmbed, UnknownIdError>)
        ensures
            match r {
                Ok(h) => hide_id(h) == s@,
                Err(e) => e.id@ == s@ && forall|h: HideOriginalEmbed| hide_id(h) != s@,
            },
    {
        if str_eq(s, "on") {
            Ok(HideOriginalEmbed::On)
        } else if str_eq(s, "off") {
            Ok(HideOriginalEmbed::Off)
        } else {
            Err(unknown(s))
        }
    }

    /// The setting for a stored flag.
    pub fn from_flag(hide: bool) -> (r: HideOriginalEmbed)
        ensures
            r == (if hide {
                HideOriginalEmbed::On
            } else {
                HideOriginalEmbed::Off
            }),
    {
        if hide {
            HideOriginalEmbed::On
        } else {
            HideOriginalEmbed::Off
        }
    }

    /// The flag stored for the setting.
    pub fn is_on(&self) -> (r: bool)
        ensures
            r == (*self == HideOriginalEmbed::On),
    {
        matches!(self, HideOriginalEmbed::On)
    }
}

impl Default for HideOriginalEmbed {
    fn default() -> (r: HideOriginalEmbed)
        ensures
            r == HideOriginalEmbed::On,
    {
        HideOriginalEmbed::On
    }
}

impl std::str::FromStr for SettingsMenuType {
    type Err = UnknownIdError;

    fn from_str(s: &str) -> Result<SettingsMenuType, UnknownIdError> {
        SettingsMenuType::parse_id(s)
    }
}

impl std::str::FromStr for SanitizerMode {
    type Err = UnknownIdError;

    fn from_str(s: &str) -> Result<SanitizerMode, UnknownIdError> {
        SanitizerMode::parse_id(s)
    }
}

impl std::str::FromStr for DeletePermission {
    type Err = UnknownIdError;

    fn from_str(s: &str) -> Result<DeletePermission, UnknownIdError> {
        DeletePermission::parse_id(s)
    }
}

impl std::str::FromStr for HideOriginalEmbed {
    type Err = UnknownIdError;

    fn from_str(s: &str) -> Result<HideOriginalEmbed, UnknownIdError> {
        HideOriginalEmbed::parse_id(s)
    }
}

/// Component ids name each value of a setting exactly once.
pub proof fn lemma_component_ids_distinct()
    ensures
        forall|a: SanitizerMode, b: SanitizerMode| mode_id(a) == mode_id(b) ==> a == b,
        forall|a: DeletePermission, b: DeletePermission|
            permission_id(a) == permission_id(b) ==> a == b,
        forall|a: HideOriginalEmbed, b: HideOriginalEmbed| hide_id(a) == hide_id(b) ==> a == b,
        forall|a: SettingsMenuType, b: SettingsMenuType| menu_id(a) == menu_id(b) ==> a == b,
{
    reveal_strlit("automatic");
    reveal_strlit("manual_emote");
    reveal_strlit("manual_mention");
    reveal_strlit("manual_both");
    reveal_strlit("author_and_mods");
    reveal_strlit("everyone");
    reveal_strlit("disabled");
    reveal_strlit("on");
    reveal_strlit("off");
    reveal_strlit("sanitizer_mode");
    reveal_strlit("delete_permission");
    reveal_strlit("hide_original_embed");
    assert("manual_emote"@[7] != "manual_mention"@[7]);
    assert("manual_emote"@[7] != "manual_both"@[7]);
    assert("manual_mention"@[7] != "manual_both"@[7]);
    assert("everyone"@[0] != "disabled"@[0]);
    assert("author_and_mods"@.len() != "everyone"@.len());
    assert("author_and_mods"@.len() != "disabled"@.len());
    assert("on"@.len() != "off"@.len());
    assert("sanitizer_mode"@.len() != "delete_permission"@.len());
    assert("sanitizer_mode"@.len() != "hide_original_embed"@.len());
    assert("delete_permission"@.len() != "hide_original_embed"@.len());
}

/// Reading back the id of a setting value gives that value again.
pub proof fn lemma_component_id_round_trip(
    m: SanitizerMode,
    pm: DeletePermission,
    h: HideOriginalEmbed,
    t: SettingsMenuType,
    rm: SanitizerMode,
    rp: DeletePermission,
    rh: HideOriginalEmbed,
    rt: SettingsMenuType,
)
    requires
        mode_id(rm) == mode_id(m),
        permission_id(rp) == permission_id(pm),
        hide_id(rh) == hide_id(h),
        menu_id(rt) == menu_id(t),
    ensures
        rm == m,
        rp == pm,
        rh == h,
        rt == t,
{
    lemma_component_ids_distinct();
}

/// Storing a setting as its integer code and reading it back gives it again.
pub proof fn lemma_code_round_trip(m: SanitizerMode, p: DeletePermission)
    ensures
        mode_of_code(mode_code(m)) == m,
        permission_of_code(permission_code(p)) == p,
{
}

/// A guild's configuration, one record per guild.
#[derive(Clone, Copy, PartialEq, Eq, Structural, Debug)]
pub struct ServerConfig {
    pub guild_id: u64,
    pub sanitizer_mode: SanitizerMode,
    pub delete_permission: DeletePermission,
    pub hide_original_embed: bool,
}

/// The configuration of a guild that has stored none.
pub open spec fn default_config(guild_id: u64) -> ServerConfig {
    ServerConfig {
        guild_id,
        sanitizer_mode: SanitizerMode::Automatic,
        delete_permission: DeletePermission::AuthorAndMods,
        hide_original_embed: true,
    }
}

/// The configuration after choosing a value whose id is `value` in menu `menu`.
pub open spec fn select_spec(c: ServerConfig, menu: SettingsMenuType, value: Seq<char>) -> Option<
    ServerConfig,
> {
    match menu {
        SettingsMenuType::SanitizerMode => if exists|m: SanitizerMode| mode_id(m) == value {
            Some(
                ServerConfig {
                    sanitizer_mode: choose|m: SanitizerMode| mode_id(m) == value,
                    ..c
                },
            )
        } else {
            None
        },
        SettingsMenuType::DeletePermission => if exists|p: DeletePermission|
            permission_id(p) == value {
            Some(
                ServerConfig {
                    delete_permission: choose|p: DeletePermission| permission_id(p) == value,
                    ..c
                },
            )
        } else {
            None
        },
        SettingsMenuType::HideOriginalEmbed => if value == hide_id(HideOriginalEmbed::On) {
            Some(ServerConfig { hide_original_embed: true, ..c })
        } else if value == hide_id(HideOriginalEmbed::Off) {
            Some(ServerConfig { hide_original_embed: false, ..c })
        } else {
            None
        },
    }
}

impl ServerConfig {
    pub open spec fn new_spec(guild_id: u64) -> ServerConfig {
        default_config(guild_id)
    }

    /// The default configuration of a guild.
    pub fn new(guild_id: u64) -> (r: ServerConfig)
        ensures
            r == default_config(guild_id),
    {
        ServerConfig {
            guild_id,
            sanitizer_mode: SanitizerMode::Automatic,
            delete_permission: DeletePermission::AuthorAndMods,
            hide_original_embed: true,
        }
    }

    /// The default configuration of a guild, as `new` gives it.
    pub fn default(guild_id: u64) -> (r: ServerConfig)
        ensures
            r == default_config(guild_id),
    {
        ServerConfig::new(guild_id)
    }

    /// Decodes a stored row; out-of-range codes decode to the defaults.
    pub fn from_row(guild_id: u64, mode: i32, permission: i32, hide: bool) -> (r: ServerConfig)
        ensures
            r == (ServerConfig {
                guild_id,
                sanitizer_mode: mode_of_code(mode),
                delete_permission: permission_of_code(permission),
                hide_original_embed: hide,
            }),
    {
        ServerConfig {
            guild_id,
            sanitizer_mode: SanitizerMode::from(mode),
            delete_permission: DeletePermission::from(permission),
            hide_original_embed: hide,
        }
    }

    /// Applies the value with id `value` chosen in menu `menu`; an id the
    /// menu does not offer is an error and changes nothing.
    pub fn with_selection(self, menu: SettingsMenuType, value: &str) -> (r: Result<
        ServerConfig,
        UnknownIdError,
    >)
        ensures
            match select_spec(self, menu, value@) {
                Some(c) => r == Ok::<ServerConfig, UnknownIdError>(c),
                None => r matches Err(e) && e.id@ == value@,
            },
    {
        proof {
            lemma_component_ids_distinct();
        }
        match menu {
            SettingsMenuType::SanitizerMode => match SanitizerMode::parse_id(value) {
                Ok(m) => Ok(ServerConfig { sanitizer_mode: m, ..self }),
                Err(e) => Err(e),
            },
            SettingsMenuType::DeletePermission => match DeletePermission::parse_id(value) {
                Ok(p) => Ok(ServerConfig { delete_permission: p, ..self }),
                Err(e) => Err(e),
            },
            SettingsMenuType::HideOriginalEmbed => match HideOriginalEmbed::parse_id(value) {
                Ok(h) => Ok(ServerConfig { hide_original_embed: h.is_on(), ..self }),
                Err(e) => Err(e),
            },
        }
    }
}

/// What a message component of the bot asks for.
#[derive(Clone, Copy, PartialEq, Eq, Structural, Debug)]
pub enum ComponentAction {
    /// The delete button under a rewritten link.
    Delete,
    /// A settings menu.
    Settings(SettingsMenuType),
}

/// Resolves a component's custom id: `delete`, or a settings menu id.
pub fn parse_component_id(id: &str) -> (r: Result<ComponentAction, UnknownIdError>)
    ensures
        match r {
            Ok(ComponentAction::Delete) => id@ == "delete"@,
            Ok(ComponentAction::Settings(m)) => id@ != "delete"@ && menu_id(m) == id@,
            Err(e) => e.id@ == id@ && id@ != "delete"@ && forall|m: SettingsMenuType|
                menu_id(m) != id@,
        },
{
    if str_eq(id, "delete") {
        Ok(ComponentAction::Delete)
    } else {
        match SettingsMenuType::parse_id(id) {
            Ok(m) => Ok(ComponentAction::Settings(m)),
            Err(e) => Err(e),
        }
    }
}

/// Links a rewritten reply to the message it answers.
#[derive(Clone, Copy, PartialEq, Eq, Structural, Debug)]
pub struct ResponseMap {
    pub user_message_id: u64,
    pub bot_message_id: u64,
    pub guild_id: Option<u64>,
    pub channel_id: u64,
}

impl ResponseMap {
    pub fn new(user_message_id: u64, bot_message_id: u64, guild_id: Option<u64>, channel_id: u64) -> (r: ResponseMap)
        ensures
            r == (ResponseMap { user_message_id, bot_message_id, guild_id, channel_id }),
    {
        ResponseMap { user_message_id, bot_message_id, guild_id, channel_id }
    }
}

} // verus!
