//! The settings: their defaults, and how stored and ambient values are laid over them.

pub use crate::dialogue::configure;
use crate::error::{Error, Field};
use crate::validate::verdict;
use vstd::prelude::*;
use vstd::string::StringExecFns;

verus! {

/// Where the settings are stored, below the home directory.
pub const DEFAULT_CONFIG_PATH: &'static str = "/.config/slacks.json";

/// The username, unless one is set.
pub const DEFAULT_USERNAME: &'static str = "slacks";

/// The icon, unless one is set.
pub const DEFAULT_ICON_EMOJI: &'static str = ":slack:";

/// The channel, unless one is set.
pub const DEFAULT_CHANNEL: &'static str = "#general";

/// The settings with which a message is posted.
#[derive(Debug, Clone, PartialEq, Eq)]
pub struct Configs {
    pub webhook_url: Option<String>,
    pub channel: Option<String>,
    pub username: Option<String>,
    pub icon_emoji: Option<String>,
    pub debug_mode: bool,
}

/// The settings as plain values.
pub struct ConfigsView {
    pub webhook_url: Option<Seq<char>>,
    pub channel: Option<Seq<char>>,
    pub username: Option<Seq<char>>,
    pub icon_emoji: Option<Seq<char>>,
    pub debug_mode: bool,
}

impl View for Configs {
    type V = ConfigsView;

    open spec fn view(&self) -> ConfigsView {
        ConfigsView {
            webhook_url: self.webhook_url.deep_view(),
            channel: self.channel.deep_view(),
            username: self.username.deep_view(),
            icon_emoji: self.icon_emoji.deep_view(),
            debug_mode: self.debug_mode,
        }
    }
}

impl ConfigsView {
    /// The settings before anything is stored: no webhook URL, and the default channel,
    /// username and icon.
    pub open spec fn defaults(debug_mode: bool) -> ConfigsView {
        ConfigsView {
            webhook_url: None,
            channel: Some(DEFAULT_CHANNEL@),
            username: Some(DEFAULT_USERNAME@),
            icon_emoji: Some(DEFAULT_ICON_EMOJI@),
            debug_mode,
        }
    }

    /// No setting at all.
    pub open spec fn blank() -> ConfigsView {
        ConfigsView {
            webhook_url: None,
            channel: None,
            username: None,
            icon_emoji: None,
            debug_mode: false,
        }
    }

    /// The value of `field`.
    pub open spec fn get(self, field: Field) -> Option<Seq<char>> {
        match field {
            Field::WebhookUrl => self.webhook_url,
            Field::Channel => self.channel,
            Field::Username => self.username,
            Field::IconEmoji => self.icon_emoji,
        }
    }

    /// These settings with `value` for `field`.
    pub open spec fn set(self, field: Field, value: Option<Seq<char>>) -> ConfigsView {
        match field {
            Field::WebhookUrl => ConfigsView { webhook_url: value, ..self },
            Field::Channel => ConfigsView { channel: value, ..self },
            Field::Username => ConfigsView { username: value, ..self },
            Field::IconEmoji => ConfigsView { icon_emoji: value, ..self },
        }
    }

    /// These settings with the four fields of `stored` in place of their own; `debug_mode`
    /// stays.
    pub open spec fn overlaid(self, stored: ConfigsView) -> ConfigsView {
        ConfigsView {
            webhook_url: stored.webhook_url,
            channel: stored.channel,
            username: stored.username,
            icon_emoji: stored.icon_emoji,
            debug_mode: self.debug_mode,
        }
    }

    /// These settings as they are stored: `debug_mode` is off, whatever it was.
    pub open spec fn persisted(self) -> ConfigsView {
        ConfigsView { debug_mode: false, ..self }
    }

    /// Whether a message can be posted with these settings as they are: each of the four
    /// fields has a value that its validator accepts.
    pub open spec fn complete(self) -> bool {
        forall|field: Field| #[trigger] verdict(field, self.get(field)) is Ok
    }

    /// The settings that a run works with: the defaults, the stored settings over them if
    /// there are any, and over both the webhook URL of the environment if it has one.
    pub open spec fn resolved(
        debug_mode: bool,
        stored: Option<ConfigsView>,
        env_webhook_url: Option<Seq<char>>,
    ) -> ConfigsView {
        let base = match stored {
            Some(s) => Self::defaults(debug_mode).overlaid(s),
            None => Self::defaults(debug_mode),
        };
        match env_webhook_url {
            Some(url) => ConfigsView { webhook_url: Some(url), ..base },
            None => base,
        }
    }
}

/// The view of an optional stored record.
pub open spec fn stored_view(stored: Option<Configs>) -> Option<ConfigsView> {
    match stored {
        Some(s) => Some(s@),
        None => None,
    }
}

impl Configs {
    /// The settings before anything is stored.
    pub fn defaults(debug_mode: bool) -> (configs: Configs)
        ensures
            configs@ == ConfigsView::defaults(debug_mode),
    {
        Configs {
            webhook_url: None,
            channel: Some(DEFAULT_CHANNEL.to_owned()),
            username: Some(DEFAULT_USERNAME.to_owned()),
            icon_emoji: Some(DEFAULT_ICON_EMOJI.to_owned()),
            debug_mode,
        }
    }

    /// Lays the four fields of `stored` over these settings; `debug_mode` stays as it is.
    pub fn load(&mut self, stored: Configs)
        ensures
            final(self)@ == old(self)@.overlaid(stored@),
    {
        self.webhook_url = stored.webhook_url;
        self.channel = stored.channel;
        self.username = stored.username;
        self.icon_emoji = stored.icon_emoji;
    }

    /// These settings as they are stored: `debug_mode` is off, whatever it was.
    pub fn persisted(self) -> (stored: Configs)
        ensures
            stored@ == self@.persisted(),
            !stored.debug_mode,
    {
        Configs {
            webhook_url: self.webhook_url,
            channel: self.channel,
            username: self.username,
            icon_emoji: self.icon_emoji,
            debug_mode: false,
        }
    }

    /// The value of `field`.
    pub fn get(&self, field: Field) -> (value: &Option<String>)
        ensures
            value.deep_view() == self@.get(field),
    {
        match field {
            Field::WebhookUrl => &self.webhook_url,
            Field::Channel => &self.channel,
            Field::Username => &self.username,
            Field::IconEmoji => &self.icon_emoji,
        }
    }

    /// Gives `field` the value `value`.
    pub fn set(&mut self, field: Field, value: Option<String>)
        ensures
            final(self)@ == old(self)@.set(field, value.deep_view()),
    {
        match field {
            Field::WebhookUrl => self.webhook_url = value,
            Field::Channel => self.channel = value,
            Field::Username => self.username = value,
            Field::IconEmoji => self.icon_emoji = value,
        }
    }
}

/// The settings that a run works with. `stored` is the record that was read from the
/// settings file, if one could be read; `env_webhook_url` is the webhook URL that the
/// environment holds, if it holds one. The stored record replaces the defaults field by
/// field, the webhook URL of the environment replaces whatever webhook URL there was, and
/// `debug_mode` is `is_debug_mode` whatever was stored.
pub fn get_configs(
    is_debug_mode: bool,
    stored: Option<Configs>,
    env_webhook_url: Option<String>,
) -> (configs: Configs)
    ensures
        configs@ == ConfigsView::resolved(
            is_debug_mode,
            stored_view(stored),
            env_webhook_url.deep_view(),
        ),
        configs.debug_mode == is_debug_mode,
        env_webhook_url is Some ==> configs.webhook_url == env_webhook_url,
{
    let mut configs = Configs::defaults(is_debug_mode);
    match stored {
        Some(s) => configs.load(s),
        None => {},
    }
    match env_webhook_url {
        Some(url) => configs.webhook_url = Some(url),
        None => {},
    }
    configs
}

/// The path of the settings file: [`DEFAULT_CONFIG_PATH`] below the home directory. `home`
/// is the home directory, or why it is not known; in the second case there is no path, and
/// the error holds the cause.
pub fn get_config_path(home: Result<String, String>) -> (path: Result<String, Error>)
    ensures
        match home {
            Ok(dir) => path matches Ok(p) && p@ == dir@ + DEFAULT_CONFIG_PATH@,
            Err(cause) => path matches Err(Error::HomeUnset(c)) && c@ == cause@,
        },
{
    match home {
        Ok(dir) => Ok(dir.concat(DEFAULT_CONFIG_PATH)),
        Err(cause) => Err(Error::HomeUnset(cause)),
    }
}

/// The webhook URL of the environment goes before the stored one: where the environment
/// holds one, it is the webhook URL of the run, whatever is stored, and nothing else of the
/// settings depends on it.
pub proof fn lemma_environment_goes_first(
    debug_mode: bool,
    stored: Option<ConfigsView>,
    url: Seq<char>,
)
    ensures
        ConfigsView::resolved(debug_mode, stored, Some(url)) == (ConfigsView {
            webhook_url: Some(url),
            ..ConfigsView::resolved(debug_mode, stored, None)
        }),
{
}

/// What is stored comes back: with no webhook URL in the environment, the settings of a
/// run are the stored record field by field, but for `debug_mode`, which is that of the
/// run. Stored and laid over settings that have `debug_mode` off, a record comes back with
/// `debug_mode` off and is otherwise the same.
pub proof fn lemma_stored_settings_come_back(debug_mode: bool, record: ConfigsView)
    ensures
        ConfigsView::resolved(debug_mode, Some(record.persisted()), None) == (ConfigsView {
            debug_mode,
            ..record
        }),
        ConfigsView::defaults(false).overlaid(record.persisted()) == record.persisted(),
        !record.persisted().debug_mode,
{
}

} // verus!
