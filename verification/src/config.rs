//! The configuration of a session and the rules it must meet.

use vstd::prelude::*;
use vstd::string::StringExecFns;
use vstd::string::StringSliceAdditionalSpecFns;
use vstd::utf8::is_ascii_chars;
use vstd::utf8::is_ascii_chars_encode_utf8;
use crate::errors::config_error;
use crate::errors::ErrorView;
use crate::errors::ReplicationError;
use crate::utils::text::is_blank;
use crate::utils::text::lowercase;
use crate::utils::text::spec_starts_with;
use crate::utils::text::spec_is_blank;
use crate::utils::text::spec_lowercase;
use crate::utils::text::starts_with;
use crate::utils::text::str_equal;

verus! {

/// Longest name of a slot, in characters.
pub const MAX_SLOT_NAME_LENGTH: usize = 63;

/// Seconds between two feedback frames unless told otherwise.
pub const DEFAULT_FEEDBACK_INTERVAL_SECS: u64 = 1;

/// Where events go.
#[derive(Debug, Clone, Copy, PartialEq, Eq, Structural)]
pub enum EventSinkType {
    /// To an HTTP endpoint.
    Http,
    /// To the webhook service.
    Hook0,
    /// To standard output.
    Stdout,
}

impl EventSinkType {
    /// The name of the sink kind.
    pub open spec fn spec_name(self) -> Seq<char> {
        match self {
            EventSinkType::Http => "http"@,
            EventSinkType::Hook0 => "hook0"@,
            EventSinkType::Stdout => "stdout"@,
        }
    }

    /// The name of the sink kind.
    pub fn as_str(&self) -> (s: &'static str)
        ensures
            s@ == self.spec_name(),
    {
        match self {
            EventSinkType::Http => "http",
            EventSinkType::Hook0 => "hook0",
            EventSinkType::Stdout => "stdout",
        }
    }

    /// The name of the sink kind, as a string of its own.
    pub fn to_string(&self) -> (s: String)
        ensures
            s@ == self.spec_name(),
    {
        String::from_str(self.as_str())
    }
}

/// Where failure notices are mailed from, to, and through.
#[derive(Debug, Clone)]
pub struct EmailConfig {
    pub smtp_host: String,
    pub smtp_port: u16,
    pub smtp_username: String,
    pub smtp_password: String,
    pub from_email: String,
    pub to_email: String,
}

/// A validated configuration.
#[derive(Debug, Clone)]
pub struct ReplicationConfig {
    pub connection_string: String,
    pub publication_name: String,
    pub slot_name: String,
    pub feedback_interval_secs: u64,
    pub event_sink: EventSinkType,
    pub http_endpoint_url: Option<String>,
    pub hook0_api_url: Option<String>,
    /// Application id at the webhook service: a UUID as a 128-bit number.
    pub hook0_application_id: Option<u128>,
    pub hook0_api_token: Option<String>,
}

/// Mathematical content of a `ReplicationConfig`.
pub struct ConfigView {
    pub connection_string: Seq<char>,
    pub publication_name: Seq<char>,
    pub slot_name: Seq<char>,
    pub feedback_interval_secs: u64,
    pub event_sink: EventSinkType,
    pub http_endpoint_url: Option<Seq<char>>,
    pub hook0_api_url: Option<Seq<char>>,
    pub hook0_application_id: Option<u128>,
    pub hook0_api_token: Option<Seq<char>>,
}

/// The text of an optional string.
pub open spec fn opt_text(s: Option<String>) -> Option<Seq<char>> {
    match s {
        Some(t) => Some(t@),
        None => None,
    }
}

impl View for ReplicationConfig {
    type V = ConfigView;

    open spec fn view(&self) -> ConfigView {
        ConfigView {
            connection_string: self.connection_string@,
            publication_name: self.publication_name@,
            slot_name: self.slot_name@,
            feedback_interval_secs: self.feedback_interval_secs,
            event_sink: self.event_sink,
            http_endpoint_url: opt_text(self.http_endpoint_url),
            hook0_api_url: opt_text(self.hook0_api_url),
            hook0_application_id: self.hook0_application_id,
            hook0_api_token: opt_text(self.hook0_api_token),
        }
    }
}

/// What a configuration is made from, as mathematical values.
pub struct ConfigInput {
    pub connection_string: Seq<char>,
    pub publication_name: Seq<char>,
    pub slot_name: Seq<char>,
    pub event_sink: Option<Seq<char>>,
    pub http_endpoint_url: Option<Seq<char>>,
    pub hook0_api_url: Option<Seq<char>>,
    pub hook0_application_id: Option<u128>,
    pub hook0_api_token: Option<Seq<char>>,
}

/// Whether a character may stand in the name of a slot: a letter or digit of
/// ASCII, or an underscore.
pub open spec fn is_slot_char(c: char) -> bool {
    ('a' <= c <= 'z') || ('A' <= c <= 'Z') || ('0' <= c <= '9') || c == '_'
}

/// Whether every character of `name` may stand in the name of a slot.
pub open spec fn spec_slot_chars(name: Seq<char>) -> bool {
    forall|i: int| 0 <= i < name.len() ==> is_slot_char(#[trigger] name[i])
}

/// Whether a text is missing or blank.
pub open spec fn missing(s: Option<Seq<char>>) -> bool {
    match s {
        None => true,
        Some(t) => spec_is_blank(t),
    }
}

/// Whether a URL begins with `http://` or `https://`.
pub open spec fn spec_is_http_url(url: Seq<char>) -> bool {
    spec_starts_with(url, "http://"@) || spec_starts_with(url, "https://"@)
}

/// The sink that the setting `event_sink` chooses, or why it chooses none.
/// No setting means standard output. The webhook service is chosen by
/// `hook0` or `webhook`; the case of the letters does not count.
pub open spec fn spec_sink_choice(input: ConfigInput) -> Result<EventSinkType, ErrorView> {
    match input.event_sink {
        None => Ok(EventSinkType::Stdout),
        Some(name) => {
            let lower = spec_lowercase(name);
            if lower == "http"@ {
                if missing(input.http_endpoint_url) {
                    Err(config_error("HTTP_ENDPOINT_URL is required when using 'http' event sink"@))
                } else if !spec_is_http_url(input.http_endpoint_url->Some_0) {
                    Err(config_error("HTTP_ENDPOINT_URL must start with http:// or https://"@))
                } else {
                    Ok(EventSinkType::Http)
                }
            } else if lower == "hook0"@ || lower == "webhook"@ {
                if missing(input.hook0_api_url) {
                    Err(config_error("HOOK0_API_URL is required when using 'hook0' event sink"@))
                } else if input.hook0_application_id is None {
                    Err(
                        config_error(
                            "HOOK0_APPLICATION_ID is required when using 'hook0' event sink"@,
                        ),
                    )
                } else if missing(input.hook0_api_token) {
                    Err(config_error("HOOK0_API_TOKEN is required when using 'hook0' event sink"@))
                } else if !spec_is_http_url(input.hook0_api_url->Some_0) {
                    Err(config_error("HOOK0_API_URL must start with http:// or https://"@))
                } else {
                    Ok(EventSinkType::Hook0)
                }
            } else if lower == "stdout"@ {
                Ok(EventSinkType::Stdout)
            } else {
                Err(config_error("EVENT_SINK must be one of: 'http', 'hook0', or 'stdout'"@))
            }
        },
    }
}

/// The configuration that the input makes, or the first rule that it
/// breaks.
pub open spec fn spec_validate(input: ConfigInput) -> Result<ConfigView, ErrorView> {
    if spec_is_blank(input.connection_string) {
        Err(config_error("DATABASE_URL cannot be empty"@))
    } else if spec_is_blank(input.publication_name) {
        Err(config_error("Publication name cannot be empty"@))
    } else if spec_is_blank(input.slot_name) {
        Err(config_error("Slot name cannot be empty"@))
    } else if !spec_slot_chars(input.slot_name) {
        Err(config_error("Slot name can only contain alphanumeric characters and underscores"@))
    } else if input.slot_name.len() > MAX_SLOT_NAME_LENGTH {
        Err(config_error("Slot name cannot be longer than 63 characters"@))
    } else {
        match spec_sink_choice(input) {
            Err(e) => Err(e),
            Ok(sink) => Ok(
                ConfigView {
                    connection_string: input.connection_string,
                    publication_name: input.publication_name,
                    slot_name: input.slot_name,
                    feedback_interval_secs: DEFAULT_FEEDBACK_INTERVAL_SECS,
                    event_sink: sink,
                    http_endpoint_url: input.http_endpoint_url,
                    hook0_api_url: input.hook0_api_url,
                    hook0_application_id: input.hook0_application_id,
                    hook0_api_token: input.hook0_api_token,
                },
            ),
        }
    }
}

/// A configuration that passed validation has a slot name of one to
/// sixty-three letters, digits and underscores, and a publication name that
/// is not blank.
pub proof fn lemma_valid_configuration(input: ConfigInput)
    ensures
        spec_validate(input) matches Ok(c) ==> {
            &&& spec_slot_chars(c.slot_name)
            &&& c.slot_name.len() <= MAX_SLOT_NAME_LENGTH
            &&& !spec_is_blank(c.slot_name)
            &&& !spec_is_blank(c.publication_name)
            &&& !spec_is_blank(c.connection_string)
            &&& (c.event_sink == EventSinkType::Http ==> c.http_endpoint_url is Some
                && spec_is_http_url(c.http_endpoint_url->Some_0))
            &&& (c.event_sink == EventSinkType::Hook0 ==> c.hook0_api_url is Some
                && spec_is_http_url(c.hook0_api_url->Some_0) && c.hook0_application_id is Some
                && c.hook0_api_token is Some)
        },
{
}

/// Whether a byte may stand in the name of a slot.
fn is_slot_byte(b: u8) -> (ok: bool)
    ensures
        ok == is_slot_char(b as char),
{
    (0x61 <= b && b <= 0x7A) || (0x41 <= b && b <= 0x5A) || (0x30 <= b && b <= 0x39) || b == 0x5F
}

/// Whether every character of `name` may stand in the name of a slot.
pub fn has_slot_chars(name: &str) -> (ok: bool)
    ensures
        ok == spec_slot_chars(name@),
        ok ==> name@.len() == name.spec_bytes().len(),
{
    if !name.is_ascii() {
        proof {
            let i = choose|i: int| 0 <= i < name@.len() && !('\0' <= #[trigger] name@[i] <= '\u{7f}');
            assert(!is_slot_char(name@[i]));
        }
        return false;
    }
    proof {
        is_ascii_chars_encode_utf8(name@);
    }
    let bytes = name.as_bytes();
    let mut i: usize = 0;
    while i < bytes.len()
        invariant
            i <= bytes@.len(),
            bytes@ == name.spec_bytes(),
            bytes@.len() == name@.len(),
            is_ascii_chars(name@),
            forall|k: int| 0 <= k < name@.len() ==> name@[k] as u8 == #[trigger] bytes@[k],
            forall|k: int| 0 <= k < i ==> is_slot_char(#[trigger] name@[k]),
        decreases bytes@.len() - i,
    {
        if !is_slot_byte(bytes[i]) {
            proof {
                let c = name@[i as int];
                assert('\0' <= c <= '\u{7f}');
                assert(c as u8 == bytes@[i as int]);
                assert((c as u8) as char == c);
                assert(!is_slot_char(name@[i as int]));
            }
            return false;
        }
        proof {
            let c = name@[i as int];
            assert('\0' <= c <= '\u{7f}');
            assert(c as u8 == bytes@[i as int]);
            assert((c as u8) as char == c);
        }
        i += 1;
    }
    true
}

/// Whether a text is missing or blank.
fn is_missing(s: &Option<String>) -> (b: bool)
    ensures
        b == missing(opt_text(*s)),
{
    match s {
        None => true,
        Some(t) => is_blank(t.as_str()),
    }
}

/// Whether a URL begins with `http://` or `https://`.
pub fn is_http_url(url: &str) -> (b: bool)
    ensures
        b == spec_is_http_url(url@),
{
    starts_with(url, "http://") || starts_with(url, "https://")
}

impl ReplicationConfig {
    /// The input that a configuration is made from.
    pub open spec fn input(
        connection_string: String,
        publication_name: String,
        slot_name: String,
        event_sink: Option<String>,
        http_endpoint_url: Option<String>,
        hook0_api_url: Option<String>,
        hook0_application_id: Option<u128>,
        hook0_api_token: Option<String>,
    ) -> ConfigInput {
        ConfigInput {
            connection_string: connection_string@,
            publication_name: publication_name@,
            slot_name: slot_name@,
            event_sink: opt_text(event_sink),
            http_endpoint_url: opt_text(http_endpoint_url),
            hook0_api_url: opt_text(hook0_api_url),
            hook0_application_id,
            hook0_api_token: opt_text(hook0_api_token),
        }
    }

    /// The sink that the settings choose, or why they choose none.
    fn choose_sink(
        event_sink: &Option<String>,
        http_endpoint_url: &Option<String>,
        hook0_api_url: &Option<String>,
        hook0_application_id: Option<u128>,
        hook0_api_token: &Option<String>,
    ) -> (r: Result<EventSinkType, ReplicationError>)
        ensures
            match r {
                Ok(sink) => forall|input: ConfigInput|
                    input.event_sink == opt_text(*event_sink) && input.http_endpoint_url
                        == opt_text(*http_endpoint_url) && input.hook0_api_url == opt_text(
                        *hook0_api_url,
                    ) && input.hook0_application_id == hook0_application_id
                        && input.hook0_api_token == opt_text(*hook0_api_token)
                        ==> #[trigger] spec_sink_choice(input) == Ok::<_, ErrorView>(sink),
                Err(e) => forall|input: ConfigInput|
                    input.event_sink == opt_text(*event_sink) && input.http_endpoint_url
                        == opt_text(*http_endpoint_url) && input.hook0_api_url == opt_text(
                        *hook0_api_url,
                    ) && input.hook0_application_id == hook0_application_id
                        && input.hook0_api_token == opt_text(*hook0_api_token)
                        ==> #[trigger] spec_sink_choice(input) == Err::<EventSinkType, _>(e@),
            },
    {
        let name = match event_sink {
            None => {
                return Ok(EventSinkType::Stdout);
            },
            Some(name) => lowercase(name.as_str()),
        };
        if str_equal(name.as_str(), "http") {
            if is_missing(http_endpoint_url) {
                return Err(
                    ReplicationError::config(
                        "HTTP_ENDPOINT_URL is required when using 'http' event sink",
                    ),
                );
            }
            match http_endpoint_url {
                Some(url) => {
                    if !is_http_url(url.as_str()) {
                        return Err(
                            ReplicationError::config(
                                "HTTP_ENDPOINT_URL must start with http:// or https://",
                            ),
                        );
                    }
                },
                None => {},
            }
            Ok(EventSinkType::Http)
        } else if str_equal(name.as_str(), "hook0") || str_equal(name.as_str(), "webhook") {
            if is_missing(hook0_api_url) {
                return Err(
                    ReplicationError::config(
                        "HOOK0_API_URL is required when using 'hook0' event sink",
                    ),
                );
            }
            if hook0_application_id.is_none() {
                return Err(
                    ReplicationError::config(
                        "HOOK0_APPLICATION_ID is required when using 'hook0' event sink",
                    ),
                );
            }
            if is_missing(hook0_api_token) {
                return Err(
                    ReplicationError::config(
                        "HOOK0_API_TOKEN is required when using 'hook0' event sink",
                    ),
                );
            }
            match hook0_api_url {
                Some(url) => {
                    if !is_http_url(url.as_str()) {
                        return Err(
                            ReplicationError::config(
                                "HOOK0_API_URL must start with http:// or https://",
                            ),
                        );
                    }
                },
                None => {},
            }
            Ok(EventSinkType::Hook0)
        } else if str_equal(name.as_str(), "stdout") {
            Ok(EventSinkType::Stdout)
        } else {
            Err(ReplicationError::config("EVENT_SINK must be one of: 'http', 'hook0', or 'stdout'"))
        }
    }

    /// Checks the settings and makes a configuration of them. The first rule
    /// that is broken is reported: the connection string, the publication
    /// name and the slot name must not be blank; the slot name must be made
    /// of letters, digits and underscores and be at most 63 long; the sink
    /// must be known and have what it needs.
    pub fn validate_and_create(
        connection_string: String,
        publication_name: String,
        slot_name: String,
        event_sink: Option<String>,
        http_endpoint_url: Option<String>,
        hook0_api_url: Option<String>,
        hook0_application_id: Option<u128>,
        hook0_api_token: Option<String>,
    ) -> (r: Result<Self, ReplicationError>)
        ensures
            match r {
                Ok(c) => spec_validate(
                    Self::input(
                        connection_string,
                        publication_name,
                        slot_name,
                        event_sink,
                        http_endpoint_url,
                        hook0_api_url,
                        hook0_application_id,
                        hook0_api_token,
                    ),
                ) == Ok::<_, ErrorView>(c@),
                Err(e) => spec_validate(
                    Self::input(
                        connection_string,
                        publication_name,
                        slot_name,
                        event_sink,
                        http_endpoint_url,
                        hook0_api_url,
                        hook0_application_id,
                        hook0_api_token,
                    ),
                ) == Err::<ConfigView, _>(e@),
            },
    {
        let ghost input = Self::input(
            connection_string,
            publication_name,
            slot_name,
            event_sink,
            http_endpoint_url,
            hook0_api_url,
            hook0_application_id,
            hook0_api_token,
        );
        if is_blank(connection_string.as_str()) {
            return Err(ReplicationError::config("DATABASE_URL cannot be empty"));
        }
        if is_blank(publication_name.as_str()) {
            return Err(ReplicationError::config("Publication name cannot be empty"));
        }
        if is_blank(slot_name.as_str()) {
            return Err(ReplicationError::config("Slot name cannot be empty"));
        }
        if !has_slot_chars(slot_name.as_str()) {
            return Err(
                ReplicationError::config(
                    "Slot name can only contain alphanumeric characters and underscores",
                ),
            );
        }
        if slot_name.as_str().as_bytes().len() > MAX_SLOT_NAME_LENGTH {
            return Err(ReplicationError::config("Slot name cannot be longer than 63 characters"));
        }
        let sink = match Self::choose_sink(
            &event_sink,
            &http_endpoint_url,
            &hook0_api_url,
            hook0_application_id,
            &hook0_api_token,
        ) {
            Ok(sink) => sink,
            Err(e) => {
                assert(spec_sink_choice(input) == Err::<EventSinkType, _>(e@));
                return Err(e);
            },
        };
        assert(spec_sink_choice(input) == Ok::<_, ErrorView>(sink));
        Ok(
            ReplicationConfig {
                connection_string,
                publication_name,
                slot_name,
                feedback_interval_secs: DEFAULT_FEEDBACK_INTERVAL_SECS,
                event_sink: sink,
                http_endpoint_url,
                hook0_api_url,
                hook0_application_id,
                hook0_api_token,
            },
        )
    }

    /// Checks the settings and makes a configuration of them, as
    /// `validate_and_create` does.
    pub fn new(
        connection_string: String,
        publication_name: String,
        slot_name: String,
        event_sink: Option<String>,
        http_endpoint_url: Option<String>,
        hook0_api_url: Option<String>,
        hook0_application_id: Option<u128>,
        hook0_api_token: Option<String>,
    ) -> (r: Result<Self, ReplicationError>)
        ensures
            match r {
                Ok(c) => spec_validate(
                    Self::input(
                        connection_string,
                        publication_name,
                        slot_name,
                        event_sink,
                        http_endpoint_url,
                        hook0_api_url,
                        hook0_application_id,
                        hook0_api_token,
                    ),
                ) == Ok::<_, ErrorView>(c@),
                Err(e) => spec_validate(
                    Self::input(
                        connection_string,
                        publication_name,
                        slot_name,
                        event_sink,
                        http_endpoint_url,
                        hook0_api_url,
                        hook0_application_id,
                        hook0_api_token,
                    ),
                ) == Err::<ConfigView, _>(e@),
            },
    {
        Self::validate_and_create(
            connection_string,
            publication_name,
            slot_name,
            event_sink,
            http_endpoint_url,
            hook0_api_url,
            hook0_application_id,
            hook0_api_token,
        )
    }

    /// The sink that the configuration chooses.
    pub fn event_sink_type(&self) -> (sink: &EventSinkType)
        ensures
            *sink == self.event_sink,
    {
        &self.event_sink
    }

    /// Whether events go to an HTTP endpoint.
    pub fn uses_http_sink(&self) -> (b: bool)
        ensures
            b == (self.event_sink == EventSinkType::Http),
    {
        self.event_sink == EventSinkType::Http
    }

    /// Whether events go to the webhook service.
    pub fn uses_hook0_sink(&self) -> (b: bool)
        ensures
            b == (self.event_sink == EventSinkType::Hook0),
    {
        self.event_sink == EventSinkType::Hook0
    }

    /// Whether events go to standard output.
    pub fn uses_stdout_sink(&self) -> (b: bool)
        ensures
            b == (self.event_sink == EventSinkType::Stdout),
    {
        self.event_sink == EventSinkType::Stdout
    }
}

} // verus!
