//! Which sink a configuration calls for.

use vstd::prelude::*;
use crate::config::ConfigView;
use crate::config::EventSinkType;
use crate::config::ReplicationConfig;
use crate::errors::config_error;
use crate::errors::ErrorView;
use crate::errors::ReplicationError;
use crate::events::hook0::Hook0EventSinkConfig;
use crate::events::http::HttpEventSinkConfig;

verus! {

/// The sink to make, with its settings.
#[derive(Debug, Clone)]
pub enum SinkPlan {
    Http(HttpEventSinkConfig),
    Hook0(Hook0EventSinkConfig),
    Stdout,
}

/// Mathematical content of a `SinkPlan`.
pub enum SinkPlanView {
    Http { endpoint_url: Seq<char> },
    Hook0 { api_url: Seq<char>, application_id: u128, api_token: Seq<char> },
    Stdout,
}

impl View for SinkPlan {
    type V = SinkPlanView;

    open spec fn view(&self) -> SinkPlanView {
        match *self {
            SinkPlan::Http(c) => SinkPlanView::Http { endpoint_url: c.endpoint_url@ },
            SinkPlan::Hook0(c) => SinkPlanView::Hook0 {
                api_url: c.api_url@,
                application_id: c.application_id,
                api_token: c.api_token@,
            },
            SinkPlan::Stdout => SinkPlanView::Stdout,
        }
    }
}

/// The sink that a configuration calls for, or what the configuration lacks
/// for it: the HTTP sink needs its endpoint; the webhook sink needs the
/// address of the service, the application id and the token.
pub open spec fn spec_create_sink(sink_type: EventSinkType, config: ConfigView) -> Result<
    SinkPlanView,
    ErrorView,
> {
    match sink_type {
        EventSinkType::Http => match config.http_endpoint_url {
            Some(url) => Ok(SinkPlanView::Http { endpoint_url: url }),
            None => Err(config_error("HTTP endpoint URL required for HTTP sink"@)),
        },
        EventSinkType::Hook0 => if config.hook0_api_url is Some && config.hook0_application_id
            is Some && config.hook0_api_token is Some {
            Ok(
                SinkPlanView::Hook0 {
                    api_url: config.hook0_api_url->Some_0,
                    application_id: config.hook0_application_id->Some_0,
                    api_token: config.hook0_api_token->Some_0,
                },
            )
        } else {
            Err(
                config_error(
                    "Hook0 API URL, application ID, and token required for Hook0 sink"@,
                ),
            )
        },
        EventSinkType::Stdout => Ok(SinkPlanView::Stdout),
    }
}

/// Chooses sinks.
pub struct EventSinkRegistry;

impl EventSinkRegistry {
    /// The sink of the kind `sink_type` that `config` calls for.
    pub fn create_sink(sink_type: &EventSinkType, config: &ReplicationConfig) -> (r: Result<
        SinkPlan,
        ReplicationError,
    >)
        ensures
            match r {
                Ok(plan) => spec_create_sink(*sink_type, config@) == Ok::<_, ErrorView>(plan@),
                Err(e) => spec_create_sink(*sink_type, config@) == Err::<SinkPlanView, _>(e@),
            },
    {
        match sink_type {
            EventSinkType::Http => match &config.http_endpoint_url {
                Some(url) => Ok(SinkPlan::Http(HttpEventSinkConfig { endpoint_url: url.clone() })),
                None => Err(ReplicationError::config("HTTP endpoint URL required for HTTP sink")),
            },
            EventSinkType::Hook0 => match (
                &config.hook0_api_url,
                config.hook0_application_id,
                &config.hook0_api_token,
            ) {
                (Some(api_url), Some(application_id), Some(api_token)) => Ok(
                    SinkPlan::Hook0(
                        Hook0EventSinkConfig {
                            api_url: api_url.clone(),
                            application_id,
                            api_token: api_token.clone(),
                        },
                    ),
                ),
                _ => Err(
                    ReplicationError::config(
                        "Hook0 API URL, application ID, and token required for Hook0 sink",
                    ),
                ),
            },
            EventSinkType::Stdout => Ok(SinkPlan::Stdout),
        }
    }
}

} // verus!
