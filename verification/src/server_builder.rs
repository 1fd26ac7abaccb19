//! The agent settings of a server under construction, and the decisions of building it.
use vstd::prelude::*;
use crate::ids::new_uuid;
use crate::types::{opt_str, AgentCard, AgentCardView};

verus! {

/// The version of this framework, which a default agent card carries.
pub fn framework_version() -> (r: &'static str)
    ensures
        r@ == "0.1.0"@,
{
    "0.1.0"
}

/// Why a server could not be built.
#[derive(Clone, Copy, Debug, PartialEq, Eq, Structural)]
pub enum BuildError {
    /// No transport factory was configured.
    MissingTransportFactory,
}

impl BuildError {
    /// The error's text.
    pub open spec fn text(self) -> Seq<char> {
        match self {
            BuildError::MissingTransportFactory => "Transport factory is required"@,
        }
    }

    /// The error's text.
    pub fn message(&self) -> (r: String)
        ensures
            r@ == self.text(),
    {
        match self {
            BuildError::MissingTransportFactory => "Transport factory is required".to_string(),
        }
    }
}

/// What the builder of a server was told about the agent.
#[derive(Debug)]
pub struct AgentSettings {
    agent_id: Option<u128>,
    agent_name: Option<String>,
    agent_description: Option<String>,
}

pub struct AgentSettingsView {
    pub agent_id: Option<u128>,
    pub agent_name: Option<Seq<char>>,
    pub agent_description: Option<Seq<char>>,
}

impl View for AgentSettings {
    type V = AgentSettingsView;

    closed spec fn view(&self) -> AgentSettingsView {
        AgentSettingsView {
            agent_id: self.agent_id,
            agent_name: opt_str(self.agent_name),
            agent_description: opt_str(self.agent_description),
        }
    }
}

/// The agent card of a server built with these settings and no task manager of its own: the
/// given id (else `fallback_id`), name (else `A2A Agent`) and description (else
/// `A generic A2A agent implementation`), no metadata, and the given version.
pub open spec fn default_agent_view(
    settings: AgentSettingsView,
    fallback_id: u128,
    version: Seq<char>,
) -> AgentCardView {
    AgentCardView {
        id: match settings.agent_id {
            Some(id) => id,
            None => fallback_id,
        },
        name: match settings.agent_name {
            Some(n) => n,
            None => "A2A Agent"@,
        },
        description: match settings.agent_description {
            Some(d) => d,
            None => "A generic A2A agent implementation"@,
        },
        metadata: None,
        version: Some(version),
    }
}

impl AgentSettings {
    /// Settings with nothing given.
    pub fn new() -> (r: Self)
        ensures
            r@ == (AgentSettingsView { agent_id: None, agent_name: None, agent_description: None }),
    {
        AgentSettings { agent_id: None, agent_name: None, agent_description: None }
    }

    /// Set the agent ID.
    pub fn with_agent_id(self, agent_id: u128) -> (r: Self)
        ensures
            r@ == (AgentSettingsView { agent_id: Some(agent_id), ..self@ }),
    {
        AgentSettings { agent_id: Some(agent_id), ..self }
    }

    /// Set the agent name.
    pub fn with_agent_name(self, name: String) -> (r: Self)
        ensures
            r@ == (AgentSettingsView { agent_name: Some(name@), ..self@ }),
    {
        AgentSettings { agent_name: Some(name), ..self }
    }

    /// Set the agent description.
    pub fn with_agent_description(self, description: String) -> (r: Self)
        ensures
            r@ == (AgentSettingsView { agent_description: Some(description@), ..self@ }),
    {
        AgentSettings { agent_description: Some(description), ..self }
    }

    /// The agent card of the default task manager, with `fallback_id` where no id was given.
    pub fn agent_card_with(self, fallback_id: u128, version: &str) -> (r: AgentCard)
        ensures
            r@ == default_agent_view(self@, fallback_id, version@),
    {
        let id = match self.agent_id {
            Some(id) => id,
            None => fallback_id,
        };
        let name = match self.agent_name {
            Some(n) => n,
            None => "A2A Agent".to_string(),
        };
        let description = match self.agent_description {
            Some(d) => d,
            None => "A generic A2A agent implementation".to_string(),
        };
        AgentCard { id, name, description, metadata: None, version: Some(version.to_string()) }
    }

    /// The agent card of the default task manager: where no id was given, a fresh random one;
    /// the framework's version.
    pub fn agent_card(self) -> (r: AgentCard)
        ensures
            r@ == default_agent_view(self@, r.id, "0.1.0"@),
            self@.agent_id matches Some(id) ==> r.id == id,
    {
        let fallback = match self.agent_id {
            Some(id) => id,
            None => new_uuid(),
        };
        self.agent_card_with(fallback, framework_version())
    }
}

/// What building a server decides: it fails without a transport factory; with one, it uses the
/// given task manager (`None`) or a default one for the agent card of the settings.
pub fn plan_build(
    has_transport_factory: bool,
    has_task_manager: bool,
    settings: AgentSettings,
) -> (r: Result<Option<AgentCard>, BuildError>)
    ensures
        !has_transport_factory ==> r == Err::<Option<AgentCard>, BuildError>(
            BuildError::MissingTransportFactory,
        ),
        has_transport_factory && has_task_manager ==> r == Ok::<Option<AgentCard>, BuildError>(
            None,
        ),
        has_transport_factory && !has_task_manager ==> match r {
            Ok(Some(card)) => card@ == default_agent_view(settings@, card.id, "0.1.0"@) && (
            settings@.agent_id matches Some(id) ==> card.id == id),
            _ => false,
        },
{
    if !has_transport_factory {
        Err(BuildError::MissingTransportFactory)
    } else if has_task_manager {
        Ok(None)
    } else {
        Ok(Some(settings.agent_card()))
    }
}

} // verus!
