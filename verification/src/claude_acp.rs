//! The provider that runs an agent through its agent client protocol wrapper.

use vstd::prelude::*;

verus! {

pub const CLAUDE_ACP_DEFAULT_MODEL: &'static str = "default";

/// The agent that is wrapped. Whoever makes the provider supplies it: the names
/// of the provider and of its binary, its description and its documentation are
/// made of what stands here.
#[derive(Debug, PartialEq)]
pub struct WrappedAgent {
    /// The lower-case name under which its wrapper is published.
    pub id: String,
    /// The name that the provider is shown under.
    pub display_name: String,
    /// Maker and name, as they stand in a sentence.
    pub maker_and_name: String,
}

/// The name of the provider.
pub open spec fn provider_name(id: Seq<char>) -> Seq<char> {
    id + "-acp"@
}

/// The name of the wrapper's binary.
pub open spec fn binary_name(id: Seq<char>) -> Seq<char> {
    id + "-agent-acp"@
}

/// Where the wrapper is documented.
pub open spec fn doc_url(id: Seq<char>) -> Seq<char> {
    "https://github.com/zed-industries/"@ + binary_name(id)
}

/// What the provider is, and how its wrapper is installed.
pub open spec fn description(maker_and_name: Seq<char>, id: Seq<char>) -> Seq<char> {
    "ACP wrapper for "@ + maker_and_name + ". Install: npm install -g @zed-industries/"@
        + binary_name(id)
}

/// How much the agent may do without asking.
#[derive(Debug, Clone, Copy, PartialEq, Eq, Structural)]
pub enum GooseMode {
    Auto,
    Approve,
    SmartApprove,
    Chat,
}

/// The status of a tool call in the protocol.
#[derive(Debug, Clone, Copy, PartialEq, Eq, Structural)]
pub enum ToolCallStatus {
    Pending,
    InProgress,
    Completed,
    Failed,
}

/// How permission answers are put to the wrapped agent.
#[derive(Debug, PartialEq)]
pub struct PermissionMapping {
    pub allow_option_id: Option<String>,
    pub reject_option_id: Option<String>,
    pub rejected_tool_status: ToolCallStatus,
}

/// What is shown of a provider.
#[derive(Debug, PartialEq)]
pub struct ProviderMetadata {
    pub name: String,
    pub display_name: String,
    pub description: String,
    pub default_model: String,
    pub known_models: Vec<String>,
    pub model_doc_link: String,
    pub config_keys: Vec<String>,
}

/// How the wrapped agent is started. `P` are the paths of the host, `S` the
/// servers that the agent is handed.
#[derive(Debug, PartialEq)]
pub struct AcpProviderConfig<P, S> {
    pub command: P,
    pub args: Vec<String>,
    pub env: Vec<(String, String)>,
    pub env_remove: Vec<String>,
    pub work_dir: P,
    pub mcp_servers: Vec<S>,
    pub session_mode_id: Option<String>,
    pub permission_mapping: PermissionMapping,
}

/// The wrapper's name for each mode.
pub open spec fn mode_id(mode: GooseMode) -> Seq<char> {
    match mode {
        // Closest to "autonomous": skips confirmations.
        GooseMode::Auto => "bypassPermissions"@,
        // Matches "ask before risky actions".
        GooseMode::Approve => "default"@,
        // Accepts file edits but still prompts for risky operations.
        GooseMode::SmartApprove => "acceptEdits"@,
        // Disables tool execution, aligning with chat-only intent.
        GooseMode::Chat => "plan"@,
    }
}

/// No two modes have the same name.
pub proof fn mode_ids_differ(a: GooseMode, b: GooseMode)
    requires
        a != b,
    ensures
        mode_id(a) != mode_id(b),
{
    reveal_strlit("bypassPermissions");
    reveal_strlit("default");
    reveal_strlit("acceptEdits");
    reveal_strlit("plan");
    assert(mode_id(a).len() != mode_id(b).len());
}

/// The wrapper's name for a mode.
pub fn map_goose_mode(goose_mode: GooseMode) -> (r: String)
    ensures
        r@ == mode_id(goose_mode),
{
    match goose_mode {
        GooseMode::Auto => "bypassPermissions".to_owned(),
        GooseMode::Approve => "default".to_owned(),
        GooseMode::SmartApprove => "acceptEdits".to_owned(),
        GooseMode::Chat => "plan".to_owned(),
    }
}

pub struct ClaudeAcpProvider;

impl ClaudeAcpProvider {
    /// The name of the provider of a wrapped agent.
    pub fn name(agent: &WrappedAgent) -> (r: String)
        ensures
            r@ == provider_name(agent.id@),
    {
        let mut r = agent.id.clone();
        r.append("-acp");
        r
    }

    /// The name of the binary that wraps an agent.
    pub fn binary(agent: &WrappedAgent) -> (r: String)
        ensures
            r@ == binary_name(agent.id@),
    {
        let mut r = agent.id.clone();
        r.append("-agent-acp");
        r
    }

    /// Whether metadata is what is shown of the provider of a wrapped agent.
    pub open spec fn presents(metadata: ProviderMetadata, agent: WrappedAgent) -> bool {
        &&& metadata.name@ == provider_name(agent.id@)
        &&& metadata.display_name@ == agent.display_name@
        &&& metadata.description@ == description(agent.maker_and_name@, agent.id@)
        &&& metadata.default_model@ == "default"@
        &&& metadata.known_models@.len() == 0 && metadata.config_keys@.len() == 0
        &&& metadata.model_doc_link@ == doc_url(agent.id@)
    }

    /// What is shown of the provider of a wrapped agent.
    pub fn metadata(agent: &WrappedAgent) -> (r: ProviderMetadata)
        ensures
            Self::presents(r, *agent),
            r.name@ == provider_name(agent.id@),
            r.display_name@ == agent.display_name@,
            r.description@ == description(agent.maker_and_name@, agent.id@),
            r.default_model@ == CLAUDE_ACP_DEFAULT_MODEL@,
            r.known_models@.len() == 0,
            r.model_doc_link@ == doc_url(agent.id@),
            r.config_keys@.len() == 0,
    {
        let binary = ClaudeAcpProvider::binary(agent);
        let mut description = "ACP wrapper for ".to_owned();
        description.append(agent.maker_and_name.as_str());
        description.append(". Install: npm install -g @zed-industries/");
        description.append(binary.as_str());
        let mut model_doc_link = "https://github.com/zed-industries/".to_owned();
        model_doc_link.append(binary.as_str());
        ProviderMetadata {
            name: ClaudeAcpProvider::name(agent),
            display_name: agent.display_name.clone(),
            description,
            default_model: CLAUDE_ACP_DEFAULT_MODEL.to_owned(),
            known_models: Vec::new(),
            model_doc_link,
            config_keys: Vec::new(),
        }
    }

    /// The mode of a provider: the configured one, or the autonomous one where
    /// none is configured.
    pub fn mode_or_default(configured: Option<GooseMode>) -> (r: GooseMode)
        ensures
            r == (match configured {
                Some(mode) => mode,
                None => GooseMode::Auto,
            }),
    {
        match configured {
            Some(mode) => mode,
            None => GooseMode::Auto,
        }
    }

    /// Whether a configuration starts the wrapped agent as it was asked for.
    pub open spec fn starts_agent<P, S>(
        config: AcpProviderConfig<P, S>,
        resolved_command: P,
        current_dir: Option<P>,
        fallback_dir: P,
        mcp_servers: Vec<S>,
        goose_mode: GooseMode,
    ) -> bool {
        &&& config.command == resolved_command
        &&& config.args@.len() == 0 && config.env@.len() == 0
        &&& config.env_remove@.len() == 1 && config.env_remove@[0]@ == "CLAUDECODE"@
        &&& config.work_dir == (match current_dir {
            Some(dir) => dir,
            None => fallback_dir,
        })
        &&& config.mcp_servers == mcp_servers
        &&& config.session_mode_id matches Some(id) && id@ == mode_id(goose_mode)
        &&& config.permission_mapping.allow_option_id matches Some(id) && id@ == "allow"@
        &&& config.permission_mapping.reject_option_id matches Some(id) && id@ == "reject"@
        &&& config.permission_mapping.rejected_tool_status == ToolCallStatus::Failed
    }

    /// How the wrapped agent is started: with the resolved command and no
    /// arguments, in the current directory (or the fallback where there is
    /// none), in the mode given, without the variable by which it would take
    /// itself for a nested session.
    pub fn provider_config<P, S>(
        resolved_command: P,
        current_dir: Option<P>,
        fallback_dir: P,
        mcp_servers: Vec<S>,
        goose_mode: GooseMode,
    ) -> (r: AcpProviderConfig<P, S>)
        ensures
            Self::starts_agent(
                r,
                resolved_command,
                current_dir,
                fallback_dir,
                mcp_servers,
                goose_mode,
            ),
            r.command == resolved_command,
            r.args@.len() == 0,
            r.env@.len() == 0,
            r.env_remove@.len() == 1,
            r.env_remove@[0]@ == "CLAUDECODE"@,
            r.work_dir == (match current_dir {
                Some(dir) => dir,
                None => fallback_dir,
            }),
            r.mcp_servers == mcp_servers,
            r.session_mode_id matches Some(id) && id@ == mode_id(goose_mode),
            r.permission_mapping.allow_option_id matches Some(id) && id@ == "allow"@,
            r.permission_mapping.reject_option_id matches Some(id) && id@ == "reject"@,
            r.permission_mapping.rejected_tool_status == ToolCallStatus::Failed,
    {
        let permission_mapping = PermissionMapping {
            allow_option_id: Some("allow".to_owned()),
            reject_option_id: Some("reject".to_owned()),
            rejected_tool_status: ToolCallStatus::Failed,
        };
        let mut env_remove: Vec<String> = Vec::new();
        env_remove.push("CLAUDECODE".to_owned());
        let work_dir = match current_dir {
            Some(dir) => dir,
            None => fallback_dir,
        };
        AcpProviderConfig {
            command: resolved_command,
            args: Vec::new(),
            env: Vec::new(),
            env_remove,
            work_dir,
            mcp_servers,
            session_mode_id: Some(map_goose_mode(goose_mode)),
            permission_mapping,
        }
    }
}

} // verus!
