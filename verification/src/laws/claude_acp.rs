//! Laws of the provider.

use crate::claude_acp::{
    binary_name, description, doc_url, mode_id, provider_name, AcpProviderConfig,
    ClaudeAcpProvider, GooseMode, ProviderMetadata, ToolCallStatus, WrappedAgent,
};
use crate::laws::text::{begins_with, ends_with};
use vstd::prelude::*;

verus! {

/// Each mode has the wrapper's name for it.
pub proof fn modes_named()
    ensures
        mode_id(GooseMode::Auto) == "bypassPermissions"@,
        mode_id(GooseMode::Approve) == "default"@,
        mode_id(GooseMode::SmartApprove) == "acceptEdits"@,
        mode_id(GooseMode::Chat) == "plan"@,
{
}

/// The wrapped agent is started with the command given, without arguments and
/// variables of its own, in the current directory where there is one, with the
/// servers given and in the mode given.
pub proof fn agents_started<P, S>(
    config: AcpProviderConfig<P, S>,
    command: P,
    current_dir: Option<P>,
    fallback_dir: P,
    servers: Vec<S>,
    mode: GooseMode,
)
    requires
        ClaudeAcpProvider::starts_agent(config, command, current_dir, fallback_dir, servers, mode),
    ensures
        config.command == command,
        config.args@ == Seq::<String>::empty(),
        config.env@ == Seq::<(String, String)>::empty(),
        config.env_remove@.len() == 1 && config.env_remove@[0]@ == "CLAUDECODE"@,
        current_dir matches Some(dir) ==> config.work_dir == dir,
        current_dir is None ==> config.work_dir == fallback_dir,
        config.mcp_servers == servers,
        config.session_mode_id is Some && config.session_mode_id->0@ == mode_id(mode),
        config.permission_mapping.rejected_tool_status == ToolCallStatus::Failed,
{
}

/// A provider is shown under the names of its agent, with the default model,
/// and knows no other models and no keys.
pub proof fn providers_shown(metadata: ProviderMetadata, agent: WrappedAgent)
    requires
        ClaudeAcpProvider::presents(metadata, agent),
    ensures
        metadata.name@ == agent.id@ + "-acp"@,
        metadata.display_name@ == agent.display_name@,
        metadata.default_model@ == "default"@,
        ends_with(metadata.model_doc_link@, agent.id@ + "-agent-acp"@),
        begins_with(metadata.description@, "ACP wrapper for "@ + agent.maker_and_name@ + ". "@),
        metadata.known_models@.len() == 0 && metadata.config_keys@.len() == 0,
{
    providers_named(agent.maker_and_name@, agent.id@);
}

/// Provider and binary are named after the agent, and the description and the
/// documentation lead to the binary.
pub proof fn providers_named(maker_and_name: Seq<char>, id: Seq<char>)
    ensures
        provider_name(id) == id + "-acp"@,
        binary_name(id) == id + "-agent-acp"@,
        ends_with(doc_url(id), binary_name(id)),
        begins_with(doc_url(id), "https://github.com/zed-industries/"@),
        begins_with(description(maker_and_name, id), "ACP wrapper for "@ + maker_and_name + ". "@),
        ends_with(
            description(maker_and_name, id),
            "npm install -g @zed-industries/"@ + binary_name(id),
        ),
{
    reveal_strlit(". Install: npm install -g @zed-industries/");
    reveal_strlit("npm install -g @zed-industries/");
    reveal_strlit(". ");
    let url = doc_url(id);
    assert(url.skip(url.len() - binary_name(id).len()) == binary_name(id));
    assert(url.take("https://github.com/zed-industries/"@.len() as int)
        == "https://github.com/zed-industries/"@);
    let text = description(maker_and_name, id);
    let head = "ACP wrapper for "@ + maker_and_name + ". "@;
    let tail = "npm install -g @zed-industries/"@ + binary_name(id);
    assert(text.take(head.len() as int) == head);
    assert(text.skip(text.len() - tail.len()) == tail);
}

} // verus!
