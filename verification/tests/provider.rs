use goose_tools::claude_acp::{
    map_goose_mode, ClaudeAcpProvider, GooseMode, ToolCallStatus, WrappedAgent,
    CLAUDE_ACP_DEFAULT_MODEL,
};

const MODES: [GooseMode; 4] = [
    GooseMode::Auto,
    GooseMode::Approve,
    GooseMode::SmartApprove,
    GooseMode::Chat,
];

fn agent() -> WrappedAgent {
    WrappedAgent {
        id: "wren".to_string(),
        display_name: "Wren Code".to_string(),
        maker_and_name: "Acme's Wren".to_string(),
    }
}

#[test]
fn modes_have_the_names_of_the_wrapper() {
    let names: Vec<String> = MODES.iter().map(|m| map_goose_mode(*m)).collect();
    assert_eq!(
        names,
        vec!["bypassPermissions", "default", "acceptEdits", "plan"]
    );
}

#[test]
fn the_provider_presents_itself() {
    let metadata = ClaudeAcpProvider::metadata(&agent());
    assert_eq!(metadata.name, "wren-acp");
    assert_eq!(metadata.display_name, "Wren Code");
    assert_eq!(
        metadata.description,
        "ACP wrapper for Acme's Wren. Install: npm install -g @zed-industries/wren-agent-acp"
    );
    assert_eq!(metadata.default_model, CLAUDE_ACP_DEFAULT_MODEL);
    assert_eq!(metadata.default_model, "default");
    assert!(metadata.known_models.is_empty());
    assert_eq!(
        metadata.model_doc_link,
        "https://github.com/zed-industries/wren-agent-acp"
    );
    assert!(metadata.config_keys.is_empty());
    assert_eq!(ClaudeAcpProvider::name(&agent()), metadata.name);
    assert_eq!(ClaudeAcpProvider::binary(&agent()), "wren-agent-acp");
}

#[test]
fn the_mode_defaults_to_auto() {
    assert_eq!(ClaudeAcpProvider::mode_or_default(None), GooseMode::Auto);
    for mode in MODES {
        assert_eq!(ClaudeAcpProvider::mode_or_default(Some(mode)), mode);
    }
}

#[test]
fn the_wrapped_agent_is_started_in_its_mode() {
    let config = ClaudeAcpProvider::provider_config(
        "/usr/bin/wren-agent-acp",
        Some("/work"),
        ".",
        vec![1, 2],
        GooseMode::Chat,
    );
    assert_eq!(config.command, "/usr/bin/wren-agent-acp");
    assert!(config.args.is_empty());
    assert!(config.env.is_empty());
    assert_eq!(config.env_remove, vec!["CLAUDECODE"]);
    assert_eq!(config.work_dir, "/work");
    assert_eq!(config.mcp_servers, vec![1, 2]);
    assert_eq!(config.session_mode_id, Some("plan".to_string()));
    let mapping = config.permission_mapping;
    assert_eq!(mapping.allow_option_id, Some("allow".to_string()));
    assert_eq!(mapping.reject_option_id, Some("reject".to_string()));
    assert_eq!(mapping.rejected_tool_status, ToolCallStatus::Failed);
    let config = ClaudeAcpProvider::provider_config(
        "x",
        None,
        ".",
        Vec::<u8>::new(),
        GooseMode::Auto,
    );
    assert_eq!(config.work_dir, ".");
}
