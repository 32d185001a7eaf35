use goose_tools::callbacks::{
    callback_configs, config_text, dispatch_names, full_tool_name, get_code_mode, hash, hash_texts,
    renew_engine, CallbackConfig, CodeModeState, ToolInfo,
};
use goose_tools::json::JsonValue;
use std::collections::hash_map::DefaultHasher;
use std::hash::{Hash, Hasher};

fn tool(name: &str, owner: Option<&str>) -> ToolInfo {
    ToolInfo {
        name: name.to_string(),
        owner: owner.map(|o| o.to_string()),
        description: Some(format!("about {}", name)),
        input_schema: JsonValue::Text(name.to_string()),
        output_schema: None,
    }
}

fn config(namespace: &str, name: &str, full: &str) -> CallbackConfig {
    CallbackConfig {
        name: name.to_string(),
        namespace: namespace.to_string(),
        description: Some(format!("about {}", full)),
        input_schema: Some(JsonValue::Text(full.to_string())),
        output_schema: None,
    }
}

#[test]
fn tools_are_named_by_prefix_or_owner() {
    let tools = vec![
        tool("developer__shell", Some("other")),
        tool("tree", Some("files")),
        tool("orphan", None),
        tool("a__b__c", None),
        tool("__x", None),
    ];
    assert_eq!(
        callback_configs(tools),
        vec![
            config("developer", "shell", "developer__shell"),
            config("files", "tree", "tree"),
            config("a", "b__c", "a__b__c"),
            config("", "x", "__x"),
        ]
    );
}

#[test]
fn tools_are_dispatched_as_they_are_listed() {
    for name in ["developer__shell", "a__b__c", "a___b", "__"] {
        let configs = callback_configs(vec![tool(name, None)]);
        assert_eq!(full_tool_name(&configs[0].namespace, &configs[0].name), name);
    }
    assert_eq!(full_tool_name("files", "tree"), "files__tree");
}

#[test]
fn the_fingerprint_is_the_hash_of_the_sorted_texts() {
    let texts = vec!["b".to_string(), "é".to_string(), "a".to_string()];
    let mut hasher = DefaultHasher::new();
    for s in ["a", "b", "é"] {
        s.to_string().hash(&mut hasher);
    }
    assert_eq!(hash_texts(texts), hasher.finish());
    assert_eq!(hash_texts(vec![]), DefaultHasher::new().finish());
}

#[test]
fn the_fingerprint_ignores_the_order() {
    let one = vec!["x".to_string(), "y".to_string(), "x".to_string()];
    let two = vec!["x".to_string(), "x".to_string(), "y".to_string()];
    let three = vec!["x".to_string(), "y".to_string()];
    assert_eq!(hash_texts(one), hash_texts(two.clone()));
    assert_ne!(hash_texts(two), hash_texts(three));
}

fn configs(names: &[&str]) -> Vec<CallbackConfig> {
    names.iter().map(|name| config("n", name, name)).collect()
}

#[test]
fn engines_are_used_again_for_the_same_tools() {
    let state = CodeModeState::new(&configs(&["a", "b"]), Ok(17)).ok();
    assert_eq!(
        get_code_mode(&state, &Some(configs(&["b", "a"]))),
        Ok(Some(&17))
    );
    assert_eq!(get_code_mode(&state, &Some(configs(&["a"]))), Ok(None));
    assert_eq!(get_code_mode::<i32>(&None, &Some(configs(&["a"]))), Ok(None));
    assert_eq!(
        get_code_mode(&state, &None),
        Err("Failed to load callback configs".to_string())
    );
}

#[test]
fn engines_are_renewed_for_other_tools() {
    let (state, error) = renew_engine(None, &configs(&["a"]), Ok(1));
    assert_eq!(error, None);
    assert_eq!(get_code_mode(&state, &Some(configs(&["a"]))), Ok(Some(&1)));
    let (state, error) = renew_engine(state, &configs(&["b"]), Err("twice".to_string()));
    assert_eq!(
        error,
        Some("failed adding callback configs to CodeMode: twice".to_string())
    );
    assert_eq!(get_code_mode(&state, &Some(configs(&["a"]))), Ok(Some(&1)));
    assert_eq!(get_code_mode(&state, &Some(configs(&["b"]))), Ok(None));
    let (state, error) = renew_engine(state, &configs(&["b"]), Ok(2));
    assert_eq!(error, None);
    assert_eq!(get_code_mode(&state, &Some(configs(&["b"]))), Ok(Some(&2)));
    assert_eq!(get_code_mode(&state, &Some(configs(&["a"]))), Ok(None));
}

#[test]
fn engines_that_cannot_be_built_say_why() {
    match CodeModeState::<i32>::new(&configs(&["a"]), Err("twice".to_string())) {
        Err(message) => assert_eq!(
            message,
            "failed adding callback configs to CodeMode: twice"
        ),
        Ok(_) => panic!("expected an error"),
    }
}

#[test]
fn every_tool_has_a_dispatch_name() {
    assert_eq!(dispatch_names(&configs(&["a", "b"])), vec!["n__a", "n__b"]);
    assert!(dispatch_names(&[]).is_empty());
}

#[test]
fn configurations_are_hashed_as_json() {
    let mut one = config("files", "tree", "tree");
    assert_eq!(
        config_text(&one),
        "{\"description\":\"about tree\",\"input_schema\":\"tree\",\"name\":\"tree\",\
         \"namespace\":\"files\",\"output_schema\":null}"
    );
    assert_eq!(hash(&vec![config("files", "tree", "tree")]), hash_texts(vec![config_text(&one)]));
    one.description = None;
    one.input_schema = None;
    one.output_schema = Some(JsonValue::Bool(true));
    assert_eq!(
        config_text(&one),
        "{\"description\":null,\"input_schema\":null,\"name\":\"tree\",\
         \"namespace\":\"files\",\"output_schema\":true}"
    );
}
