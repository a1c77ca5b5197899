use semantic_release_tui::services::{
    analyze_reply, build_jql_query, commit_analysis_prompt, connection_summary, connection_test_jql,
    extract_json_from_response, fallback_model, fetch_failure_message, generate_task_url, jira_connection_message,
    primary_model, monday_connection_result, monday_search_request, monday_tasks, CommitAnalysis, MondayColumnFields,
    MondayItem, MondayUpdateFields, COMMIT_PROMPT_HEAD, COMMIT_PROMPT_TAIL,
};

#[test]
fn jql_queries() {
    assert_eq!(build_jql_query(None, "  "), "ORDER BY created DESC");
    assert_eq!(build_jql_query(Some("REL"), ""), "project = REL ORDER BY created DESC");
    assert_eq!(
        build_jql_query(Some("REL"), "login"),
        "project = REL AND (summary ~ \"login\" OR description ~ \"login\" OR comment ~ \"login\") ORDER BY created DESC"
    );
    assert_eq!(
        build_jql_query(None, "x"),
        "(summary ~ \"x\" OR description ~ \"x\" OR comment ~ \"x\") ORDER BY created DESC"
    );
    assert_eq!(connection_test_jql(Some("A")), "project = A ORDER BY created DESC");
    assert_eq!(connection_test_jql(None), "ORDER BY created DESC");
}

#[test]
fn jira_messages() {
    assert_eq!(jira_connection_message(3), "✅ JIRA connection successful! Found 3 issues");
    let errors = vec!["A-1: gone".to_string(), "A-2: denied".to_string()];
    assert_eq!(
        fetch_failure_message(0, &errors),
        Some("Failed to fetch any JIRA tasks: A-1: gone, A-2: denied".to_string())
    );
    assert_eq!(fetch_failure_message(1, &errors), None);
    assert_eq!(fetch_failure_message(0, &Vec::new()), None);
}

#[test]
fn task_urls() {
    assert_eq!(
        generate_task_url(Some("https://x/{board_id}/i/{item_id}/{item_id}"), None, "7", "9"),
        "https://x/7/i/9/9"
    );
    assert_eq!(generate_task_url(None, Some("acme"), "1", "2"), "https://acme.monday.com/boards/1/pulses/2");
    assert_eq!(generate_task_url(None, None, "1", "2"), "https://monday.com/boards/1/pulses/2");
    assert_eq!(connection_summary("Ann", "ann@x.io"), "Ann (ann@x.io)");
}

#[test]
fn model_fallback() {
    assert_eq!(fallback_model(primary_model()), Some("gemini-2.0-flash"));
    assert_eq!(fallback_model("gemini-2.0-flash"), None);
}

#[test]
fn json_extraction() {
    assert_eq!(extract_json_from_response("  ```json\n{\"a\":1}\n```  "), "{\"a\":1}");
    assert_eq!(extract_json_from_response("text ```\n[1, 2]\n``` more"), "[1, 2]");
    assert_eq!(extract_json_from_response("Here: {\"k\": {\"v\": 2}} done"), "{\"k\": {\"v\": 2}}");
    assert_eq!(extract_json_from_response("  plain answer  "), "plain answer");
    assert_eq!(extract_json_from_response("} before {"), "} before {");
    assert_eq!(extract_json_from_response("```json"), "```json");
}

#[test]
fn commit_prompt_wraps_the_changes() {
    let p = commit_analysis_prompt("diff --git a/x b/x");
    assert!(p.starts_with("Eres un desarrollador experto"));
    assert!(p.contains("CAMBIOS EN EL CÓDIGO:\ndiff --git a/x b/x\n\nINSTRUCCIONES CRÍTICAS:"));
    assert!(p.ends_with("NO agregues texto antes o después del JSON"));
    assert_eq!(p.len(), COMMIT_PROMPT_HEAD.len() + "diff --git a/x b/x".len() + COMMIT_PROMPT_TAIL.len());
    assert!(p.contains("\"commitType\": \"tipo_de_commit\","));
}

#[test]
fn complete_analysis_reply_is_kept() {
    let reply = "```json\n{\"title\":\"t\",\"commitType\":\"feat\",\"description\":\"d\",\"scope\":\"ui\",\"securityAnalysis\":\"\",\"breakingChanges\":\"\",\"testAnalysis\":\"\"}\n```";
    match analyze_reply(reply) {
        CommitAnalysis::Reply(text) => assert!(text.starts_with("{\"title\":\"t\"")),
        CommitAnalysis::Fallback(_) => panic!("expected the reply"),
    }
}

#[test]
fn incomplete_or_unreadable_replies_fall_back() {
    match analyze_reply("{\"title\":\"t\",\"commitType\":\"feat\"}") {
        CommitAnalysis::Fallback(f) => {
            assert_eq!(f.description, "Se realizaron cambios en el código del proyecto. Respuesta de Gemini incompleta.");
            assert_eq!(f.commit_type, "chore");
            assert_eq!(f.scope, "general");
        }
        CommitAnalysis::Reply(_) => panic!("expected a fallback"),
    }
    match analyze_reply("no JSON here") {
        CommitAnalysis::Fallback(f) => {
            assert_eq!(
                f.description,
                "Se realizaron cambios en el código del proyecto. No se pudo generar un análisis detallado automáticamente."
            );
            assert_eq!(f.title, "cambios realizados en el código");
            assert!(f.test_analysis.is_empty());
        }
        CommitAnalysis::Reply(_) => panic!("expected a fallback"),
    }
}

#[test]
fn monday_search_in_a_board_or_everywhere() {
    let r = monday_search_request(Some("42"), "login");
    assert_eq!(r.board_ids, Some(vec!["42".to_string()]));
    assert_eq!(r.limit, 20);
    assert_eq!(r.rules_operator, "and");
    assert_eq!(r.compare_value, "login");
    assert!(r.query.contains("boards(ids: $boardId)"));
    let g = monday_search_request(None, "login");
    assert_eq!(g.board_ids, None);
    assert_eq!(g.limit, 50);
    assert_eq!(g.rules_operator, "or");
    assert!(g.query.contains("board { id name }"));
}

#[test]
fn monday_connection_outcomes() {
    assert_eq!(
        monday_connection_result(Some((Some("Ana".to_string()), Some("ana@example.com".to_string())))),
        Ok("Ana (ana@example.com)".to_string())
    );
    assert_eq!(monday_connection_result(Some((None, None))), Ok("Unknown (Unknown)".to_string()));
    assert_eq!(
        monday_connection_result(None),
        Err("Failed to get user information from Monday.com API".to_string())
    );
}

fn item(id: Option<&str>, name: Option<&str>, state: Option<&str>) -> MondayItem {
    MondayItem {
        id: id.map(str::to_string),
        name: name.map(str::to_string),
        state: state.map(str::to_string),
        board_id: Some("42".to_string()),
        board_name: Some("Releases".to_string()),
        group_title: None,
        updates: Vec::new(),
        column_values: Vec::new(),
    }
}

#[test]
fn monday_tasks_keep_active_items_in_order() {
    let mut first = item(Some("1"), Some("Ship it"), Some("active"));
    first.updates = vec![
        MondayUpdateFields { id: None, body: Some("lost".to_string()), created_at: None, creator: None },
        MondayUpdateFields {
            id: Some("u1".to_string()),
            body: Some("done".to_string()),
            created_at: None,
            creator: Some((Some("7".to_string()), None)),
        },
    ];
    first.column_values = vec![
        MondayColumnFields { id: Some("status".to_string()), column_type: None, text: Some("Done".to_string()), value: None },
        MondayColumnFields { id: None, column_type: Some("text".to_string()), text: None, value: None },
    ];
    let items = vec![
        first,
        item(Some("2"), Some("Archived"), Some("archived")),
        item(Some("3"), None, Some("active")),
        item(Some("4"), Some("No state"), None),
        item(Some("5"), Some("Also"), Some("active")),
    ];
    let tasks = monday_tasks(None, Some("acme"), &items);
    assert_eq!(tasks.len(), 2);
    assert_eq!(tasks[0].id, "1");
    assert_eq!(tasks[0].title, "Ship it");
    assert_eq!(tasks[0].state, "active");
    assert_eq!(tasks[0].url, "https://acme.monday.com/boards/42/pulses/1");
    assert_eq!(tasks[0].updates.len(), 1);
    assert_eq!(tasks[0].updates[0].id, "u1");
    assert_eq!(tasks[0].updates[0].body, "done");
    assert_eq!(tasks[0].updates[0].created_at, "");
    let creator = tasks[0].updates[0].creator.as_ref().unwrap();
    assert_eq!((creator.id.as_str(), creator.name.as_str()), ("7", ""));
    assert_eq!(tasks[0].column_values.len(), 1);
    assert_eq!(tasks[0].column_values[0].column_type, "");
    assert_eq!(tasks[0].column_values[0].text.as_deref(), Some("Done"));
    assert_eq!(tasks[1].id, "5");
    let templated = monday_tasks(Some("x/{board_id}/{item_id}"), None, &items);
    assert_eq!(templated[1].url, "x/42/5");
}

#[test]
fn task_url_template_replaces_every_occurrence() {
    assert_eq!(generate_task_url(Some("{item_id}-{item_id}/{board_id}"), None, "b", "i"), "i-i/b");
    assert_eq!(generate_task_url(None, None, "9", "3"), "https://monday.com/boards/9/pulses/3");
}
