use chat_history_consolidator::config::Config;
use chat_history_consolidator::generator::{
    context_rule_list, session_date_text, MarkdownGenerator, SystemInfo, Timestamps,
};
use chat_history_consolidator::{ChatSession, ComposerData};

fn session(name: &str, composer_id: &str, created_at: i64) -> ChatSession {
    ChatSession {
        session_type: "head".to_string(),
        composer_id: composer_id.to_string(),
        name: name.to_string(),
        last_updated_at: 1757092753004,
        created_at,
        unified_mode: "agent".to_string(),
        force_mode: "edit".to_string(),
        has_unread_messages: false,
    }
}

fn bundle(names: &[&str]) -> ComposerData {
    ComposerData {
        all_composers: names.iter().map(|name| session(name, "id", 1757092558319)).collect(),
    }
}

fn linux() -> SystemInfo {
    SystemInfo { os: "linux".to_string(), shell: Some("/bin/zsh".to_string()) }
}

fn times(created: &str, fallback: &str, current: &str) -> Timestamps {
    Timestamps {
        created: created.to_string(),
        fallback: fallback.to_string(),
        current: current.to_string(),
    }
}

fn plain_config() -> Config {
    let mut config = Config::load(&[]);
    config.app_name = "lore".to_string();
    config.project_name = "proxy".to_string();
    config.project_branch = "develop".to_string();
    config.project_path = "/home/u/proxy".to_string();
    config.db_path = "/home/u/store".to_string();
    config.workspace_id = "ws".to_string();
    config.db_filename = "state.vscdb".to_string();
    config
}

fn label_of(name: &str) -> String {
    let generator = MarkdownGenerator::new(&Config::load(&[]));
    generator.generate_session_context(&session(name, "id", 0))
}

#[test]
fn test_markdown_generation() {
    let config = Config::load(&[]);
    let generator = MarkdownGenerator::new(&config);
    let test_session = ChatSession {
        session_type: "head".to_string(),
        composer_id: "test-id".to_string(),
        name: "Test Session".to_string(),
        last_updated_at: 1757092753004,
        created_at: 1757092558319,
        unified_mode: "agent".to_string(),
        force_mode: "edit".to_string(),
        has_unread_messages: false,
    };
    let composer_data = ComposerData { all_composers: vec![test_session] };
    let markdown = generator.generate_consolidated_history(&[composer_data], &[], &[], &linux());
    assert!(markdown.contains("# Chat History - Consolidated"));
    assert!(markdown.contains("Test Session"));
}

#[test]
fn end_to_end_document_names_the_session_and_its_label() {
    let generator = MarkdownGenerator::new(&Config::load(&[]));
    let bundles = [ComposerData {
        all_composers: vec![session("Knowledge history cleanup", "abc-1", 1757092558319)],
    }];
    let markdown = generator.generate_consolidated_history(&bundles, &[], &[], &linux());
    assert!(markdown.starts_with("# Chat History - Consolidated\n\n\n## Metadata\n"));
    assert!(markdown.contains("Knowledge history cleanup"));
    assert!(markdown.contains("Knowledge management and chat history consolidation"));
    assert!(markdown.contains(
        "### Session 1: Knowledge history cleanup\n\
         **Date**: September 05, 2025, 17:15:58 UTC\n\
         **Session ID**: abc-1\n\
         **Context**: Knowledge management and chat history consolidation\n\n"
    ));
    assert!(markdown.contains("- **Total Chat Sessions**: 1 historical sessions + current session\n"));
    assert!(markdown.ends_with("project workspace.*\n"));
}

#[test]
fn rag_comes_before_agentic() {
    assert_eq!(label_of("RAG pipeline work"), "RAG (Retrieval Augmented Generation) task implementation");
    assert_eq!(
        label_of("agentic RAG pipeline"),
        "RAG (Retrieval Augmented Generation) task implementation"
    );
}

#[test]
fn each_word_has_its_label() {
    assert_eq!(label_of("the orchestrator"), "MCP orchestrator analysis and architecture discussion");
    assert_eq!(label_of("RAG"), "RAG (Retrieval Augmented Generation) task implementation");
    assert_eq!(label_of("agentic tools"), "Agentic behavior enhancement and tool integration");
    assert_eq!(label_of("memory leak"), "Memory management and storage implementation");
    assert_eq!(label_of("delegated"), "Delegation and orchestration analysis");
    assert_eq!(label_of("enhancements"), "Server orchestration enhancements");
    assert_eq!(label_of("a clarification"), "Action requirements clarification");
    assert_eq!(label_of("history"), "Knowledge management and chat history consolidation");
    assert_eq!(label_of("something else"), "General project development and discussion");
    assert_eq!(label_of(""), "General project development and discussion");
}

#[test]
fn the_first_word_in_the_order_of_the_rules_decides() {
    assert_eq!(
        label_of("history of the orchestrator"),
        "MCP orchestrator analysis and architecture discussion"
    );
    assert_eq!(label_of("enhance memory"), "Memory management and storage implementation");
    assert_eq!(label_of("history clarification"), "Action requirements clarification");
    assert_eq!(label_of("delegate to enhance"), "Delegation and orchestration analysis");
}

#[test]
fn words_are_matched_with_their_case() {
    assert_eq!(label_of("rag pipeline"), "General project development and discussion");
    assert_eq!(label_of("Orchestrator"), "General project development and discussion");
    assert_eq!(label_of("storage"), "General project development and discussion");
    assert_eq!(label_of("History"), "General project development and discussion");
}

#[test]
fn ordinals_run_on_through_the_bundles() {
    let generator = MarkdownGenerator::new(&Config::load(&[]));
    let bundles = [bundle(&["a", "b"]), bundle(&["c", "d", "e"])];
    let text = generator.generate_historical_sessions(&bundles, "never");
    let mut from = 0;
    for (ordinal, name) in ["a", "b", "c", "d", "e"].iter().enumerate() {
        let heading = format!("### Session {}: {}\n", ordinal + 1, name);
        let at = text[from..].find(&heading).expect("heading in order");
        from += at + heading.len();
    }
    assert!(!text.contains("### Session 6"));
    assert!(!text.contains("### Session 0"));
    assert_eq!(text.matches("### Session ").count(), 5);
    assert_eq!(generator.count_sessions(&bundles), 5);
}

#[test]
fn ordinals_pass_over_empty_bundles() {
    let generator = MarkdownGenerator::new(&Config::load(&[]));
    let bundles = [bundle(&[]), bundle(&["a"]), bundle(&[]), bundle(&["b"])];
    let text = generator.generate_historical_sessions(&bundles, "never");
    assert!(text.contains("### Session 1: a\n"));
    assert!(text.contains("### Session 2: b\n"));
    assert_eq!(text.matches("### Session ").count(), 2);
}

#[test]
fn historical_sessions_without_sessions_is_the_heading() {
    let generator = MarkdownGenerator::new(&Config::load(&[]));
    assert_eq!(generator.generate_historical_sessions(&[], "never"), "## Historical Chat Sessions\n\n");
    assert_eq!(generator.count_sessions(&[]), 0);
}

#[test]
fn session_entry_is_written_exactly() {
    let generator = MarkdownGenerator::new(&Config::load(&[]));
    let entry = generator.generate_session_entry(12, &session("memory work", "id-9", 0), "never");
    assert_eq!(
        entry,
        "### Session 12: memory work\n\
         **Date**: January 01, 1970, 00:00:00 UTC\n\
         **Session ID**: id-9\n\
         **Context**: Memory management and storage implementation\n\n"
    );
}

#[test]
fn session_date_is_the_calendar_date_in_utc() {
    assert_eq!(session_date_text(1757092558319, "never"), "September 05, 2025, 17:15:58 UTC");
    assert_eq!(session_date_text(947638923004, "never"), "January 12, 2000, 01:02:03 UTC");
    assert_eq!(session_date_text(-1, "never"), "December 31, 1969, 23:59:59 UTC");
}

#[test]
fn session_date_falls_back_where_there_is_no_date() {
    assert_eq!(session_date_text(i64::MAX, "the fallback"), "the fallback");
    assert_eq!(session_date_text(i64::MIN, "the fallback"), "the fallback");
}

#[test]
fn metadata_is_written_exactly() {
    let generator = MarkdownGenerator::new(&plain_config());
    let bundles = [bundle(&["a", "b"]), bundle(&["c"])];
    assert_eq!(
        generator.generate_metadata(&bundles, &linux(), "NOW"),
        "## Metadata\n\
         - **Created**: NOW\n\
         - **Project**: proxy\n\
         - **Branch**: develop\n\
         - **Workspace**: <PROJECT_PATH>\n\
         - **File Type**: Consolidated Chat History\n\
         - **Purpose**: Knowledge base storage for chat interactions\n\
         - **Total Chat Sessions**: 3 historical sessions + current session\n\
         - **OS**: linux\n\
         - **Shell**: /bin/zsh\n"
    );
}

#[test]
fn metadata_names_an_unknown_shell() {
    let generator = MarkdownGenerator::new(&plain_config());
    let system = SystemInfo { os: "macos".to_string(), shell: None };
    assert_eq!(generator.generate_system_lines(&system), "- **OS**: macos\n- **Shell**: unknown\n");
}

#[test]
fn metadata_leaves_the_machine_out_on_demand() {
    let mut config = plain_config();
    config.include_system_info = false;
    config.include_absolute_paths = true;
    let generator = MarkdownGenerator::new(&config);
    assert_eq!(generator.generate_system_lines(&linux()), "");
    let metadata = generator.generate_metadata(&[], &linux(), "NOW");
    assert!(metadata.ends_with("- **Total Chat Sessions**: 0 historical sessions + current session\n"));
    assert!(metadata.contains("- **Workspace**: /home/u/proxy\n"));
    assert!(!metadata.contains("**OS**"));
}

#[test]
fn sections_with_settings_are_written_exactly() {
    let generator = MarkdownGenerator::new(&plain_config());
    assert_eq!(generator.generate_header(), "# Chat History - Consolidated\n");
    assert_eq!(
        generator.generate_git_status(),
        "## Git Status\n\
         - **Branch**: develop\n\
         - **Status**: Modified files include rag-storage/metadata.json\n\
         - **New Addition**: .knowledge/ folder added to .gitignore\n"
    );
    assert_eq!(
        generator.generate_footer(),
        "---\n*This file was automatically generated by lore and includes all historical chat \
         sessions from the proxy project workspace.*\n"
    );
    assert_eq!(
        generator.generate_data_sources("/home/u/store"),
        "## Chat Data Sources\n\
         - **Workspace Storage**: <DB_PATH>/ws/state.vscdb\n\
         - **Database**: SQLite state.vscdb containing chat sessions and AI service data\n\
         - **Composer Data**: JSON data containing session metadata and conversation history\n\
         - **AI Service Data**: Prompts and generations stored in workspace-specific database\n"
    );
    let structure = generator.generate_project_structure();
    assert!(structure.starts_with("## Project Structure Reference\n```\n<PROJECT_PATH>/\n├── src/"));
    assert!(structure.contains("│   └── tools/             # Agentic tools\n"));
    assert!(structure.ends_with("└── Configuration files    # package.json, tsconfig.json, etc.\n```\n"));
    assert_eq!(structure.lines().count(), 17);
}

#[test]
fn fixed_sections_begin_with_their_headings() {
    let generator = MarkdownGenerator::new(&plain_config());
    assert!(generator.generate_project_context().starts_with("## Project Context\nThis is a TypeScript"));
    assert!(generator.generate_project_context().ends_with("- Validation services\n"));
    assert!(generator.generate_topics_and_themes().starts_with("## Key Chat Topics and Themes\n\n### 1. MCP"));
    assert!(generator.generate_topics_and_themes().ends_with("- Git integration\n"));
    assert_eq!(generator.generate_topics_and_themes().lines().count(), 37);
    assert!(generator.generate_key_features().starts_with("## Key Features Implemented\n1. **MCP Server**"));
    assert_eq!(generator.generate_key_features().lines().count(), 9);
    assert!(generator.generate_notes().starts_with("## Notes\n- This file serves"));
    assert_eq!(generator.generate_notes().lines().count(), 8);
    let current = generator.generate_current_session("NOW");
    assert!(current.starts_with(
        "## Current Session\n\n### Current Knowledge Management Session\n**Date**: NOW\n**Context**: "
    ));
    assert!(current.ends_with("orchestration capabilities\n"));
}

#[test]
fn document_is_its_sections_with_blank_lines_between() {
    let generator = MarkdownGenerator::new(&plain_config());
    let bundles = [bundle(&["a"]), bundle(&["RAG b"])];
    let stamps = times("T1", "T2", "T3");
    let document = generator.render_document(&bundles, &[], &[], &linux(), &stamps, "/home/u/store");
    let sections = [
        generator.generate_header(),
        generator.generate_metadata(&bundles, &linux(), "T1"),
        generator.generate_project_context(),
        generator.generate_historical_sessions(&bundles, "T2"),
        generator.generate_current_session("T3"),
        generator.generate_topics_and_themes(),
        generator.generate_project_structure(),
        generator.generate_key_features(),
        generator.generate_git_status(),
        generator.generate_data_sources("/home/u/store"),
        generator.generate_notes(),
        generator.generate_footer(),
    ];
    assert_eq!(document, sections.join("\n\n"));
}

#[test]
fn documents_differ_only_in_the_two_times() {
    let mut config = plain_config();
    config.include_absolute_paths = true;
    config.include_system_info = true;
    let generator = MarkdownGenerator::new(&config);
    let bundles = [bundle(&["a", "history b"])];
    let one = generator.render_document(&bundles, &[], &[], &linux(), &times("AAAA", "x", "BB"), "/s");
    let other = generator.render_document(&bundles, &[], &[], &linux(), &times("C", "y", "DDD"), "/s");
    let parts: Vec<&str> = one.split("AAAA").collect();
    assert_eq!(parts.len(), 2);
    let rest: Vec<&str> = parts[1].split("BB").collect();
    assert_eq!(rest.len(), 2);
    assert_eq!(other, format!("{}C{}DDD{}", parts[0], rest[0], rest[1]));
    assert!(parts[0].ends_with("- **Created**: "));
    assert!(rest[0].ends_with("### Current Knowledge Management Session\n**Date**: "));
}

#[test]
fn document_shows_the_fallback_for_a_session_without_date() {
    let generator = MarkdownGenerator::new(&plain_config());
    let bundles = [ComposerData { all_composers: vec![session("late", "id", i64::MAX)] }];
    let stamps = times("T1", "FALLBACK DATE", "T3");
    let document = generator.render_document(&bundles, &[], &[], &linux(), &stamps, "/s");
    assert!(document.contains("### Session 1: late\n**Date**: FALLBACK DATE\n"));
}

#[test]
fn consolidated_history_is_written_with_the_time_of_the_call() {
    let generator = MarkdownGenerator::new(&plain_config());
    let document = generator.generate_consolidated_history(&[], &[], &[], &linux());
    let created = document
        .lines()
        .find_map(|line| line.strip_prefix("- **Created**: "))
        .expect("a line for the time of writing");
    assert!(created.ends_with(" UTC"));
    assert!(created.contains(", 20"));
    assert_eq!(created.matches(':').count(), 1);
    assert!(document.contains("- **Workspace Storage**: <DB_PATH>/ws/state.vscdb\n"));
}

#[test]
fn the_rules_stand_in_their_order() {
    let words: Vec<&str> = context_rule_list().iter().map(|rule| rule.0).collect();
    assert_eq!(
        words,
        ["orchestrator", "RAG", "agentic", "memory", "delegate", "enhance", "clarification", "history"]
    );
    let labels: Vec<&str> = context_rule_list().iter().map(|rule| rule.1).collect();
    assert_eq!(labels[1], "RAG (Retrieval Augmented Generation) task implementation");
    assert_eq!(labels[7], "Knowledge management and chat history consolidation");
}

fn seconds_since_1970() -> i64 {
    let now = std::time::SystemTime::now().duration_since(std::time::UNIX_EPOCH);
    now.expect("a clock after 1970").as_secs() as i64
}

#[test]
fn the_times_of_the_call_are_dates_of_its_seconds() {
    let generator = MarkdownGenerator::new(&plain_config());
    let bundles = [ComposerData { all_composers: vec![session("late", "id", i64::MAX)] }];
    let before = seconds_since_1970();
    let document = generator.generate_consolidated_history(&bundles, &[], &[], &linux());
    let after = seconds_since_1970();
    let dates: Vec<String> =
        (before..=after).map(|second| session_date_text(second * 1000, "none")).collect();
    let shown = document
        .lines()
        .find_map(|line| line.strip_prefix("**Date**: "))
        .expect("the date of the session");
    assert!(dates.iter().any(|date| date == shown), "{shown:?} {dates:?}");
    let to_the_minute: Vec<String> = dates
        .iter()
        .map(|date| format!("{} UTC", &date[..date.len() - " UTC".len() - ":00".len()]))
        .collect();
    let created = document
        .lines()
        .find_map(|line| line.strip_prefix("- **Created**: "))
        .expect("the time of writing");
    assert!(to_the_minute.iter().any(|date| date == created), "{created:?} {to_the_minute:?}");
    let current = document
        .lines()
        .filter_map(|line| line.strip_prefix("**Date**: "))
        .nth(1)
        .expect("the date of the current session");
    assert!(to_the_minute.iter().any(|date| date == current), "{current:?} {to_the_minute:?}");
}
