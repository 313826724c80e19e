//! The document: its sections as functions of the settings, the records and
//! the few values that come from the surroundings, and the code that writes
//! them.

use crate::clock::{utc_millis_text, utc_now_text, utc_text, MINUTE_PATTERN, SECOND_PATTERN};
use crate::config::{is_tilde_expansion, sanitized, store_path, Config};
use crate::template::{
    CURRENT_HEAD, CURRENT_TAIL, ENTRY_CONTEXT, ENTRY_DATE, ENTRY_HEAD, ENTRY_ID, ENTRY_NAME,
    FOOTER_HEAD, FOOTER_PROJECT, FOOTER_TAIL, GIT_HEAD, GIT_TAIL, HEADER, KEY_FEATURES,
    LABEL_AGENTIC, LABEL_CLARIFICATION, LABEL_DELEGATE, LABEL_ENHANCE, LABEL_GENERAL,
    LABEL_HISTORY, LABEL_MEMORY, LABEL_ORCHESTRATOR, LABEL_RAG, LINE_END, METADATA_BRANCH,
    METADATA_HEAD, METADATA_OS, METADATA_PROJECT, METADATA_SHELL, METADATA_TAIL, METADATA_TOTAL,
    METADATA_WORKSPACE, NOTES, PATTERN_AGENTIC, PATTERN_CLARIFICATION, PATTERN_DELEGATE,
    PATTERN_ENHANCE, PATTERN_HISTORY, PATTERN_MEMORY, PATTERN_ORCHESTRATOR, PATTERN_RAG,
    PROJECT_CONTEXT, SECTION_BREAK, SESSIONS_HEAD, SOURCES_HEAD, SOURCES_TAIL, STRUCTURE_HEAD,
    STRUCTURE_TAIL, TOPICS, UNKNOWN_SHELL,
};
use crate::text::{
    chars_of, decimal, decimal_text, find_in, lemma_contains_part, lemma_contains_within,
    occurs_at, text_contains,
};
use crate::{ChatGeneration, ChatPrompt, ChatSession, ComposerData};
use vstd::prelude::*;
use vstd::string::*;

verus! {

/// The machine on which the document is written.
#[derive(Debug)]
pub struct SystemInfo {
    /// The name of the operating system.
    pub os: String,
    /// The user's shell, where it is known.
    pub shell: Option<String>,
}

/// The times that the document shows, each as it is written out.
#[derive(Debug)]
pub struct Timestamps {
    /// When the document was made, for the metadata.
    pub created: String,
    /// The date of a session whose time of creation has no calendar date.
    pub fallback: String,
    /// The date of the current session.
    pub current: String,
}

/// Writes the document.
pub struct MarkdownGenerator {
    config: Config,
}

/// The rules by which a session gets its label: pairs of a word and a label,
/// in the order in which they are tried.
pub open spec fn context_rules() -> Seq<(Seq<char>, Seq<char>)> {
    seq![
        (PATTERN_ORCHESTRATOR@, LABEL_ORCHESTRATOR@),
        (PATTERN_RAG@, LABEL_RAG@),
        (PATTERN_AGENTIC@, LABEL_AGENTIC@),
        (PATTERN_MEMORY@, LABEL_MEMORY@),
        (PATTERN_DELEGATE@, LABEL_DELEGATE@),
        (PATTERN_ENHANCE@, LABEL_ENHANCE@),
        (PATTERN_CLARIFICATION@, LABEL_CLARIFICATION@),
        (PATTERN_HISTORY@, LABEL_HISTORY@),
    ]
}

/// The label of the first rule whose word `name` contains, if there is one.
pub open spec fn first_label(rules: Seq<(Seq<char>, Seq<char>)>, name: Seq<char>) -> Option<
    Seq<char>,
>
    decreases rules.len(),
{
    if rules.len() == 0 {
        None
    } else if text_contains(name, rules[0].0) {
        Some(rules[0].1)
    } else {
        first_label(rules.skip(1), name)
    }
}

/// The label of a session by its name: that of the first rule whose word the
/// name contains, with the case of its letters; the general label where the
/// name contains none of the words.
pub open spec fn context_label(name: Seq<char>) -> Seq<char> {
    match first_label(context_rules(), name) {
        Some(label) => label,
        None => LABEL_GENERAL@,
    }
}

/// Whether the time of creation has a calendar date.
pub open spec fn has_date(created_at: i64) -> bool {
    utc_text(created_at, SECOND_PATTERN@) is Some
}

/// The date of a session: that of its time of creation, or `fallback` where
/// that time has no calendar date.
pub open spec fn session_date(created_at: i64, fallback: Seq<char>) -> Seq<char> {
    match utc_text(created_at, SECOND_PATTERN@) {
        Some(date) => date,
        None => fallback,
    }
}

/// The entry of one session under its ordinal.
pub open spec fn session_entry(ordinal: nat, session: ChatSession, fallback: Seq<char>) -> Seq<
    char,
> {
    ENTRY_HEAD@ + decimal(ordinal) + ENTRY_NAME@ + session.name@ + ENTRY_DATE@ + session_date(
        session.created_at,
        fallback,
    ) + ENTRY_ID@ + session.composer_id@ + ENTRY_CONTEXT@ + context_label(session.name@)
        + SECTION_BREAK@
}

/// The entries of `sessions` in their order, the first under the ordinal
/// `offset + 1` and each next one under the next number.
pub open spec fn entries_from(sessions: Seq<ChatSession>, offset: nat, fallback: Seq<char>) -> Seq<
    char,
>
    decreases sessions.len(),
{
    if sessions.len() == 0 {
        Seq::empty()
    } else {
        entries_from(sessions.drop_last(), offset, fallback) + session_entry(
            offset + sessions.len(),
            sessions.last(),
            fallback,
        )
    }
}

/// The sessions of all bundles in the order in which they are met.
pub open spec fn all_sessions(bundles: Seq<ComposerData>) -> Seq<ChatSession>
    decreases bundles.len(),
{
    if bundles.len() == 0 {
        Seq::empty()
    } else {
        all_sessions(bundles.drop_last()) + bundles.last().all_composers@
    }
}

/// The section of historical sessions: its heading and one entry for each
/// session of each bundle, numbered from 1 through all bundles.
pub open spec fn historical_text(bundles: Seq<ComposerData>, fallback: Seq<char>) -> Seq<char> {
    SESSIONS_HEAD@ + entries_from(all_sessions(bundles), 0, fallback)
}

/// The shell as the metadata names it.
pub open spec fn shell_text(system: SystemInfo) -> Seq<char> {
    match system.shell {
        Some(shell) => shell@,
        None => UNKNOWN_SHELL@,
    }
}

/// The lines of the metadata on the machine; there are none unless the
/// settings ask for them.
pub open spec fn system_lines(config: Config, system: SystemInfo) -> Seq<char> {
    if config.include_system_info {
        METADATA_OS@ + system.os@ + METADATA_SHELL@ + shell_text(system) + LINE_END@
    } else {
        Seq::empty()
    }
}

/// The metadata behind the time of writing.
pub open spec fn metadata_rest(config: Config, bundles: Seq<ComposerData>, system: SystemInfo) -> Seq<
    char,
> {
    METADATA_PROJECT@ + config.project_name@ + METADATA_BRANCH@ + config.project_branch@
        + METADATA_WORKSPACE@ + sanitized(config, config.project_path@) + METADATA_TOTAL@
        + decimal(all_sessions(bundles).len()) + METADATA_TAIL@ + system_lines(config, system)
}

/// The metadata section; `created` is the time of writing.
pub open spec fn metadata_text(
    config: Config,
    bundles: Seq<ComposerData>,
    system: SystemInfo,
    created: Seq<char>,
) -> Seq<char> {
    METADATA_HEAD@ + created + metadata_rest(config, bundles, system)
}

/// The section on the current session.
pub open spec fn current_session_text(current: Seq<char>) -> Seq<char> {
    CURRENT_HEAD@ + current + CURRENT_TAIL@
}

/// The section on the structure of the project.
pub open spec fn project_structure_text(config: Config) -> Seq<char> {
    STRUCTURE_HEAD@ + sanitized(config, config.project_path@) + STRUCTURE_TAIL@
}

/// The section on the state of the repository.
pub open spec fn git_status_text(config: Config) -> Seq<char> {
    GIT_HEAD@ + config.project_branch@ + GIT_TAIL@
}

/// The section on where the records come from; `base` is the base directory
/// of the store after tilde expansion.
pub open spec fn data_sources_text(config: Config, base: Seq<char>) -> Seq<char> {
    SOURCES_HEAD@ + sanitized(config, store_path(base, config.workspace_id@, config.db_filename@))
        + SOURCES_TAIL@
}

/// The footer.
pub open spec fn footer_text(config: Config) -> Seq<char> {
    FOOTER_HEAD@ + config.app_name@ + FOOTER_PROJECT@ + config.project_name@ + FOOTER_TAIL@
}

/// The document: twelve sections with a blank line between each two.
pub open spec fn document_text(
    config: Config,
    bundles: Seq<ComposerData>,
    system: SystemInfo,
    times: Timestamps,
    base: Seq<char>,
) -> Seq<char> {
    HEADER@ + SECTION_BREAK@ + metadata_text(config, bundles, system, times.created@)
        + SECTION_BREAK@ + PROJECT_CONTEXT@ + SECTION_BREAK@ + historical_text(
        bundles,
        times.fallback@,
    ) + SECTION_BREAK@ + current_session_text(times.current@) + SECTION_BREAK@ + TOPICS@
        + SECTION_BREAK@ + project_structure_text(config) + SECTION_BREAK@ + KEY_FEATURES@
        + SECTION_BREAK@ + git_status_text(config) + SECTION_BREAK@ + data_sources_text(
        config,
        base,
    ) + SECTION_BREAK@ + NOTES@ + SECTION_BREAK@ + footer_text(config)
}

/// The rules by which a session gets its label, in the order in which they
/// are tried.
pub fn context_rule_list() -> (r: Vec<(&'static str, &'static str)>)
    ensures
        r@.len() == context_rules().len(),
        forall|k: int|
            0 <= k < r@.len() ==> (#[trigger] r@[k]).0@ == context_rules()[k].0 && r@[k].1@
                == context_rules()[k].1,
{
    let mut rules: Vec<(&'static str, &'static str)> = Vec::new();
    rules.push((PATTERN_ORCHESTRATOR, LABEL_ORCHESTRATOR));
    rules.push((PATTERN_RAG, LABEL_RAG));
    rules.push((PATTERN_AGENTIC, LABEL_AGENTIC));
    rules.push((PATTERN_MEMORY, LABEL_MEMORY));
    rules.push((PATTERN_DELEGATE, LABEL_DELEGATE));
    rules.push((PATTERN_ENHANCE, LABEL_ENHANCE));
    rules.push((PATTERN_CLARIFICATION, LABEL_CLARIFICATION));
    rules.push((PATTERN_HISTORY, LABEL_HISTORY));
    rules
}

/// The date of a session: that of its time of creation, or `fallback` where
/// that time has no calendar date.
pub fn session_date_text(created_at: i64, fallback: &str) -> (r: String)
    ensures
        r@ == session_date(created_at, fallback@),
{
    match utc_millis_text(created_at, SECOND_PATTERN) {
        Some(date) => date,
        None => String::from_str(fallback),
    }
}

/// The time of the call, written three times as the document needs it.
fn read_timestamps() -> (r: Timestamps)
    ensures
        r.written_as_dates(),
{
    let created = utc_now_text(MINUTE_PATTERN);
    let fallback = utc_now_text(SECOND_PATTERN);
    let current = utc_now_text(MINUTE_PATTERN);
    Timestamps { created, fallback, current }
}

impl Timestamps {
    /// Each of the three times is a date in UTC, written by the pattern of
    /// its place in the document: to the minute for the metadata and for
    /// the current session, to the second for a session without a date of
    /// its own.
    pub open spec fn written_as_dates(&self) -> bool {
        &&& crate::clock::is_utc_date(self.created@, MINUTE_PATTERN@)
        &&& crate::clock::is_utc_date(self.fallback@, SECOND_PATTERN@)
        &&& crate::clock::is_utc_date(self.current@, MINUTE_PATTERN@)
    }
}

impl MarkdownGenerator {
    /// The settings by which the generator writes.
    pub closed spec fn config(&self) -> Config {
        self.config
    }

    /// A generator that writes by `config`.
    pub fn new(config: &Config) -> (r: Self)
        ensures
            r.config() == *config,
    {
        MarkdownGenerator { config: config.clone() }
    }

    /// The title of the document.
    pub fn generate_header(&self) -> (r: String)
        ensures
            r@ == HEADER@,
    {
        String::from_str(HEADER)
    }

    /// The lines of the metadata on the machine.
    pub fn generate_system_lines(&self, system: &SystemInfo) -> (r: String)
        ensures
            r@ == system_lines(self.config(), *system),
    {
        if self.config.include_system_info {
            let mut out = String::from_str(METADATA_OS);
            out.append(system.os.as_str());
            out.append(METADATA_SHELL);
            match &system.shell {
                Some(shell) => out.append(shell.as_str()),
                None => out.append(UNKNOWN_SHELL),
            }
            out.append(LINE_END);
            out
        } else {
            String::new()
        }
    }

    /// The number of sessions in all bundles.
    pub fn count_sessions(&self, sessions: &[ComposerData]) -> (r: u128)
        ensures
            r == all_sessions(sessions@).len(),
    {
        let mut count: u128 = 0;
        let mut at: usize = 0;
        proof {
            assert(sessions@.take(0) == Seq::<ComposerData>::empty());
        }
        while at < sessions.len()
            invariant
                at <= sessions.len(),
                count == all_sessions(sessions@.take(at as int)).len(),
                count <= at * 0x1_0000_0000_0000_0000,
            decreases sessions.len() - at,
        {
            proof {
                assert(sessions@.take(at + 1).drop_last() == sessions@.take(at as int));
            }
            count = count + sessions[at].all_composers.len() as u128;
            at = at + 1;
        }
        proof {
            assert(sessions@.take(at as int) == sessions@);
        }
        count
    }

    /// The metadata section; `created` is the time of writing.
    pub fn generate_metadata(
        &self,
        sessions: &[ComposerData],
        system: &SystemInfo,
        created: &str,
    ) -> (r: String)
        ensures
            r@ == metadata_text(self.config(), sessions@, *system, created@),
    {
        let workspace = self.config.sanitize_path(self.config.project_path.as_str());
        let total = decimal_text(self.count_sessions(sessions));
        let machine = self.generate_system_lines(system);
        let mut rest = String::from_str(METADATA_PROJECT);
        rest.append(self.config.project_name.as_str());
        rest.append(METADATA_BRANCH);
        rest.append(self.config.project_branch.as_str());
        rest.append(METADATA_WORKSPACE);
        rest.append(workspace.as_str());
        rest.append(METADATA_TOTAL);
        rest.append(total.as_str());
        rest.append(METADATA_TAIL);
        rest.append(machine.as_str());
        let mut out = String::from_str(METADATA_HEAD);
        out.append(created);
        out.append(rest.as_str());
        out
    }

    /// The section on the project.
    pub fn generate_project_context(&self) -> (r: String)
        ensures
            r@ == PROJECT_CONTEXT@,
    {
        String::from_str(PROJECT_CONTEXT)
    }

    /// The label of a session by its name.
    pub fn generate_session_context(&self, session: &ChatSession) -> (r: String)
        ensures
            r@ == context_label(session.name@),
    {
        let name = chars_of(session.name.as_str());
        let rules = context_rule_list();
        let mut at: usize = 0;
        proof {
            assert(context_rules().skip(0) == context_rules());
        }
        while at < rules.len()
            invariant
                at <= rules.len(),
                name@ == session.name@,
                rules@.len() == context_rules().len(),
                forall|k: int|
                    0 <= k < rules@.len() ==> (#[trigger] rules@[k]).0@ == context_rules()[k].0
                        && rules@[k].1@ == context_rules()[k].1,
                first_label(context_rules(), name@) == first_label(
                    context_rules().skip(at as int),
                    name@,
                ),
            decreases rules.len() - at,
        {
            let word = chars_of(rules[at].0);
            proof {
                assert(context_rules().skip(at as int).skip(1) == context_rules().skip(at + 1));
            }
            if find_in(&name, &word) {
                return String::from_str(rules[at].1);
            }
            at = at + 1;
        }
        String::from_str(LABEL_GENERAL)
    }

    /// The entry of one session under its ordinal.
    pub fn generate_session_entry(&self, ordinal: u128, session: &ChatSession, fallback: &str) -> (r:
        String)
        ensures
            r@ == session_entry(ordinal as nat, *session, fallback@),
    {
        let number = decimal_text(ordinal);
        let date = session_date_text(session.created_at, fallback);
        let label = self.generate_session_context(session);
        let mut out = String::from_str(ENTRY_HEAD);
        out.append(number.as_str());
        out.append(ENTRY_NAME);
        out.append(session.name.as_str());
        out.append(ENTRY_DATE);
        out.append(date.as_str());
        out.append(ENTRY_ID);
        out.append(session.composer_id.as_str());
        out.append(ENTRY_CONTEXT);
        out.append(label.as_str());
        out.append(SECTION_BREAK);
        out
    }

    /// The section of historical sessions: its heading and one entry for
    /// each session of each bundle, numbered from 1 through all bundles;
    /// `fallback` is the date of a session whose time of creation has no
    /// calendar date.
    pub fn generate_historical_sessions(&self, sessions: &[ComposerData], fallback: &str) -> (r:
        String)
        ensures
            r@ == historical_text(sessions@, fallback@),
    {
        let mut out = String::from_str(SESSIONS_HEAD);
        let mut count: u128 = 0;
        let mut at: usize = 0;
        proof {
            assert(sessions@.take(0) == Seq::<ComposerData>::empty());
            assert(out@ + Seq::<char>::empty() == out@);
        }
        while at < sessions.len()
            invariant
                at <= sessions.len(),
                count == all_sessions(sessions@.take(at as int)).len(),
                count <= at * 0x1_0000_0000_0000_0000,
                out@ == SESSIONS_HEAD@ + entries_from(
                    all_sessions(sessions@.take(at as int)),
                    0,
                    fallback@,
                ),
            decreases sessions.len() - at,
        {
            let bundle = &sessions[at];
            let ghost before = all_sessions(sessions@.take(at as int));
            let mut inner: usize = 0;
            proof {
                assert(before + bundle.all_composers@.take(0) == before);
            }
            while inner < bundle.all_composers.len()
                invariant
                    inner <= bundle.all_composers.len(),
                    at < sessions.len(),
                    count == before.len(),
                    count <= at * 0x1_0000_0000_0000_0000,
                    out@ == SESSIONS_HEAD@ + entries_from(
                        before + bundle.all_composers@.take(inner as int),
                        0,
                        fallback@,
                    ),
                decreases bundle.all_composers.len() - inner,
            {
                let session = &bundle.all_composers[inner];
                let ordinal: u128 = count + inner as u128 + 1;
                let entry = self.generate_session_entry(ordinal, session, fallback);
                proof {
                    let seen = before + bundle.all_composers@.take(inner as int);
                    let next = before + bundle.all_composers@.take(inner + 1);
                    assert(next.drop_last() == seen);
                    assert(next.last() == *session);
                    assert(SESSIONS_HEAD@ + entries_from(seen, 0, fallback@) + entry@
                        == SESSIONS_HEAD@ + (entries_from(seen, 0, fallback@) + entry@));
                }
                out.append(entry.as_str());
                inner = inner + 1;
            }
            proof {
                assert(bundle.all_composers@.take(inner as int) == bundle.all_composers@);
                assert(sessions@.take(at + 1).drop_last() == sessions@.take(at as int));
            }
            count = count + bundle.all_composers.len() as u128;
            at = at + 1;
        }
        proof {
            assert(sessions@.take(at as int) == sessions@);
        }
        out
    }

    /// The section on the current session; `current` is its date.
    pub fn generate_current_session(&self, current: &str) -> (r: String)
        ensures
            r@ == current_session_text(current@),
    {
        let mut out = String::from_str(CURRENT_HEAD);
        out.append(current);
        out.append(CURRENT_TAIL);
        out
    }

    /// The section on topics and themes.
    pub fn generate_topics_and_themes(&self) -> (r: String)
        ensures
            r@ == TOPICS@,
    {
        String::from_str(TOPICS)
    }

    /// The section on the structure of the project.
    pub fn generate_project_structure(&self) -> (r: String)
        ensures
            r@ == project_structure_text(self.config()),
    {
        let root = self.config.sanitize_path(self.config.project_path.as_str());
        let mut out = String::from_str(STRUCTURE_HEAD);
        out.append(root.as_str());
        out.append(STRUCTURE_TAIL);
        out
    }

    /// The section on key features.
    pub fn generate_key_features(&self) -> (r: String)
        ensures
            r@ == KEY_FEATURES@,
    {
        String::from_str(KEY_FEATURES)
    }

    /// The section on the state of the repository.
    pub fn generate_git_status(&self) -> (r: String)
        ensures
            r@ == git_status_text(self.config()),
    {
        let mut out = String::from_str(GIT_HEAD);
        out.append(self.config.project_branch.as_str());
        out.append(GIT_TAIL);
        out
    }

    /// The section on where the records come from; `base` is the base
    /// directory of the store after tilde expansion.
    pub fn generate_data_sources(&self, base: &str) -> (r: String)
        ensures
            r@ == data_sources_text(self.config(), base@),
    {
        let path = self.config.database_path_from(base);
        let shown = self.config.sanitize_path(path.as_str());
        let mut out = String::from_str(SOURCES_HEAD);
        out.append(shown.as_str());
        out.append(SOURCES_TAIL);
        out
    }

    /// The section of notes.
    pub fn generate_notes(&self) -> (r: String)
        ensures
            r@ == NOTES@,
    {
        String::from_str(NOTES)
    }

    /// The footer.
    pub fn generate_footer(&self) -> (r: String)
        ensures
            r@ == footer_text(self.config()),
    {
        let mut out = String::from_str(FOOTER_HEAD);
        out.append(self.config.app_name.as_str());
        out.append(FOOTER_PROJECT);
        out.append(self.config.project_name.as_str());
        out.append(FOOTER_TAIL);
        out
    }

    /// The document for the given records, machine and times; `base` is the
    /// base directory of the store after tilde expansion. The generations
    /// and the prompts are taken and not shown.
    pub fn render_document(
        &self,
        sessions: &[ComposerData],
        _generations: &[ChatGeneration],
        _prompts: &[ChatPrompt],
        system: &SystemInfo,
        times: &Timestamps,
        base: &str,
    ) -> (r: String)
        ensures
            r@ == document_text(self.config(), sessions@, *system, *times, base@),
    {
        let metadata = self.generate_metadata(sessions, system, times.created.as_str());
        let context = self.generate_project_context();
        let history = self.generate_historical_sessions(sessions, times.fallback.as_str());
        let current = self.generate_current_session(times.current.as_str());
        let topics = self.generate_topics_and_themes();
        let structure = self.generate_project_structure();
        let features = self.generate_key_features();
        let git = self.generate_git_status();
        let sources = self.generate_data_sources(base);
        let notes = self.generate_notes();
        let footer = self.generate_footer();
        let mut out = self.generate_header();
        out.append(SECTION_BREAK);
        out.append(metadata.as_str());
        out.append(SECTION_BREAK);
        out.append(context.as_str());
        out.append(SECTION_BREAK);
        out.append(history.as_str());
        out.append(SECTION_BREAK);
        out.append(current.as_str());
        out.append(SECTION_BREAK);
        out.append(topics.as_str());
        out.append(SECTION_BREAK);
        out.append(structure.as_str());
        out.append(SECTION_BREAK);
        out.append(features.as_str());
        out.append(SECTION_BREAK);
        out.append(git.as_str());
        out.append(SECTION_BREAK);
        out.append(sources.as_str());
        out.append(SECTION_BREAK);
        out.append(notes.as_str());
        out.append(SECTION_BREAK);
        out.append(footer.as_str());
        out
    }

    /// The document for the given records and machine, written now: the
    /// three times are the time of the call, each a date in UTC written by
    /// the pattern of its place, and the base directory of the store is
    /// what tilde expansion makes of the setting. Neither is known before
    /// the call, so the result is the document for some such values.
    pub fn generate_consolidated_history(
        &self,
        sessions: &[ComposerData],
        generations: &[ChatGeneration],
        prompts: &[ChatPrompt],
        system: &SystemInfo,
    ) -> (r: String)
        ensures
            exists|times: Timestamps, base: Seq<char>|
                times.written_as_dates() && is_tilde_expansion(self.config().db_path@, base) && r@
                    == #[trigger] document_text(
                    self.config(),
                    sessions@,
                    *system,
                    times,
                    base,
                ),
    {
        let times = read_timestamps();
        let base = self.config.expanded_db_path();
        self.render_document(sessions, generations, prompts, system, &times, base.as_str())
    }
}

/// Of the words that a name contains, the first in the order of the rules
/// decides the label, whatever other words the name contains: the label is
/// that of `orchestrator`, else that of `RAG`, and so on to `history`.
pub proof fn lemma_first_word_decides(name: Seq<char>)
    ensures
        context_label(name) == if text_contains(name, PATTERN_ORCHESTRATOR@) {
            LABEL_ORCHESTRATOR@
        } else if text_contains(name, PATTERN_RAG@) {
            LABEL_RAG@
        } else if text_contains(name, PATTERN_AGENTIC@) {
            LABEL_AGENTIC@
        } else if text_contains(name, PATTERN_MEMORY@) {
            LABEL_MEMORY@
        } else if text_contains(name, PATTERN_DELEGATE@) {
            LABEL_DELEGATE@
        } else if text_contains(name, PATTERN_ENHANCE@) {
            LABEL_ENHANCE@
        } else if text_contains(name, PATTERN_CLARIFICATION@) {
            LABEL_CLARIFICATION@
        } else if text_contains(name, PATTERN_HISTORY@) {
            LABEL_HISTORY@
        } else {
            LABEL_GENERAL@
        },
{
    let rules = context_rules();
    reveal_with_fuel(first_label, 9);
    assert(rules.skip(1)[0] == rules[1]);
    assert(rules.skip(1).skip(1)[0] == rules[2]);
    assert(rules.skip(1).skip(1).skip(1)[0] == rules[3]);
    assert(rules.skip(1).skip(1).skip(1).skip(1)[0] == rules[4]);
    assert(rules.skip(1).skip(1).skip(1).skip(1).skip(1)[0] == rules[5]);
    assert(rules.skip(1).skip(1).skip(1).skip(1).skip(1).skip(1)[0] == rules[6]);
    assert(rules.skip(1).skip(1).skip(1).skip(1).skip(1).skip(1).skip(1)[0] == rules[7]);
    assert(rules.skip(1).skip(1).skip(1).skip(1).skip(1).skip(1).skip(1).skip(1).len() == 0);
}

/// The text that stands before the time of writing in every document.
pub open spec fn document_lead() -> Seq<char> {
    HEADER@ + SECTION_BREAK@ + METADATA_HEAD@
}

/// The text between the time of writing and the date of the current session.
pub open spec fn document_middle(
    config: Config,
    bundles: Seq<ComposerData>,
    system: SystemInfo,
    fallback: Seq<char>,
) -> Seq<char> {
    metadata_rest(config, bundles, system) + SECTION_BREAK@ + PROJECT_CONTEXT@ + SECTION_BREAK@
        + historical_text(bundles, fallback) + SECTION_BREAK@ + CURRENT_HEAD@
}

/// The text behind the date of the current session.
pub open spec fn document_tail(config: Config, base: Seq<char>) -> Seq<char> {
    CURRENT_TAIL@ + SECTION_BREAK@ + TOPICS@ + SECTION_BREAK@ + project_structure_text(config)
        + SECTION_BREAK@ + KEY_FEATURES@ + SECTION_BREAK@ + git_status_text(config)
        + SECTION_BREAK@ + data_sources_text(config, base) + SECTION_BREAK@ + NOTES@
        + SECTION_BREAK@ + footer_text(config)
}

/// Every session has a calendar date for its time of creation.
pub open spec fn all_dated(sessions: Seq<ChatSession>) -> bool {
    forall|k: int| 0 <= k < sessions.len() ==> has_date(#[trigger] sessions[k].created_at)
}

/// The numbering of sessions goes on from one list to the next: the entries
/// of two lists in a row are those of the first, and then those of the second
/// numbered from where the first ended.
pub proof fn lemma_numbering_continues(
    first: Seq<ChatSession>,
    second: Seq<ChatSession>,
    offset: nat,
    fallback: Seq<char>,
)
    ensures
        entries_from(first + second, offset, fallback) == entries_from(first, offset, fallback)
            + entries_from(second, offset + first.len(), fallback),
    decreases second.len(),
{
    if second.len() == 0 {
        assert(first + second == first);
        assert(entries_from(first, offset, fallback) + Seq::<char>::empty() == entries_from(
            first,
            offset,
            fallback,
        ));
    } else {
        let both = first + second;
        assert(both.drop_last() == first + second.drop_last());
        assert(both.last() == second.last());
        lemma_numbering_continues(first, second.drop_last(), offset, fallback);
        let a = entries_from(first, offset, fallback);
        let b = entries_from(second.drop_last(), offset + first.len(), fallback);
        let c = session_entry(offset + both.len(), both.last(), fallback);
        assert((a + b) + c == a + (b + c));
    }
}

/// The session at position `k` of all sessions, counted from 0 in the order
/// in which they are met, stands under the ordinal `k + 1`: the section is
/// what stands before that session, its entry under that number, and what
/// follows it.
pub proof fn lemma_ordinal_is_position(bundles: Seq<ComposerData>, fallback: Seq<char>, k: int)
    requires
        0 <= k < all_sessions(bundles).len(),
    ensures
        historical_text(bundles, fallback) == SESSIONS_HEAD@ + entries_from(
            all_sessions(bundles).take(k),
            0,
            fallback,
        ) + session_entry((k + 1) as nat, all_sessions(bundles)[k], fallback) + entries_from(
            all_sessions(bundles).skip(k + 1),
            (k + 1) as nat,
            fallback,
        ),
{
    let sessions = all_sessions(bundles);
    let upto = sessions.take(k + 1);
    assert(sessions == upto + sessions.skip(k + 1));
    lemma_numbering_continues(upto, sessions.skip(k + 1), 0, fallback);
    assert(upto.drop_last() == sessions.take(k));
    assert(upto.last() == sessions[k]);
    let a = SESSIONS_HEAD@;
    let b = entries_from(sessions.take(k), 0, fallback);
    let c = session_entry((k + 1) as nat, sessions[k], fallback);
    let d = entries_from(sessions.skip(k + 1), (k + 1) as nat, fallback);
    assert(a + ((b + c) + d) == a + b + c + d);
}

/// The entries of sessions that all have a calendar date do not depend on
/// the fallback date.
pub proof fn lemma_dated_entries_ignore_fallback(
    sessions: Seq<ChatSession>,
    offset: nat,
    one: Seq<char>,
    other: Seq<char>,
)
    requires
        all_dated(sessions),
    ensures
        entries_from(sessions, offset, one) == entries_from(sessions, offset, other),
    decreases sessions.len(),
{
    if sessions.len() > 0 {
        let rest = sessions.drop_last();
        assert forall|k: int| 0 <= k < rest.len() implies has_date(
            #[trigger] rest[k].created_at,
        ) by {
            assert(rest[k] == sessions[k]);
        }
        lemma_dated_entries_ignore_fallback(rest, offset, one, other);
        assert(has_date(sessions[sessions.len() - 1].created_at));
    }
}

/// Four texts in a row are the first followed by the other three in a row.
proof fn lemma_row_of_four(parts: Seq<Seq<char>>)
    requires
        parts.len() == 4,
    ensures
        parts[0] + parts[1] + parts[2] + parts[3]
            == parts[0] + (parts[1] + parts[2] + parts[3]),
{
    let first = parts[0];
    let from_1 = parts[1];
    let from_2 = from_1 + parts[2];
    assert(first + from_1 + parts[2] == first + from_2);
    assert(first + from_2 + parts[3] == first + (from_2 + parts[3]));
}

/// Six texts in a row are the first followed by the other five in a row.
proof fn lemma_row_of_six(parts: Seq<Seq<char>>)
    requires
        parts.len() == 6,
    ensures
        parts[0] + parts[1] + parts[2] + parts[3] + parts[4] + parts[5]
            == parts[0] + (parts[1] + parts[2] + parts[3] + parts[4] + parts[5]),
{
    let first = parts[0];
    let from_1 = parts[1];
    let from_2 = from_1 + parts[2];
    let from_3 = from_2 + parts[3];
    let from_4 = from_3 + parts[4];
    assert(first + from_1 + parts[2] == first + from_2);
    assert(first + from_2 + parts[3] == first + from_3);
    assert(first + from_3 + parts[4] == first + from_4);
    assert(first + from_4 + parts[5] == first + (from_4 + parts[5]));
}

/// Eight texts in a row are the first followed by the other seven in a row.
proof fn lemma_row_of_eight(parts: Seq<Seq<char>>)
    requires
        parts.len() == 8,
    ensures
        parts[0] + parts[1] + parts[2] + parts[3] + parts[4] + parts[5] + parts[6] + parts[7]
            == parts[0] + (parts[1] + parts[2] + parts[3] + parts[4] + parts[5] + parts[6] + parts[7]),
{
    let first = parts[0];
    let from_1 = parts[1];
    let from_2 = from_1 + parts[2];
    let from_3 = from_2 + parts[3];
    let from_4 = from_3 + parts[4];
    let from_5 = from_4 + parts[5];
    let from_6 = from_5 + parts[6];
    assert(first + from_1 + parts[2] == first + from_2);
    assert(first + from_2 + parts[3] == first + from_3);
    assert(first + from_3 + parts[4] == first + from_4);
    assert(first + from_4 + parts[5] == first + from_5);
    assert(first + from_5 + parts[6] == first + from_6);
    assert(first + from_6 + parts[7] == first + (from_6 + parts[7]));
}

/// Fifteen texts in a row are the first followed by the other fourteen in a row.
proof fn lemma_row_of_fifteen(parts: Seq<Seq<char>>)
    requires
        parts.len() == 15,
    ensures
        parts[0] + parts[1] + parts[2] + parts[3] + parts[4] + parts[5] + parts[6] + parts[7] + parts[8] + parts[9] + parts[10] + parts[11] + parts[12] + parts[13] + parts[14]
            == parts[0] + (parts[1] + parts[2] + parts[3] + parts[4] + parts[5] + parts[6] + parts[7] + parts[8] + parts[9] + parts[10] + parts[11] + parts[12] + parts[13] + parts[14]),
{
    let first = parts[0];
    let from_1 = parts[1];
    let from_2 = from_1 + parts[2];
    let from_3 = from_2 + parts[3];
    let from_4 = from_3 + parts[4];
    let from_5 = from_4 + parts[5];
    let from_6 = from_5 + parts[6];
    let from_7 = from_6 + parts[7];
    let from_8 = from_7 + parts[8];
    let from_9 = from_8 + parts[9];
    let from_10 = from_9 + parts[10];
    let from_11 = from_10 + parts[11];
    let from_12 = from_11 + parts[12];
    let from_13 = from_12 + parts[13];
    assert(first + from_1 + parts[2] == first + from_2);
    assert(first + from_2 + parts[3] == first + from_3);
    assert(first + from_3 + parts[4] == first + from_4);
    assert(first + from_4 + parts[5] == first + from_5);
    assert(first + from_5 + parts[6] == first + from_6);
    assert(first + from_6 + parts[7] == first + from_7);
    assert(first + from_7 + parts[8] == first + from_8);
    assert(first + from_8 + parts[9] == first + from_9);
    assert(first + from_9 + parts[10] == first + from_10);
    assert(first + from_10 + parts[11] == first + from_11);
    assert(first + from_11 + parts[12] == first + from_12);
    assert(first + from_12 + parts[13] == first + from_13);
    assert(first + from_13 + parts[14] == first + (from_13 + parts[14]));
}

/// Seventeen texts in a row are the first followed by the other sixteen in a row.
proof fn lemma_row_of_seventeen(parts: Seq<Seq<char>>)
    requires
        parts.len() == 17,
    ensures
        parts[0] + parts[1] + parts[2] + parts[3] + parts[4] + parts[5] + parts[6] + parts[7] + parts[8] + parts[9] + parts[10] + parts[11] + parts[12] + parts[13] + parts[14] + parts[15] + parts[16]
            == parts[0] + (parts[1] + parts[2] + parts[3] + parts[4] + parts[5] + parts[6] + parts[7] + parts[8] + parts[9] + parts[10] + parts[11] + parts[12] + parts[13] + parts[14] + parts[15] + parts[16]),
{
    let first = parts[0];
    let from_1 = parts[1];
    let from_2 = from_1 + parts[2];
    let from_3 = from_2 + parts[3];
    let from_4 = from_3 + parts[4];
    let from_5 = from_4 + parts[5];
    let from_6 = from_5 + parts[6];
    let from_7 = from_6 + parts[7];
    let from_8 = from_7 + parts[8];
    let from_9 = from_8 + parts[9];
    let from_10 = from_9 + parts[10];
    let from_11 = from_10 + parts[11];
    let from_12 = from_11 + parts[12];
    let from_13 = from_12 + parts[13];
    let from_14 = from_13 + parts[14];
    let from_15 = from_14 + parts[15];
    assert(first + from_1 + parts[2] == first + from_2);
    assert(first + from_2 + parts[3] == first + from_3);
    assert(first + from_3 + parts[4] == first + from_4);
    assert(first + from_4 + parts[5] == first + from_5);
    assert(first + from_5 + parts[6] == first + from_6);
    assert(first + from_6 + parts[7] == first + from_7);
    assert(first + from_7 + parts[8] == first + from_8);
    assert(first + from_8 + parts[9] == first + from_9);
    assert(first + from_9 + parts[10] == first + from_10);
    assert(first + from_10 + parts[11] == first + from_11);
    assert(first + from_11 + parts[12] == first + from_12);
    assert(first + from_12 + parts[13] == first + from_13);
    assert(first + from_13 + parts[14] == first + from_14);
    assert(first + from_14 + parts[15] == first + from_15);
    assert(first + from_15 + parts[16] == first + (from_15 + parts[16]));
}

/// Twenty-three texts in a row, the third and the ninth of them rows of three
/// themselves, regrouped around the second text of the third and the second
/// text of the ninth.
proof fn lemma_regroup_around_two(
    h: Seq<char>,
    gap: Seq<char>,
    mh: Seq<char>,
    created: Seq<char>,
    rest: Seq<char>,
    context: Seq<char>,
    history: Seq<char>,
    ch: Seq<char>,
    current: Seq<char>,
    ct: Seq<char>,
    topics: Seq<char>,
    structure: Seq<char>,
    features: Seq<char>,
    git: Seq<char>,
    sources: Seq<char>,
    notes: Seq<char>,
    footer: Seq<char>,
)
    ensures
        h + gap + (mh + created + rest) + gap + context + gap + history + gap + (ch + current + ct)
            + gap + topics + gap + structure + gap + features + gap + git + gap + sources + gap
            + notes + gap + footer == (h + gap + mh) + created + (rest + gap + context + gap
            + history + gap + ch) + current + (ct + gap + topics + gap + structure + gap + features
            + gap + git + gap + sources + gap + notes + gap + footer),
{
    let started = h + gap + mh + created;
    let middle = rest + gap + context + gap + history + gap + ch;
    let upto_history = h + gap + (mh + created + rest) + gap + context + gap + history + gap;
    let upto_current = upto_history + (ch + current + ct);
    let sections = seq![
        upto_current,
        gap,
        topics,
        gap,
        structure,
        gap,
        features,
        gap,
        git,
        gap,
        sources,
        gap,
        notes,
        gap,
        footer,
    ];
    let closing = gap + topics + gap + structure + gap + features + gap + git + gap + sources + gap
        + notes + gap + footer;
    lemma_row_of_fifteen(sections);
    lemma_row_of_fifteen(sections.update(0, ct));
    assert(h + gap + (mh + created + rest) == started + rest) by {
        let a = h + gap;
        assert(a + (mh + created) == a + mh + created);
        assert(a + (mh + created + rest) == a + (mh + created) + rest);
    }
    assert(upto_history + ch == started + middle) by {
        lemma_row_of_eight(seq![started, rest, gap, context, gap, history, gap, ch]);
    }
    assert(upto_current == started + middle + current + ct) by {
        assert(upto_history + (ch + current) == upto_history + ch + current);
        assert(upto_history + (ch + current + ct) == upto_history + (ch + current) + ct);
    }
    assert(started + middle + current + ct + closing == started + middle + current + (ct
        + closing));
}

/// A document is a fixed text with the time of writing and the date of the
/// current session put in at two places.
pub proof fn lemma_document_frames_times(
    config: Config,
    bundles: Seq<ComposerData>,
    system: SystemInfo,
    times: Timestamps,
    base: Seq<char>,
)
    ensures
        document_text(config, bundles, system, times, base) == document_lead() + times.created@
            + document_middle(config, bundles, system, times.fallback@) + times.current@
            + document_tail(config, base),
{
    lemma_regroup_around_two(
        HEADER@,
        SECTION_BREAK@,
        METADATA_HEAD@,
        times.created@,
        metadata_rest(config, bundles, system),
        PROJECT_CONTEXT@,
        historical_text(bundles, times.fallback@),
        CURRENT_HEAD@,
        times.current@,
        CURRENT_TAIL@,
        TOPICS@,
        project_structure_text(config),
        KEY_FEATURES@,
        git_status_text(config),
        data_sources_text(config, base),
        NOTES@,
        footer_text(config),
    );
}

/// Two documents of the same records, settings, machine and base directory,
/// in which every session has a calendar date, differ only in the two times
/// that are put in: the text before, between and behind them is the same.
pub proof fn lemma_documents_differ_in_times_only(
    config: Config,
    bundles: Seq<ComposerData>,
    system: SystemInfo,
    base: Seq<char>,
    one: Timestamps,
    other: Timestamps,
)
    requires
        all_dated(all_sessions(bundles)),
    ensures
        document_text(config, bundles, system, one, base) == document_lead() + one.created@
            + document_middle(config, bundles, system, one.fallback@) + one.current@
            + document_tail(config, base),
        document_text(config, bundles, system, other, base) == document_lead() + other.created@
            + document_middle(config, bundles, system, one.fallback@) + other.current@
            + document_tail(config, base),
{
    lemma_document_frames_times(config, bundles, system, one, base);
    lemma_document_frames_times(config, bundles, system, other, base);
    lemma_dated_entries_ignore_fallback(all_sessions(bundles), 0, one.fallback@, other.fallback@);
}

/// The entry of a session shows the name, the identifier and the label of
/// the session.
pub proof fn lemma_entry_shows_session(ordinal: nat, session: ChatSession, fallback: Seq<char>)
    ensures
        text_contains(session_entry(ordinal, session, fallback), session.name@),
        text_contains(session_entry(ordinal, session, fallback), session.composer_id@),
        text_contains(session_entry(ordinal, session, fallback), context_label(session.name@)),
{
    let entry = session_entry(ordinal, session, fallback);
    let date = session_date(session.created_at, fallback);
    let label = context_label(session.name@);
    let upto_name = ENTRY_HEAD@ + decimal(ordinal) + ENTRY_NAME@;
    let upto_id = upto_name + session.name@ + ENTRY_DATE@ + date + ENTRY_ID@;
    let upto_label = upto_id + session.composer_id@ + ENTRY_CONTEXT@;
    assert(text_contains(entry, label)) by {
        lemma_contains_part(upto_label, label, SECTION_BREAK@);
    }
    assert(text_contains(entry, session.composer_id@)) by {
        let after = ENTRY_CONTEXT@ + label + SECTION_BREAK@;
        lemma_row_of_four(
            seq![upto_id + session.composer_id@, ENTRY_CONTEXT@, label, SECTION_BREAK@],
        );
        lemma_contains_part(upto_id, session.composer_id@, after);
    }
    assert(text_contains(entry, session.name@)) by {
        let after = ENTRY_DATE@ + date + ENTRY_ID@ + session.composer_id@ + ENTRY_CONTEXT@ + label
            + SECTION_BREAK@;
        lemma_row_of_eight(
            seq![
                upto_name + session.name@,
                ENTRY_DATE@,
                date,
                ENTRY_ID@,
                session.composer_id@,
                ENTRY_CONTEXT@,
                label,
                SECTION_BREAK@,
            ],
        );
        lemma_contains_part(upto_name, session.name@, after);
    }
}

/// Every document begins with the title and shows each session: its entry
/// under its ordinal, and with it its name, its identifier and its label.
pub proof fn lemma_document_shows_sessions(
    config: Config,
    bundles: Seq<ComposerData>,
    system: SystemInfo,
    times: Timestamps,
    base: Seq<char>,
    k: int,
)
    requires
        0 <= k < all_sessions(bundles).len(),
    ensures
        occurs_at(document_text(config, bundles, system, times, base), HEADER@, 0),
        text_contains(
            document_text(config, bundles, system, times, base),
            session_entry((k + 1) as nat, all_sessions(bundles)[k], times.fallback@),
        ),
        text_contains(
            document_text(config, bundles, system, times, base),
            all_sessions(bundles)[k].name@,
        ),
        text_contains(
            document_text(config, bundles, system, times, base),
            all_sessions(bundles)[k].composer_id@,
        ),
        text_contains(
            document_text(config, bundles, system, times, base),
            context_label(all_sessions(bundles)[k].name@),
        ),
{
    let document = document_text(config, bundles, system, times, base);
    let gap = SECTION_BREAK@;
    let session = all_sessions(bundles)[k];
    let history = historical_text(bundles, times.fallback@);
    let entry = session_entry((k + 1) as nat, session, times.fallback@);
    let upto_history = HEADER@ + gap + metadata_text(config, bundles, system, times.created@) + gap
        + PROJECT_CONTEXT@ + gap;
    let after_history = gap + current_session_text(times.current@) + gap + TOPICS@ + gap
        + project_structure_text(config) + gap + KEY_FEATURES@ + gap + git_status_text(config)
        + gap + data_sources_text(config, base) + gap + NOTES@ + gap + footer_text(config);
    assert(document == upto_history + history + after_history) by {
        lemma_row_of_seventeen(
            seq![
                upto_history + history,
                gap,
                current_session_text(times.current@),
                gap,
                TOPICS@,
                gap,
                project_structure_text(config),
                gap,
                KEY_FEATURES@,
                gap,
                git_status_text(config),
                gap,
                data_sources_text(config, base),
                gap,
                NOTES@,
                gap,
                footer_text(config),
            ],
        );
    }
    lemma_contains_part(upto_history, history, after_history);
    assert(occurs_at(document, HEADER@, 0)) by {
        let after_title = gap + metadata_text(config, bundles, system, times.created@) + gap
            + PROJECT_CONTEXT@ + gap;
        lemma_row_of_six(
            seq![
                HEADER@,
                gap,
                metadata_text(config, bundles, system, times.created@),
                gap,
                PROJECT_CONTEXT@,
                gap,
            ],
        );
        let rest = after_title + history + after_history;
        assert(HEADER@ + after_title + history + after_history == HEADER@ + rest) by {
            assert(HEADER@ + after_title + history == HEADER@ + (after_title + history));
            assert(HEADER@ + (after_title + history) + after_history == HEADER@ + (after_title
                + history + after_history));
        }
        assert((HEADER@ + rest).subrange(0, HEADER@.len() as int) == HEADER@);
    }
    assert(text_contains(history, entry)) by {
        lemma_ordinal_is_position(bundles, times.fallback@, k);
        lemma_contains_part(
            SESSIONS_HEAD@ + entries_from(all_sessions(bundles).take(k), 0, times.fallback@),
            entry,
            entries_from(all_sessions(bundles).skip(k + 1), (k + 1) as nat, times.fallback@),
        );
    }
    lemma_contains_within(document, history, entry);
    lemma_entry_shows_session((k + 1) as nat, session, times.fallback@);
    lemma_contains_within(document, entry, session.name@);
    lemma_contains_within(document, entry, session.composer_id@);
    lemma_contains_within(document, entry, context_label(session.name@));
}

} // verus!
