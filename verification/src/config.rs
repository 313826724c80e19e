//! Settings: how they are resolved from a list of key/value pairs, where the
//! store file lies, and how paths are hidden in what is written out.

use crate::text::{
    lemma_replace_scan_hides, overlaps, replace_all, replace_text, same_text, text_contains,
};
use vstd::prelude::*;
use vstd::string::*;

verus! {

// The keys of the settings, one for each field of `Config`.
pub const KEY_APP_NAME: &'static str = "APP_NAME";

pub const KEY_OUTPUT_DIR: &'static str = "OUTPUT_DIR";

pub const KEY_OUTPUT_FILENAME: &'static str = "OUTPUT_FILENAME";

pub const KEY_DB_TYPE: &'static str = "DB_TYPE";

pub const KEY_DB_PATH: &'static str = "DB_PATH";

pub const KEY_DB_FILENAME: &'static str = "DB_FILENAME";

pub const KEY_WORKSPACE_ID: &'static str = "WORKSPACE_ID";

pub const KEY_PROJECT_NAME: &'static str = "PROJECT_NAME";

pub const KEY_PROJECT_BRANCH: &'static str = "PROJECT_BRANCH";

pub const KEY_PROJECT_PATH: &'static str = "PROJECT_PATH";

pub const KEY_COMPOSER_DATA_KEY: &'static str = "COMPOSER_DATA_KEY";

pub const KEY_GENERATIONS_KEY: &'static str = "GENERATIONS_KEY";

pub const KEY_PROMPTS_KEY: &'static str = "PROMPTS_KEY";

pub const KEY_INCLUDE_SECRETS: &'static str = "INCLUDE_SECRETS";

pub const KEY_INCLUDE_ABSOLUTE_PATHS: &'static str = "INCLUDE_ABSOLUTE_PATHS";

pub const KEY_INCLUDE_SYSTEM_INFO: &'static str = "INCLUDE_SYSTEM_INFO";

// The value of each setting that its key does not give.
pub const DEFAULT_APP_NAME: &'static str = "chat-history-consolidator";

pub const DEFAULT_OUTPUT_DIR: &'static str = ".knowledge";

pub const DEFAULT_OUTPUT_FILENAME: &'static str = "chat-history-consolidated.md";

pub const DEFAULT_DB_TYPE: &'static str = "sqlite";

pub const DEFAULT_DB_PATH: &'static str =
    "~/Library/Application Support/Cursor/User/workspaceStorage";

pub const DEFAULT_DB_FILENAME: &'static str = "state.vscdb";

pub const DEFAULT_WORKSPACE_ID: &'static str = "default-workspace";

pub const DEFAULT_PROJECT_NAME: &'static str = "unknown-project";

pub const DEFAULT_PROJECT_BRANCH: &'static str = "main";

pub const DEFAULT_PROJECT_PATH: &'static str = "/path/to/project";

pub const DEFAULT_COMPOSER_DATA_KEY: &'static str = "composer.composerData";

pub const DEFAULT_GENERATIONS_KEY: &'static str = "aiService.generations";

pub const DEFAULT_PROMPTS_KEY: &'static str = "aiService.prompts";

pub const DEFAULT_INCLUDE_SECRETS: bool = false;

pub const DEFAULT_INCLUDE_ABSOLUTE_PATHS: bool = false;

pub const DEFAULT_INCLUDE_SYSTEM_INFO: bool = true;

/// What stands for the project path in sanitized text.
pub const PROJECT_PATH_PLACEHOLDER: &'static str = "<PROJECT_PATH>";

/// What stands for the store's base path in sanitized text.
pub const DB_PATH_PLACEHOLDER: &'static str = "<DB_PATH>";

/// The settings of one run. They are resolved once and only read afterwards.
#[derive(Debug)]
pub struct Config {
    /// The name of the application, as the footer gives it.
    pub app_name: String,
    /// The directory the document is written to.
    pub output_dir: String,
    /// The file name of the document.
    pub output_filename: String,
    /// The kind of store.
    pub db_type: String,
    /// The base directory of the store; a leading `~` is the home directory.
    pub db_path: String,
    /// The file name of the store.
    pub db_filename: String,
    /// The workspace whose store is read.
    pub workspace_id: String,
    /// The name of the project.
    pub project_name: String,
    /// The branch of the project.
    pub project_branch: String,
    /// The directory of the project.
    pub project_path: String,
    /// The store key of the session bundle.
    pub composer_data_key: String,
    /// The store key of the generations.
    pub generations_key: String,
    /// The store key of the prompts.
    pub prompts_key: String,
    /// Whether secrets may appear in the document.
    pub include_secrets: bool,
    /// Whether paths appear as they are; if not, they are replaced by placeholders.
    pub include_absolute_paths: bool,
    /// Whether the metadata names the operating system and the shell.
    pub include_system_info: bool,
}

/// The value that a list of key/value pairs gives to `key`: that of the
/// first pair with this key.
pub open spec fn setting(source: Seq<(String, String)>, key: Seq<char>) -> Option<Seq<char>>
    decreases source.len(),
{
    if source.len() == 0 {
        None
    } else if source[0].0@ == key {
        Some(source[0].1@)
    } else {
        setting(source.skip(1), key)
    }
}

/// A text setting: the value given to `key`, or `default` where there is none.
pub open spec fn text_setting(
    source: Seq<(String, String)>,
    key: Seq<char>,
    default: Seq<char>,
) -> Seq<char> {
    match setting(source, key) {
        Some(value) => value,
        None => default,
    }
}

/// What a value says as a flag: `true` and `false` are the two values that
/// say anything.
pub open spec fn flag_of(value: Seq<char>) -> Option<bool> {
    if value == "true"@ {
        Some(true)
    } else if value == "false"@ {
        Some(false)
    } else {
        None
    }
}

/// A flag setting: what the value given to `key` says, or `default` where
/// there is no value or it says nothing.
pub open spec fn flag_setting(source: Seq<(String, String)>, key: Seq<char>, default: bool) -> bool {
    match setting(source, key) {
        Some(value) => match flag_of(value) {
            Some(flag) => flag,
            None => default,
        },
        None => default,
    }
}

/// `part` put behind `base`, with one `/` between them unless `base` is
/// empty or ends in `/` already.
pub open spec fn join_path(base: Seq<char>, part: Seq<char>) -> Seq<char> {
    if base.len() == 0 || base.last() == '/' {
        base + part
    } else {
        base + seq!['/'] + part
    }
}

/// The path of the store file below `base`.
pub open spec fn store_path(base: Seq<char>, workspace: Seq<char>, file: Seq<char>) -> Seq<char> {
    join_path(join_path(base, workspace), file)
}

/// What the caller has chosen, or `setting` where the caller has chosen
/// nothing.
pub open spec fn chosen_or(chosen: Option<&str>, setting: Seq<char>) -> Seq<char> {
    match chosen {
        Some(text) => text@,
        None => setting,
    }
}

/// `text` ends in `tail`.
pub open spec fn ends_with(text: Seq<char>, tail: Seq<char>) -> bool {
    &&& tail.len() <= text.len()
    &&& text.skip(text.len() - tail.len()) == tail
}

/// What tilde expansion can make of `input`: nothing, or, where `input` is
/// `~` alone or begins with `~/` or `~\`, a home directory in place of the
/// tilde.
pub open spec fn is_tilde_expansion(input: Seq<char>, output: Seq<char>) -> bool {
    ||| output == input
    ||| {
        &&& input.len() > 0
        &&& input[0] == '~'
        &&& (input.len() == 1 || input[1] == '/' || input[1] == '\\')
        &&& ends_with(output, input.skip(1))
    }
}

/// `path` as the document shows it under `config`.
pub open spec fn sanitized(config: Config, path: Seq<char>) -> Seq<char> {
    if config.include_absolute_paths {
        path
    } else {
        replace_all(
            replace_all(path, config.project_path@, PROJECT_PATH_PLACEHOLDER@),
            config.db_path@,
            DB_PATH_PLACEHOLDER@,
        )
    }
}

/// The value that `source` gives to `key`, if any.
pub fn find_setting<'a>(source: &'a [(String, String)], key: &str) -> (r: Option<&'a String>)
    ensures
        match r {
            Some(value) => setting(source@, key@) == Some(value@),
            None => setting(source@, key@) is None,
        },
{
    let mut at: usize = 0;
    proof {
        assert(source@.skip(0) == source@);
    }
    while at < source.len()
        invariant
            at <= source.len(),
            setting(source@, key@) == setting(source@.skip(at as int), key@),
        decreases source.len() - at,
    {
        proof {
            assert(source@.skip(at as int).skip(1) == source@.skip(at + 1));
        }
        if same_text(source[at].0.as_str(), key) {
            return Some(&source[at].1);
        }
        at = at + 1;
    }
    None
}

/// The text setting `key` of `source`, or `default`.
pub fn resolve_text(source: &[(String, String)], key: &str, default: &str) -> (r: String)
    ensures
        r@ == text_setting(source@, key@, default@),
{
    match find_setting(source, key) {
        Some(value) => value.clone(),
        None => String::from_str(default),
    }
}

/// The flag setting `key` of `source`, or `default`.
pub fn resolve_flag(source: &[(String, String)], key: &str, default: bool) -> (r: bool)
    ensures
        r == flag_setting(source@, key@, default),
{
    match find_setting(source, key) {
        Some(value) => {
            if same_text(value.as_str(), "true") {
                true
            } else if same_text(value.as_str(), "false") {
                false
            } else {
                default
            }
        },
        None => default,
    }
}

/// `part` put behind `base`, with one `/` between them unless `base` is
/// empty or ends in `/` already.
pub fn join_path_text(base: &str, part: &str) -> (r: String)
    ensures
        r@ == join_path(base@, part@),
{
    let n = base.unicode_len();
    let mut out = String::from_str(base);
    if n > 0 && base.get_char(n - 1) != '/' {
        proof {
            reveal_strlit("/");
            assert("/"@ =~= seq!['/']);
        }
        out.append("/");
    }
    out.append(part);
    out
}

/// Calls `shellexpand::tilde`, which leaves its input as it is unless the
/// input is `~` alone or begins with `~/` (on Windows also `~\`) and the
/// user has a home directory that is valid Unicode; it then puts that
/// directory in place of the tilde. The home directory comes from the
/// environment, so the contract says only what holds of every outcome.
#[verifier::external_body]
fn expand_tilde(path: &str) -> (r: String)
    ensures
        is_tilde_expansion(path@, r@),
{
    shellexpand::tilde(path).into_owned()
}

impl Clone for Config {
    fn clone(&self) -> (r: Self)
        ensures
            r == *self,
    {
        Config {
            app_name: self.app_name.clone(),
            output_dir: self.output_dir.clone(),
            output_filename: self.output_filename.clone(),
            db_type: self.db_type.clone(),
            db_path: self.db_path.clone(),
            db_filename: self.db_filename.clone(),
            workspace_id: self.workspace_id.clone(),
            project_name: self.project_name.clone(),
            project_branch: self.project_branch.clone(),
            project_path: self.project_path.clone(),
            composer_data_key: self.composer_data_key.clone(),
            generations_key: self.generations_key.clone(),
            prompts_key: self.prompts_key.clone(),
            include_secrets: self.include_secrets,
            include_absolute_paths: self.include_absolute_paths,
            include_system_info: self.include_system_info,
        }
    }
}

impl Config {
    /// Every field is what `source` gives to its key, or the field's default.
    pub open spec fn resolved_from(&self, source: Seq<(String, String)>) -> bool {
        &&& self.app_name@ == text_setting(source, KEY_APP_NAME@, DEFAULT_APP_NAME@)
        &&& self.output_dir@ == text_setting(source, KEY_OUTPUT_DIR@, DEFAULT_OUTPUT_DIR@)
        &&& self.output_filename@ == text_setting(
            source,
            KEY_OUTPUT_FILENAME@,
            DEFAULT_OUTPUT_FILENAME@,
        )
        &&& self.db_type@ == text_setting(source, KEY_DB_TYPE@, DEFAULT_DB_TYPE@)
        &&& self.db_path@ == text_setting(source, KEY_DB_PATH@, DEFAULT_DB_PATH@)
        &&& self.db_filename@ == text_setting(source, KEY_DB_FILENAME@, DEFAULT_DB_FILENAME@)
        &&& self.workspace_id@ == text_setting(source, KEY_WORKSPACE_ID@, DEFAULT_WORKSPACE_ID@)
        &&& self.project_name@ == text_setting(source, KEY_PROJECT_NAME@, DEFAULT_PROJECT_NAME@)
        &&& self.project_branch@ == text_setting(
            source,
            KEY_PROJECT_BRANCH@,
            DEFAULT_PROJECT_BRANCH@,
        )
        &&& self.project_path@ == text_setting(source, KEY_PROJECT_PATH@, DEFAULT_PROJECT_PATH@)
        &&& self.composer_data_key@ == text_setting(
            source,
            KEY_COMPOSER_DATA_KEY@,
            DEFAULT_COMPOSER_DATA_KEY@,
        )
        &&& self.generations_key@ == text_setting(
            source,
            KEY_GENERATIONS_KEY@,
            DEFAULT_GENERATIONS_KEY@,
        )
        &&& self.prompts_key@ == text_setting(source, KEY_PROMPTS_KEY@, DEFAULT_PROMPTS_KEY@)
        &&& self.include_secrets == flag_setting(
            source,
            KEY_INCLUDE_SECRETS@,
            DEFAULT_INCLUDE_SECRETS,
        )
        &&& self.include_absolute_paths == flag_setting(
            source,
            KEY_INCLUDE_ABSOLUTE_PATHS@,
            DEFAULT_INCLUDE_ABSOLUTE_PATHS,
        )
        &&& self.include_system_info == flag_setting(
            source,
            KEY_INCLUDE_SYSTEM_INFO@,
            DEFAULT_INCLUDE_SYSTEM_INFO,
        )
    }

    /// The settings that `source` describes: a list of key/value pairs in
    /// which the first pair with a key counts. Keys that name no setting are
    /// passed over, a setting without a pair has its default, and so has a
    /// flag whose value is neither `true` nor `false`.
    pub fn load(source: &[(String, String)]) -> (r: Config)
        ensures
            r.resolved_from(source@),
    {
        Config {
            app_name: resolve_text(source, KEY_APP_NAME, DEFAULT_APP_NAME),
            output_dir: resolve_text(source, KEY_OUTPUT_DIR, DEFAULT_OUTPUT_DIR),
            output_filename: resolve_text(source, KEY_OUTPUT_FILENAME, DEFAULT_OUTPUT_FILENAME),
            db_type: resolve_text(source, KEY_DB_TYPE, DEFAULT_DB_TYPE),
            db_path: resolve_text(source, KEY_DB_PATH, DEFAULT_DB_PATH),
            db_filename: resolve_text(source, KEY_DB_FILENAME, DEFAULT_DB_FILENAME),
            workspace_id: resolve_text(source, KEY_WORKSPACE_ID, DEFAULT_WORKSPACE_ID),
            project_name: resolve_text(source, KEY_PROJECT_NAME, DEFAULT_PROJECT_NAME),
            project_branch: resolve_text(source, KEY_PROJECT_BRANCH, DEFAULT_PROJECT_BRANCH),
            project_path: resolve_text(source, KEY_PROJECT_PATH, DEFAULT_PROJECT_PATH),
            composer_data_key: resolve_text(
                source,
                KEY_COMPOSER_DATA_KEY,
                DEFAULT_COMPOSER_DATA_KEY,
            ),
            generations_key: resolve_text(source, KEY_GENERATIONS_KEY, DEFAULT_GENERATIONS_KEY),
            prompts_key: resolve_text(source, KEY_PROMPTS_KEY, DEFAULT_PROMPTS_KEY),
            include_secrets: resolve_flag(source, KEY_INCLUDE_SECRETS, DEFAULT_INCLUDE_SECRETS),
            include_absolute_paths: resolve_flag(
                source,
                KEY_INCLUDE_ABSOLUTE_PATHS,
                DEFAULT_INCLUDE_ABSOLUTE_PATHS,
            ),
            include_system_info: resolve_flag(
                source,
                KEY_INCLUDE_SYSTEM_INFO,
                DEFAULT_INCLUDE_SYSTEM_INFO,
            ),
        }
    }

    /// The directory the document is written to: `chosen` where the caller
    /// has chosen one, else the setting.
    pub fn output_dir_for(&self, chosen: Option<&str>) -> (r: String)
        ensures
            r@ == chosen_or(chosen, self.output_dir@),
    {
        match chosen {
            Some(dir) => String::from_str(dir),
            None => self.output_dir.clone(),
        }
    }

    /// The path the document is written to: the file name below the
    /// directory, each the caller's choice where there is one, else the
    /// setting.
    pub fn output_path_for(&self, chosen_dir: Option<&str>, chosen_file: Option<&str>) -> (r:
        String)
        ensures
            r@ == join_path(
                chosen_or(chosen_dir, self.output_dir@),
                chosen_or(chosen_file, self.output_filename@),
            ),
    {
        let dir = self.output_dir_for(chosen_dir);
        match chosen_file {
            Some(file) => join_path_text(dir.as_str(), file),
            None => join_path_text(dir.as_str(), self.output_filename.as_str()),
        }
    }

    /// The path of the store file below `base`, the base directory after
    /// tilde expansion.
    pub fn database_path_from(&self, base: &str) -> (r: String)
        ensures
            r@ == store_path(base@, self.workspace_id@, self.db_filename@),
    {
        let below = join_path_text(base, self.workspace_id.as_str());
        join_path_text(below.as_str(), self.db_filename.as_str())
    }

    /// The path of the store file: the base directory with its tilde
    /// expanded, the workspace and the file name. Which home directory takes
    /// the place of the tilde is not known here; a base directory that does
    /// not begin with a tilde is taken as it is.
    pub fn database_path(&self) -> (r: String)
        ensures
            exists|base: Seq<char>|
                #[trigger] is_tilde_expansion(self.db_path@, base) && r@ == store_path(
                    base,
                    self.workspace_id@,
                    self.db_filename@,
                ),
            self.db_path@.len() == 0 || self.db_path@[0] != '~' ==> r@ == store_path(
                self.db_path@,
                self.workspace_id@,
                self.db_filename@,
            ),
    {
        let base = self.expanded_db_path();
        self.database_path_from(base.as_str())
    }

    /// The base directory of the store with its tilde expanded.
    pub fn expanded_db_path(&self) -> (r: String)
        ensures
            is_tilde_expansion(self.db_path@, r@),
            self.db_path@.len() == 0 || self.db_path@[0] != '~' ==> r@ == self.db_path@,
    {
        expand_tilde(self.db_path.as_str())
    }

    /// `path` as the document shows it: unchanged where absolute paths are
    /// included; otherwise with every occurrence of the project path
    /// replaced by its placeholder, and then every occurrence of the store's
    /// base path by its own.
    pub fn sanitize_path(&self, path: &str) -> (r: String)
        ensures
            r@ == sanitized(*self, path@),
            self.include_absolute_paths ==> r@ == path@,
    {
        if self.include_absolute_paths {
            String::from_str(path)
        } else {
            let first = replace_text(path, self.project_path.as_str(), PROJECT_PATH_PLACEHOLDER);
            replace_text(first.as_str(), self.db_path.as_str(), DB_PATH_PLACEHOLDER)
        }
    }
}

/// A path that a placeholder can stand for without a trace: the path is not
/// empty, and the two do not overlap.
pub open spec fn hidden_behind(path: Seq<char>, placeholder: Seq<char>) -> bool {
    path.len() > 0 && !overlaps(path, placeholder)
}

/// A setting that the source leaves out has its default.
pub proof fn lemma_omitted_settings_have_defaults(config: Config, source: Seq<(String, String)>)
    requires
        config.resolved_from(source),
    ensures
        setting(source, KEY_APP_NAME@) is None ==> config.app_name@ == DEFAULT_APP_NAME@,
        setting(source, KEY_OUTPUT_DIR@) is None ==> config.output_dir@ == DEFAULT_OUTPUT_DIR@,
        setting(source, KEY_OUTPUT_FILENAME@) is None ==> config.output_filename@
            == DEFAULT_OUTPUT_FILENAME@,
        setting(source, KEY_DB_TYPE@) is None ==> config.db_type@ == DEFAULT_DB_TYPE@,
        setting(source, KEY_DB_PATH@) is None ==> config.db_path@ == DEFAULT_DB_PATH@,
        setting(source, KEY_DB_FILENAME@) is None ==> config.db_filename@ == DEFAULT_DB_FILENAME@,
        setting(source, KEY_WORKSPACE_ID@) is None ==> config.workspace_id@
            == DEFAULT_WORKSPACE_ID@,
        setting(source, KEY_PROJECT_NAME@) is None ==> config.project_name@
            == DEFAULT_PROJECT_NAME@,
        setting(source, KEY_PROJECT_BRANCH@) is None ==> config.project_branch@
            == DEFAULT_PROJECT_BRANCH@,
        setting(source, KEY_PROJECT_PATH@) is None ==> config.project_path@
            == DEFAULT_PROJECT_PATH@,
        setting(source, KEY_COMPOSER_DATA_KEY@) is None ==> config.composer_data_key@
            == DEFAULT_COMPOSER_DATA_KEY@,
        setting(source, KEY_GENERATIONS_KEY@) is None ==> config.generations_key@
            == DEFAULT_GENERATIONS_KEY@,
        setting(source, KEY_PROMPTS_KEY@) is None ==> config.prompts_key@ == DEFAULT_PROMPTS_KEY@,
        setting(source, KEY_INCLUDE_SECRETS@) is None ==> config.include_secrets
            == DEFAULT_INCLUDE_SECRETS,
        setting(source, KEY_INCLUDE_ABSOLUTE_PATHS@) is None ==> config.include_absolute_paths
            == DEFAULT_INCLUDE_ABSOLUTE_PATHS,
        setting(source, KEY_INCLUDE_SYSTEM_INFO@) is None ==> config.include_system_info
            == DEFAULT_INCLUDE_SYSTEM_INFO,
{
}

/// The store path is its three parts with one separator between each two,
/// where the base directory and the workspace are not empty and do not end
/// in a separator.
pub proof fn lemma_store_path_joins_parts(base: Seq<char>, workspace: Seq<char>, file: Seq<char>)
    requires
        base.len() > 0,
        base.last() != '/',
        workspace.len() > 0,
        workspace.last() != '/',
    ensures
        store_path(base, workspace, file) == base + seq!['/'] + workspace + seq!['/'] + file,
{
    let below = base + seq!['/'] + workspace;
    assert(below.last() == workspace.last());
}

/// One separator at the end of the base directory changes nothing: the
/// store path is the same with it and without it.
pub proof fn lemma_store_path_ignores_trailing_separator(
    base: Seq<char>,
    workspace: Seq<char>,
    file: Seq<char>,
)
    requires
        base.len() > 0,
        base.last() != '/',
    ensures
        store_path(base.push('/'), workspace, file) == store_path(base, workspace, file),
{
    assert(base.push('/') + workspace == base + seq!['/'] + workspace);
}

/// Where absolute paths are left out, the sanitized text contains neither
/// the project path nor the store's base path, provided that neither is
/// empty, that neither overlaps its own placeholder, and that the project
/// path does not overlap the placeholder of the store either.
pub proof fn lemma_sanitized_hides_paths(config: Config, path: Seq<char>)
    requires
        !config.include_absolute_paths,
        hidden_behind(config.project_path@, PROJECT_PATH_PLACEHOLDER@),
        hidden_behind(config.project_path@, DB_PATH_PLACEHOLDER@),
        hidden_behind(config.db_path@, DB_PATH_PLACEHOLDER@),
    ensures
        !text_contains(sanitized(config, path), config.project_path@),
        !text_contains(sanitized(config, path), config.db_path@),
{
    reveal_strlit("<PROJECT_PATH>");
    reveal_strlit("<DB_PATH>");
    let project = config.project_path@;
    let store = config.db_path@;
    let first = replace_all(path, project, PROJECT_PATH_PLACEHOLDER@);
    lemma_replace_scan_hides(path, project, PROJECT_PATH_PLACEHOLDER@, project);
    lemma_replace_scan_hides(first, store, DB_PATH_PLACEHOLDER@, project);
    lemma_replace_scan_hides(first, store, DB_PATH_PLACEHOLDER@, store);
}

} // verus!
