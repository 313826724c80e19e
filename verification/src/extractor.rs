//! Reading the store: the address of the store, the queries that are put to
//! it, and what their answers hold. The queries themselves are run by the
//! caller, who hands the answers back.

use crate::config::{is_tilde_expansion, sanitized, store_path, Config};
use crate::decode::{
    bundle_from_json, bundle_of, generation_list_of, generations_from_json, prompt_list_of,
    prompts_from_json, ExtractError,
};
use crate::json::{json_document, parse_json, JsonValue};
use crate::{ChatGeneration, ChatPrompt, ChatSession, ComposerData};
use vstd::prelude::*;
use vstd::string::*;

verus! {

/// What stands before the path in the address of a store.
pub const URL_SCHEME: &'static str = "sqlite:";

/// The query for the value under a key, as far as the key.
pub const VALUE_QUERY_HEAD: &'static str = "SELECT value FROM ItemTable WHERE key = '";

/// The query for the value under a key, behind the key.
pub const VALUE_QUERY_TAIL: &'static str = "'";

/// The query for the names of the tables of a store.
pub const TABLES_QUERY: &'static str = "SELECT name FROM sqlite_master WHERE type='table'";

/// The query for the number of entries of a store.
pub const ITEM_COUNT_QUERY: &'static str = "SELECT COUNT(*) FROM ItemTable";

/// What a store holds, for diagnosis.
#[derive(Debug)]
pub struct DatabaseInfo {
    /// The names of the tables.
    pub tables: Vec<String>,
    /// The number of entries.
    pub item_count: i64,
    /// The path of the store file as the document would show it.
    pub database_path: String,
}

/// Reads the records of one store.
pub struct ChatExtractor {
    config: Config,
}

/// The address of the store file at `path`.
pub open spec fn store_url(path: Seq<char>) -> Seq<char> {
    URL_SCHEME@ + path
}

/// The query for the value under `key`: the key stands in it as it is.
pub open spec fn value_query(key: Seq<char>) -> Seq<char> {
    VALUE_QUERY_HEAD@ + key + VALUE_QUERY_TAIL@
}

/// The text of a store entry as a sequence of characters.
pub open spec fn row_text(row: Option<&str>) -> Option<Seq<char>> {
    match row {
        Some(text) => Some(text@),
        None => None,
    }
}

/// The JSON document of a store entry: `KeyNotFound` where there is no
/// entry, `DecodeError` where its text is no JSON document.
pub open spec fn row_document(row: Option<Seq<char>>) -> Result<JsonValue, ExtractError> {
    match row {
        None => Err(ExtractError::KeyNotFound),
        Some(text) => match json_document(text) {
            Some(document) => Ok(document),
            None => Err(ExtractError::DecodeError),
        },
    }
}

/// The sessions of the bundle in a store entry.
pub open spec fn row_sessions(row: Option<Seq<char>>) -> Result<Seq<ChatSession>, ExtractError> {
    match row_document(row) {
        Ok(document) => match bundle_of(document) {
            Some(sessions) => Ok(sessions),
            None => Err(ExtractError::DecodeError),
        },
        Err(error) => Err(error),
    }
}

/// The generations in a store entry.
pub open spec fn row_generations(row: Option<Seq<char>>) -> Result<
    Seq<ChatGeneration>,
    ExtractError,
> {
    match row_document(row) {
        Ok(document) => match generation_list_of(document) {
            Some(generations) => Ok(generations),
            None => Err(ExtractError::DecodeError),
        },
        Err(error) => Err(error),
    }
}

/// The prompts in a store entry.
pub open spec fn row_prompts(row: Option<Seq<char>>) -> Result<Seq<ChatPrompt>, ExtractError> {
    match row_document(row) {
        Ok(document) => match prompt_list_of(document) {
            Some(prompts) => Ok(prompts),
            None => Err(ExtractError::DecodeError),
        },
        Err(error) => Err(error),
    }
}

/// The address of the store file at `path`.
pub fn store_url_text(path: &str) -> (r: String)
    ensures
        r@ == store_url(path@),
{
    let mut out = String::from_str(URL_SCHEME);
    out.append(path);
    out
}

/// The query for the value under `key`.
pub fn value_query_text(key: &str) -> (r: String)
    ensures
        r@ == value_query(key@),
{
    let mut out = String::from_str(VALUE_QUERY_HEAD);
    out.append(key);
    out.append(VALUE_QUERY_TAIL);
    out
}

impl ExtractError {
    /// What the error says to the user.
    pub fn message(&self) -> (r: String)
        ensures
            r@ == match *self {
                ExtractError::KeyNotFound => "the store has no entry under the key"@,
                ExtractError::DecodeError => "the entry does not hold the records as JSON"@,
            },
    {
        match self {
            ExtractError::KeyNotFound => String::from_str("the store has no entry under the key"),
            ExtractError::DecodeError => String::from_str(
                "the entry does not hold the records as JSON",
            ),
        }
    }
}

impl ChatExtractor {
    /// The settings by which the extractor reads.
    pub closed spec fn config(&self) -> Config {
        self.config
    }

    /// An extractor that reads by `config`.
    pub fn new(config: &Config) -> (r: Self)
        ensures
            r.config() == *config,
    {
        ChatExtractor { config: config.clone() }
    }

    /// The address of the store. Which home directory takes the place of a
    /// tilde in the base directory is not known before the call.
    pub fn database_url(&self) -> (r: String)
        ensures
            exists|base: Seq<char>|
                #[trigger] is_tilde_expansion(self.config().db_path@, base) && r@ == store_url(
                    store_path(base, self.config().workspace_id@, self.config().db_filename@),
                ),
            self.config().db_path@.len() == 0 || self.config().db_path@[0] != '~' ==> r@
                == store_url(
                store_path(
                    self.config().db_path@,
                    self.config().workspace_id@,
                    self.config().db_filename@,
                ),
            ),
    {
        let base = self.config.expanded_db_path();
        let path = self.config.database_path_from(base.as_str());
        store_url_text(path.as_str())
    }

    /// The query for the entry that holds the bundle of sessions.
    pub fn sessions_query(&self) -> (r: String)
        ensures
            r@ == value_query(self.config().composer_data_key@),
    {
        value_query_text(self.config.composer_data_key.as_str())
    }

    /// The query for the entry that holds the generations.
    pub fn generations_query(&self) -> (r: String)
        ensures
            r@ == value_query(self.config().generations_key@),
    {
        value_query_text(self.config.generations_key.as_str())
    }

    /// The query for the entry that holds the prompts.
    pub fn prompts_query(&self) -> (r: String)
        ensures
            r@ == value_query(self.config().prompts_key@),
    {
        value_query_text(self.config.prompts_key.as_str())
    }

    /// The bundles of sessions in the answer to `sessions_query`: one
    /// bundle, that of the entry. `row` is the value of the entry, `None`
    /// where the store has none under the key.
    pub fn extract_sessions(&self, row: Option<&str>) -> (r: Result<
        Vec<ComposerData>,
        ExtractError,
    >)
        ensures
            match row_sessions(row_text(row)) {
                Ok(sessions) => r matches Ok(bundles) && bundles@.len() == 1
                    && bundles@[0].all_composers@ == sessions,
                Err(error) => r == Err::<Vec<ComposerData>, ExtractError>(error),
            },
            row is None ==> r == Err::<Vec<ComposerData>, ExtractError>(ExtractError::KeyNotFound),
            row matches Some(text) && json_document(text@) is None ==> r == Err::<
                Vec<ComposerData>,
                ExtractError,
            >(ExtractError::DecodeError),
    {
        match row {
            None => Err(ExtractError::KeyNotFound),
            Some(text) => match parse_json(text) {
                None => Err(ExtractError::DecodeError),
                Some(document) => match bundle_from_json(&document) {
                    Ok(bundle) => {
                        let mut bundles: Vec<ComposerData> = Vec::new();
                        bundles.push(bundle);
                        Ok(bundles)
                    },
                    Err(error) => Err(error),
                },
            },
        }
    }

    /// The generations in the answer to `generations_query`. `row` is the
    /// value of the entry, `None` where the store has none under the key.
    pub fn extract_generations(&self, row: Option<&str>) -> (r: Result<
        Vec<ChatGeneration>,
        ExtractError,
    >)
        ensures
            match row_generations(row_text(row)) {
                Ok(generations) => r matches Ok(found) && found@ == generations,
                Err(error) => r == Err::<Vec<ChatGeneration>, ExtractError>(error),
            },
            row is None ==> r == Err::<Vec<ChatGeneration>, ExtractError>(ExtractError::KeyNotFound),
            row matches Some(text) && json_document(text@) is None ==> r == Err::<
                Vec<ChatGeneration>,
                ExtractError,
            >(ExtractError::DecodeError),
    {
        match row {
            None => Err(ExtractError::KeyNotFound),
            Some(text) => match parse_json(text) {
                None => Err(ExtractError::DecodeError),
                Some(document) => generations_from_json(&document),
            },
        }
    }

    /// The prompts in the answer to `prompts_query`. `row` is the value of
    /// the entry, `None` where the store has none under the key.
    pub fn extract_prompts(&self, row: Option<&str>) -> (r: Result<Vec<ChatPrompt>, ExtractError>)
        ensures
            match row_prompts(row_text(row)) {
                Ok(prompts) => r matches Ok(found) && found@ == prompts,
                Err(error) => r == Err::<Vec<ChatPrompt>, ExtractError>(error),
            },
            row is None ==> r == Err::<Vec<ChatPrompt>, ExtractError>(ExtractError::KeyNotFound),
            row matches Some(text) && json_document(text@) is None ==> r == Err::<
                Vec<ChatPrompt>,
                ExtractError,
            >(ExtractError::DecodeError),
    {
        match row {
            None => Err(ExtractError::KeyNotFound),
            Some(text) => match parse_json(text) {
                None => Err(ExtractError::DecodeError),
                Some(document) => prompts_from_json(&document),
            },
        }
    }

    /// What the store holds, from the answers to `TABLES_QUERY` and
    /// `ITEM_COUNT_QUERY`; `base` is the base directory of the store after
    /// tilde expansion.
    pub fn database_info_from(&self, tables: Vec<String>, item_count: i64, base: &str) -> (r:
        DatabaseInfo)
        ensures
            r.tables == tables,
            r.item_count == item_count,
            r.database_path@ == sanitized(
                self.config(),
                store_path(base@, self.config().workspace_id@, self.config().db_filename@),
            ),
    {
        let path = self.config.database_path_from(base);
        let database_path = self.config.sanitize_path(path.as_str());
        DatabaseInfo { tables, item_count, database_path }
    }

    /// What the store holds, from the answers to `TABLES_QUERY` and
    /// `ITEM_COUNT_QUERY`. Which home directory takes the place of a tilde
    /// in the base directory is not known before the call.
    pub fn get_database_info(&self, tables: Vec<String>, item_count: i64) -> (r: DatabaseInfo)
        ensures
            r.tables == tables,
            r.item_count == item_count,
            exists|base: Seq<char>|
                #[trigger] is_tilde_expansion(self.config().db_path@, base) && r.database_path@
                    == sanitized(
                    self.config(),
                    store_path(base, self.config().workspace_id@, self.config().db_filename@),
                ),
    {
        let base = self.config.expanded_db_path();
        self.database_info_from(tables, item_count, base.as_str())
    }
}

} // verus!
