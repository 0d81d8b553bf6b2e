//! The program's cache database: where it is, its schema, and the statements of its tables.
use crate::dependency::Requirement;
use crate::sql::{
    insert_into_clause, insert_into_text, replace_into_clause, replace_into_text, select_all_clause,
    select_all_text, select_clause, select_text, update_clause, update_text, SqlField,
};
use crate::text::str_equal;
use crate::version::{HumanVersion, HumanVersionReq};
use vstd::prelude::*;
use vstd::string::StringExecFns;

verus! {

/// The cache database's file unless told otherwise.
pub const DB_PATH: &'static str = "modtorio.db";

/// A field of the cache's own metadata.
#[derive(Clone, Copy, Debug, PartialEq, Eq, Structural)]
pub enum CacheMetaField {
    /// The checksum of the schema the database was made with.
    SchemaChecksum,
}

/// A value of the cache's own metadata.
#[derive(Debug)]
pub struct CacheMetaValue {
    /// The field.
    pub field: CacheMetaField,
    /// The value, if set.
    pub value: Option<String>,
}

impl CacheMetaField {
    /// The field's name as the database holds it.
    pub fn to_string(&self) -> (r: String)
        ensures
            r@ == "SchemaChecksum"@,
    {
        String::from_str("SchemaChecksum")
    }

    /// The field a name stands for, if any.
    pub fn from_name(s: &str) -> (r: Option<CacheMetaField>)
        ensures
            s@ == "SchemaChecksum"@ ==> r == Some(CacheMetaField::SchemaChecksum),
            s@ != "SchemaChecksum"@ ==> r is None,
    {
        if str_equal(s, "SchemaChecksum") {
            Some(CacheMetaField::SchemaChecksum)
        } else {
            None
        }
    }
}

/// Whether the stored schema checksum is the wanted one: there is a stored value and it is equal.
pub open spec fn checksum_matches(stored: Option<Option<Seq<char>>>, wanted: Seq<char>) -> bool {
    stored == Some(Some(wanted))
}

/// The stored value of a metadata field, as text.
pub open spec fn meta_text(m: Option<CacheMetaValue>) -> Option<Option<Seq<char>>> {
    match m {
        Some(v) => Some(
            match v.value {
                Some(t) => Some(t@),
                None => None,
            },
        ),
        None => None,
    }
}

/// Whether the stored schema checksum is the wanted one.
pub fn checksum_matches_meta(stored: &Option<CacheMetaValue>, wanted_checksum: &str) -> (r: bool)
    ensures
        r == checksum_matches(meta_text(*stored), wanted_checksum@),
{
    match stored {
        Some(meta) => match &meta.value {
            Some(existing) => str_equal(wanted_checksum, existing.as_str()),
            None => false,
        },
        None => false,
    }
}

/// Whether the schema is applied to the database: when the database is new, or its stored
/// schema checksum is not the wanted one.
pub fn schema_needs_applying(
    db_exists: bool,
    stored: &Option<CacheMetaValue>,
    wanted_checksum: &str,
) -> (r: bool)
    ensures
        r == (!db_exists || !checksum_matches(meta_text(*stored), wanted_checksum@)),
{
    !db_exists || !checksum_matches_meta(stored, wanted_checksum)
}

/// A builder of the cache database.
#[derive(Debug)]
pub struct CacheBuilder {
    db_path: String,
    schema: String,
}

/// The meaning of a [`CacheBuilder`].
pub struct CacheBuilderView {
    pub db_path: Seq<char>,
    pub schema: Seq<char>,
}

impl View for CacheBuilder {
    type V = CacheBuilderView;

    closed spec fn view(&self) -> CacheBuilderView {
        CacheBuilderView { db_path: self.db_path@, schema: self.schema@ }
    }
}

/// The statement that applies a schema in one transaction.
pub open spec fn schema_statement_text(schema: Seq<char>) -> Seq<char> {
    "BEGIN TRANSACTION; "@ + schema + " COMMIT;"@
}

impl CacheBuilder {
    /// A builder of the database at the usual file with a schema.
    pub fn new(schema: &str) -> (r: Self)
        ensures
            r@ == (CacheBuilderView { db_path: DB_PATH@, schema: schema@ }),
    {
        CacheBuilder { db_path: String::from_str(DB_PATH), schema: String::from_str(schema) }
    }

    /// This builder with another database file.
    pub fn with_db_path(self, path: &str) -> (r: Self)
        ensures
            r@ == (CacheBuilderView { db_path: path@, ..self@ }),
    {
        CacheBuilder { db_path: String::from_str(path), ..self }
    }

    /// This builder with another schema.
    pub fn with_schema(self, schema: String) -> (r: Self)
        ensures
            r@ == (CacheBuilderView { schema: schema@, ..self@ }),
    {
        CacheBuilder { schema, ..self }
    }

    /// The database file.
    pub fn db_path(&self) -> (r: &String)
        ensures
            r@ == self@.db_path,
    {
        &self.db_path
    }

    /// The statement that applies the schema in one transaction.
    pub fn schema_statement(&self) -> (r: String)
        ensures
            r@ == schema_statement_text(self@.schema),
    {
        let mut out = String::from_str("BEGIN TRANSACTION; ");
        out.append(self.schema.as_str());
        out.append(" COMMIT;");
        out
    }
}

/// A cached game.
#[derive(Debug)]
pub struct Game {
    /// The game's cache ID.
    pub id: i32,
    /// The game's root directory.
    pub path: String,
}

/// A cached game's mod.
#[derive(Debug)]
pub struct GameMod {
    /// The game's cache ID.
    pub game: i32,
    /// The mod's name.
    pub factorio_mod: String,
    /// The mod's version.
    pub mod_version: HumanVersion,
    /// The mod's zip archive.
    pub mod_zip: String,
    /// The checksum of the mod's zip archive.
    pub zip_checksum: String,
}

/// A cached dependency of a mod release.
#[derive(Debug)]
pub struct ReleaseDependency {
    /// The name of the mod whose release it is.
    pub release_mod_name: String,
    /// The version of the release.
    pub release_version: HumanVersion,
    /// The name of the mod depended on.
    pub name: String,
    /// How the release depends on it.
    pub requirement: Requirement,
    /// The versions that meet the dependency, when restricted.
    pub version_req: Option<HumanVersionReq>,
}

/// A table of the cache: its name and its fields.
#[derive(Debug)]
pub struct ModelSchema {
    /// The table's name.
    pub table: String,
    /// The table's fields, in order.
    pub fields: Vec<SqlField>,
}

/// A field of a table.
fn field(name: &str, is_index: bool, ignore_in_all_params: bool) -> (r: SqlField)
    ensures
        r.name@ == name@,
        r.is_index == is_index,
        r.ignore_in_all_params == ignore_in_all_params,
{
    SqlField { name: String::from_str(name), is_index, ignore_in_all_params }
}

impl ModelSchema {
    /// The statement that reads a row by the index fields.
    pub fn select(&self) -> (r: String)
        ensures
            r@ == select_text(self.table@, self.fields@),
    {
        select_clause(self.table.as_str(), &self.fields)
    }

    /// The statement that reads every row.
    pub fn select_all(&self) -> (r: String)
        ensures
            r@ == select_all_text(self.table@),
    {
        select_all_clause(self.table.as_str())
    }

    /// The statement that writes a row, replacing one of the same index.
    pub fn replace_into(&self) -> (r: String)
        ensures
            r@ == replace_into_text(self.table@, self.fields@),
    {
        replace_into_clause(self.table.as_str(), &self.fields)
    }

    /// The statement that adds a row.
    pub fn insert_into(&self) -> (r: String)
        ensures
            r@ == insert_into_text(self.table@, self.fields@),
    {
        insert_into_clause(self.table.as_str(), &self.fields)
    }

    /// The statement that changes a row found by the index.
    pub fn update(&self) -> (r: String)
        ensures
            r@ == update_text(self.table@, self.fields@),
    {
        update_clause(self.table.as_str(), &self.fields)
    }
}

impl Game {
    /// The `game` table: its `id` is the index, which the database assigns.
    pub fn schema() -> (r: ModelSchema)
        ensures
            r.table@ == "game"@,
            r.fields@.len() == 2,
            r.fields@[0].name@ == "id"@ && r.fields@[0].is_index && r.fields@[0].ignore_in_all_params,
            r.fields@[1].name@ == "path"@ && !r.fields@[1].is_index
                && !r.fields@[1].ignore_in_all_params,
    {
        let mut fields: Vec<SqlField> = Vec::new();
        fields.push(field("id", true, true));
        fields.push(field("path", false, false));
        ModelSchema { table: String::from_str("game"), fields }
    }
}

impl GameMod {
    /// The `game_mod` table: its `game` is the index.
    pub fn schema() -> (r: ModelSchema)
        ensures
            r.table@ == "game_mod"@,
            r.fields@.len() == 5,
            r.fields@[0].name@ == "game"@ && r.fields@[0].is_index,
            r.fields@[1].name@ == "factorio_mod"@ && !r.fields@[1].is_index,
            r.fields@[2].name@ == "mod_version"@ && !r.fields@[2].is_index,
            r.fields@[3].name@ == "mod_zip"@ && !r.fields@[3].is_index,
            r.fields@[4].name@ == "zip_checksum"@ && !r.fields@[4].is_index,
            forall|i: int| 0 <= i < 5 ==> !(#[trigger] r.fields@[i]).ignore_in_all_params,
    {
        let mut fields: Vec<SqlField> = Vec::new();
        fields.push(field("game", true, false));
        fields.push(field("factorio_mod", false, false));
        fields.push(field("mod_version", false, false));
        fields.push(field("mod_zip", false, false));
        fields.push(field("zip_checksum", false, false));
        ModelSchema { table: String::from_str("game_mod"), fields }
    }
}

impl ReleaseDependency {
    /// The `release_dependency` table: the release's mod name and version are the index.
    pub fn schema() -> (r: ModelSchema)
        ensures
            r.table@ == "release_dependency"@,
            r.fields@.len() == 5,
            r.fields@[0].name@ == "release_mod_name"@ && r.fields@[0].is_index,
            r.fields@[1].name@ == "release_version"@ && r.fields@[1].is_index,
            r.fields@[2].name@ == "name"@ && !r.fields@[2].is_index,
            r.fields@[3].name@ == "requirement"@ && !r.fields@[3].is_index,
            r.fields@[4].name@ == "version_req"@ && !r.fields@[4].is_index,
            forall|i: int| 0 <= i < 5 ==> !(#[trigger] r.fields@[i]).ignore_in_all_params,
    {
        let mut fields: Vec<SqlField> = Vec::new();
        fields.push(field("release_mod_name", true, false));
        fields.push(field("release_version", true, false));
        fields.push(field("name", false, false));
        fields.push(field("requirement", false, false));
        fields.push(field("version_req", false, false));
        ModelSchema { table: String::from_str("release_dependency"), fields }
    }
}

impl CacheMetaValue {
    /// The `_meta` table: its `field` is the index.
    pub fn schema() -> (r: ModelSchema)
        ensures
            r.table@ == "_meta"@,
            r.fields@.len() == 2,
            r.fields@[0].name@ == "field"@ && r.fields@[0].is_index
                && !r.fields@[0].ignore_in_all_params,
            r.fields@[1].name@ == "value"@ && !r.fields@[1].is_index
                && !r.fields@[1].ignore_in_all_params,
    {
        let mut fields: Vec<SqlField> = Vec::new();
        fields.push(field("field", true, false));
        fields.push(field("value", false, false));
        ModelSchema { table: String::from_str("_meta"), fields }
    }
}

} // verus!
