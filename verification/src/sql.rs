//! The SQL statements that read and write a model's table, built from its fields.
use crate::text::{join, join_strings, texts};
use vstd::prelude::*;
use vstd::string::StringExecFns;

verus! {

/// A field of a model, as its table's column.
#[derive(Debug)]
pub struct SqlField {
    /// The field's name, which is its column's name.
    pub name: String,
    /// Whether the field is part of the table's index.
    pub is_index: bool,
    /// Whether the field is left out of the parameters of all fields.
    pub ignore_in_all_params: bool,
}

/// The named parameter of a column: `:column`.
pub open spec fn parameter_of(ident: Seq<char>) -> Seq<char> {
    seq![':'] + ident
}

/// The condition that a column equals its parameter: `column = :column`.
pub open spec fn equals_of(ident: Seq<char>) -> Seq<char> {
    ident + " = "@ + parameter_of(ident)
}

/// The named parameter of a column: `:column`.
pub fn sql_parameter(ident: &str) -> (r: String)
    ensures
        r@ == parameter_of(ident@),
{
    let mut out = String::from_str(":");
    out.append(ident);
    proof {
        reveal_strlit(":");
    }
    out
}

/// The condition that a column equals its parameter: `column = :column`.
pub fn sql_equals(ident: &str) -> (r: String)
    ensures
        r@ == equals_of(ident@),
{
    let mut out = String::from_str(ident);
    out.append(" = ");
    let p = sql_parameter(ident);
    out.append(p.as_str());
    out
}

/// What text is made of a field's name.
#[derive(Clone, Copy, Debug, PartialEq, Eq, Structural)]
pub enum FieldText {
    /// The name itself.
    Name,
    /// The name's parameter: `:name`.
    Parameter,
    /// The condition that the column equals its parameter: `name = :name`.
    Condition,
}

/// The text made of a field's name.
pub open spec fn field_text(form: FieldText, n: Seq<char>) -> Seq<char> {
    match form {
        FieldText::Name => n,
        FieldText::Parameter => parameter_of(n),
        FieldText::Condition => equals_of(n),
    }
}

/// The fields' names that pass a filter, in order.
pub open spec fn names_where(fields: Seq<SqlField>, index: Option<bool>) -> Seq<Seq<char>>
    decreases fields.len(),
{
    if fields.len() == 0 {
        Seq::empty()
    } else {
        let rest = names_where(fields.drop_last(), index);
        let f = fields.last();
        match index {
            Some(b) => if f.is_index == b {
                rest.push(f.name@)
            } else {
                rest
            },
            None => rest.push(f.name@),
        }
    }
}

/// The names of the fields: every one (`None`), or those that are (`Some(true)`) or are not
/// (`Some(false)`) part of the index, with each name made into a text by `form`.
fn field_texts(fields: &Vec<SqlField>, index: Option<bool>, form: FieldText) -> (r: Vec<String>)
    ensures
        texts(r@) == names_where(fields@, index).map_values(
            |n: Seq<char>| field_text(form, n),
        ),
{
    let ghost g = |n: Seq<char>| field_text(form, n);
    let mut out: Vec<String> = Vec::new();
    let mut j: usize = 0;
    assert(texts(out@) =~= names_where(fields@.take(0), index).map_values(g));
    while j < fields.len()
        invariant
            j <= fields.len(),
            g == (|n: Seq<char>| field_text(form, n)),
            texts(out@) == names_where(fields@.take(j as int), index).map_values(g),
        decreases fields.len() - j,
    {
        let f = &fields[j];
        let keep = match index {
            Some(b) => f.is_index == b,
            None => true,
        };
        let ghost before = out@;
        assert(fields@.take(j + 1).drop_last() =~= fields@.take(j as int));
        assert(fields@.take(j + 1).last() == fields@[j as int]);
        if keep {
            let t = match form {
                FieldText::Name => f.name.clone(),
                FieldText::Parameter => sql_parameter(f.name.as_str()),
                FieldText::Condition => sql_equals(f.name.as_str()),
            };
            out.push(t);
            assert(texts(out@) =~= texts(before).push(t@));
            assert(names_where(fields@.take(j + 1), index) =~= names_where(
                fields@.take(j as int),
                index,
            ).push(f.name@));
            assert(names_where(fields@.take(j + 1), index).map_values(g) =~= names_where(
                fields@.take(j as int),
                index,
            ).map_values(g).push(g(f.name@)));
        } else {
            assert(names_where(fields@.take(j + 1), index) =~= names_where(
                fields@.take(j as int),
                index,
            ));
        }
        j = j + 1;
    }
    assert(fields@.take(fields.len() as int) =~= fields@);
    out
}

/// `SELECT * FROM table WHERE` and the index fields' conditions joined by ` AND `.
pub open spec fn select_text(table: Seq<char>, fields: Seq<SqlField>) -> Seq<char> {
    "SELECT * FROM "@ + table + " WHERE "@ + join(
        names_where(fields, Some(true)).map_values(|n: Seq<char>| field_text(FieldText::Condition, n)),
        " AND "@,
    )
}

/// `SELECT * FROM table`.
pub open spec fn select_all_text(table: Seq<char>) -> Seq<char> {
    "SELECT * FROM "@ + table
}

/// `REPLACE INTO table (fields) VALUES (parameters)`, over every field.
pub open spec fn replace_into_text(table: Seq<char>, fields: Seq<SqlField>) -> Seq<char> {
    "REPLACE INTO "@ + table + " ("@ + join(names_where(fields, None), ", "@) + ") VALUES ("@ + join(
        names_where(fields, None).map_values(|n: Seq<char>| field_text(FieldText::Parameter, n)),
        ", "@,
    ) + ")"@
}

/// `INSERT INTO table (fields) VALUES (parameters)`, over the fields outside the index.
pub open spec fn insert_into_text(table: Seq<char>, fields: Seq<SqlField>) -> Seq<char> {
    "INSERT INTO "@ + table + " ("@ + join(names_where(fields, Some(false)), ", "@) + ") VALUES ("@
        + join(names_where(fields, Some(false)).map_values(|n: Seq<char>| field_text(FieldText::Parameter, n)), ", "@)
        + ")"@
}

/// `UPDATE table SET updates WHERE conditions`: the fields outside the index are set and those in
/// it are the conditions, each list joined by `, `.
pub open spec fn update_text(table: Seq<char>, fields: Seq<SqlField>) -> Seq<char> {
    "UPDATE "@ + table + " SET "@ + join(
        names_where(fields, Some(false)).map_values(|n: Seq<char>| field_text(FieldText::Condition, n)),
        ", "@,
    ) + " WHERE "@ + join(
        names_where(fields, Some(true)).map_values(|n: Seq<char>| field_text(FieldText::Condition, n)),
        ", "@,
    )
}

/// The statement that reads a row by the index fields.
pub fn select_clause(table_name: &str, fields: &Vec<SqlField>) -> (r: String)
    ensures
        r@ == select_text(table_name@, fields@),
{
    let conditions = field_texts(fields, Some(true), FieldText::Condition);
    let mut out = String::from_str("SELECT * FROM ");
    out.append(table_name);
    out.append(" WHERE ");
    let joined = join_strings(&conditions, " AND ");
    out.append(joined.as_str());
    out
}

/// The statement that reads every row.
pub fn select_all_clause(table_name: &str) -> (r: String)
    ensures
        r@ == select_all_text(table_name@),
{
    let mut out = String::from_str("SELECT * FROM ");
    out.append(table_name);
    out
}

/// The statement that writes a row, replacing one of the same index.
pub fn replace_into_clause(table_name: &str, fields: &Vec<SqlField>) -> (r: String)
    ensures
        r@ == replace_into_text(table_name@, fields@),
{
    let names = field_texts(fields, None, FieldText::Name);
    assert(names_where(fields@, None).map_values(|n: Seq<char>| field_text(FieldText::Name, n))
        =~= names_where(fields@, None));
    let values = field_texts(fields, None, FieldText::Parameter);
    let mut out = String::from_str("REPLACE INTO ");
    out.append(table_name);
    out.append(" (");
    let n = join_strings(&names, ", ");
    out.append(n.as_str());
    out.append(") VALUES (");
    let v = join_strings(&values, ", ");
    out.append(v.as_str());
    out.append(")");
    out
}

/// The statement that adds a row, leaving the index to the database.
pub fn insert_into_clause(table_name: &str, fields: &Vec<SqlField>) -> (r: String)
    ensures
        r@ == insert_into_text(table_name@, fields@),
{
    let names = field_texts(fields, Some(false), FieldText::Name);
    assert(names_where(fields@, Some(false)).map_values(
        |n: Seq<char>| field_text(FieldText::Name, n),
    ) =~= names_where(fields@, Some(false)));
    let values = field_texts(fields, Some(false), FieldText::Parameter);
    let mut out = String::from_str("INSERT INTO ");
    out.append(table_name);
    out.append(" (");
    let n = join_strings(&names, ", ");
    out.append(n.as_str());
    out.append(") VALUES (");
    let v = join_strings(&values, ", ");
    out.append(v.as_str());
    out.append(")");
    out
}

/// The statement that changes a row's fields outside the index, found by the index.
pub fn update_clause(table_name: &str, fields: &Vec<SqlField>) -> (r: String)
    ensures
        r@ == update_text(table_name@, fields@),
{
    let updates = field_texts(fields, Some(false), FieldText::Condition);
    let conditions = field_texts(fields, Some(true), FieldText::Condition);
    let mut out = String::from_str("UPDATE ");
    out.append(table_name);
    out.append(" SET ");
    let u = join_strings(&updates, ", ");
    out.append(u.as_str());
    out.append(" WHERE ");
    let c = join_strings(&conditions, ", ");
    out.append(c.as_str());
    out
}

/// The parameters of the index fields, in order: those a row is read by.
pub fn select_params(fields: &Vec<SqlField>) -> (r: Vec<String>)
    ensures
        texts(r@) == names_where(fields@, Some(true)).map_values(
            |n: Seq<char>| field_text(FieldText::Parameter, n),
        ),
{
    field_texts(fields, Some(true), FieldText::Parameter)
}

/// The names of the fields that are not left out of the parameters of all fields, in order.
pub open spec fn unignored_names(fields: Seq<SqlField>) -> Seq<Seq<char>>
    decreases fields.len(),
{
    if fields.len() == 0 {
        Seq::empty()
    } else {
        let rest = unignored_names(fields.drop_last());
        if fields.last().ignore_in_all_params {
            rest
        } else {
            rest.push(fields.last().name@)
        }
    }
}

/// The parameters of all the fields but those left out, in order: those a row is written with.
pub fn all_params(fields: &Vec<SqlField>) -> (r: Vec<String>)
    ensures
        texts(r@) == unignored_names(fields@).map_values(|n: Seq<char>| parameter_of(n)),
{
    let ghost g = |n: Seq<char>| parameter_of(n);
    let mut out: Vec<String> = Vec::new();
    let mut j: usize = 0;
    assert(texts(out@) =~= unignored_names(fields@.take(0)).map_values(g));
    while j < fields.len()
        invariant
            j <= fields.len(),
            g == (|n: Seq<char>| parameter_of(n)),
            texts(out@) == unignored_names(fields@.take(j as int)).map_values(g),
        decreases fields.len() - j,
    {
        let ghost before = out@;
        assert(fields@.take(j + 1).drop_last() =~= fields@.take(j as int));
        assert(fields@.take(j + 1).last() == fields@[j as int]);
        if !fields[j].ignore_in_all_params {
            let t = sql_parameter(fields[j].name.as_str());
            out.push(t);
            assert(texts(out@) =~= texts(before).push(t@));
            assert(unignored_names(fields@.take(j + 1)).map_values(g) =~= unignored_names(
                fields@.take(j as int),
            ).map_values(g).push(g(fields@[j as int].name@)));
        }
        j = j + 1;
    }
    assert(fields@.take(fields.len() as int) =~= fields@);
    out
}

} // verus!
