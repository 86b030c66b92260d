//! The storage-backend query layer: statement rendering with numbered
//! placeholders, the table-creation builder, and single-row shaping.

use gdcf::backend::{single_row, Database, Error, Row, RowCountError};
use gdcf::query::{
    Column, ConstraintKind, Create, DefaultConstraint, ForeignKeyConstraint, NotNullConstraint,
    PrimaryKeyConstraint, Query, QueryPart, SqlType, UniqueConstraint,
};
use gdcf::statement::{PreparedStatement, StatementPart};

#[derive(Debug)]
struct TestBackend;

impl Database for TestBackend {
    type Error = String;

    fn placeholder_prefix() -> String {
        "$".to_string()
    }

    fn execute_raw(&self, _statement: String, _params: &Vec<String>) -> Result<(), Error<Self>> {
        Ok(())
    }

    fn query_raw(
        &self,
        _statement: String,
        _params: &Vec<String>,
    ) -> Result<Vec<Row>, Error<Self>> {
        Ok(vec![])
    }
}

#[test]
fn statement_rendering_numbers_placeholders() {
    let stmt = PreparedStatement::new(vec![
        StatementPart::Fixed("INSERT INTO songs VALUES".to_string()),
        StatementPart::Placeholder,
        StatementPart::Placeholder,
        StatementPart::Fixed("ON CONFLICT IGNORE".to_string()),
        StatementPart::Placeholder,
    ]);
    assert_eq!(
        stmt.to_statement("$"),
        "INSERT INTO songs VALUES $1 $2 ON CONFLICT IGNORE $3",
    );
    assert_eq!(stmt.to_statement("?"), "INSERT INTO songs VALUES ?1 ?2 ON CONFLICT IGNORE ?3");
}

#[test]
fn statement_editing() {
    let mut stmt = PreparedStatement::new(vec![StatementPart::Placeholder]);
    stmt.prepend(StatementPart::Fixed("WHERE id =".to_string()));
    stmt.append(StatementPart::Fixed("LIMIT 1".to_string()));
    let mut select = PreparedStatement::new(vec![
        StatementPart::Fixed("SELECT * FROM levels".to_string()),
    ]);
    select.concat(stmt);
    assert_eq!(select.to_statement("$"), "SELECT * FROM levels WHERE id = $1 LIMIT 1");

    let mut left = PreparedStatement::new(vec![StatementPart::Fixed("a".to_string())]);
    let right = PreparedStatement::new(vec![StatementPart::Fixed("c".to_string())]);
    left.concat_on(right, StatementPart::Fixed("b".to_string()));
    assert_eq!(left.to_statement("$"), "a b c");
}

#[test]
fn create_table_rendering() {
    let create = Create::new("levels".to_string())
        .ignore_if_exists()
        .with_column(Column::new("level_id".to_string(), SqlType::BigInteger).primary())
        .with_column(Column::new("name".to_string(), SqlType::Text).not_null())
        .with_column(
            Column::new("song".to_string(), SqlType::BigInteger).foreign_key(
                "songs".to_string(),
                "song_id".to_string(),
            ),
        )
        .with_column(Column::new("epic".to_string(), SqlType::Boolean).default(
            "FALSE".to_string(),
        ));
    let sql = <Create as QueryPart<TestBackend>>::to_sql_unprepared(&create);
    assert_eq!(
        sql,
        "CREATE TABLE IF NOT EXISTS levels (level_id BIGINT PRIMARY KEY, name TEXT NOT NULL, \
         song BIGINT REFERENCES songs(song_id), epic BOOLEAN DEFAULT FALSE)",
    );
}

#[test]
fn create_builder_accumulates_columns() {
    let create = Create::new("t".to_string());
    assert!(!create.ignore_if_exists);
    assert_eq!(create.columns.len(), 0);
    let create = create.with_column(Column::new("a".to_string(), SqlType::Integer).unique());
    assert_eq!(create.columns.len(), 1);
    assert_eq!(create.columns[0].constraints, vec![ConstraintKind::Unique]);
}

#[test]
fn column_constraints_accumulate_in_order() {
    let column = Column::new("id".to_string(), SqlType::Integer)
        .primary()
        .not_null()
        .constraint(UniqueConstraint(Some("uniq".to_string())))
        .constraint(NotNullConstraint(None))
        .constraint(PrimaryKeyConstraint(None))
        .constraint(DefaultConstraint::new(None, "0".to_string()))
        .constraint(ForeignKeyConstraint::new(
            None,
            "other".to_string(),
            "id".to_string(),
        ));
    assert_eq!(
        column.constraints,
        vec![
            ConstraintKind::Primary,
            ConstraintKind::NotNull,
            ConstraintKind::Unique,
            ConstraintKind::NotNull,
            ConstraintKind::Primary,
            ConstraintKind::DefaultValue("0".to_string()),
            ConstraintKind::ForeignKey("other".to_string(), "id".to_string()),
        ],
    );
}

#[test]
fn queries_execute_against_a_backend() {
    let db = TestBackend;
    let create = Create::new("t".to_string()).with_column(Column::new(
        "id".to_string(),
        SqlType::Integer,
    ));
    assert!(Query::<TestBackend>::execute(&create, &db).is_ok());
    assert!(Query::<TestBackend>::execute_unprepared(&create, &db).is_ok());
    assert!(db.query_one_row(&create).is_err());
}

#[test]
fn single_row_shaping() {
    let row = |v: &str| Row { fields: vec![v.to_string()] };
    assert_eq!(single_row(vec![]), Err(RowCountError::NoResult));
    assert_eq!(single_row(vec![row("a")]), Ok(row("a")));
    assert_eq!(
        single_row(vec![row("a"), row("b")]),
        Err(RowCountError::TooManyRows),
    );
}
