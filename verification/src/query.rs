//! The query layer of the storage backend: query traits and the
//! table-creation builder.

use vstd::prelude::*;
use vstd::string::StringExecFns;
use crate::backend::{Database, Error};
use crate::statement::{PreparedStatement, StatementPart};

verus! {

/// Anything that can render itself as a piece of SQL for the backend `DB`.
pub trait QueryPart<DB> {
    /// Renders without placeholders, parameters inlined.
    fn to_sql_unprepared(&self) -> String;

    /// Renders as a prepared statement with its bound parameters.  By
    /// default the unprepared rendering with no parameters.
    fn to_sql(&self) -> (PreparedStatement, Vec<String>) {
        let mut parts: Vec<StatementPart> = Vec::new();
        parts.push(StatementPart::Fixed(self.to_sql_unprepared()));
        (PreparedStatement::new(parts), Vec::new())
    }
}

/// A complete, executable query.
pub trait Query<DB: Database>: QueryPart<DB> {
    /// Prepares and executes this query against `db`.
    fn execute(&self, db: &DB) -> Result<(), Error<DB>> where Self: Sized {
        db.execute(self)
    }

    /// Executes this query against `db` without preparation.
    fn execute_unprepared(&self, db: &DB) -> Result<(), Error<DB>> where Self: Sized {
        db.execute_unprepared(self)
    }
}

/// The SQL column types the cache schema uses.
#[derive(Debug, Clone, Copy, PartialEq, Eq, Structural)]
pub enum SqlType {
    TinyInteger,
    Integer,
    BigInteger,
    Text,
    Boolean,
    Timestamp,
}

impl SqlType {
    /// The SQL name of the type.
    pub fn sql_name(&self) -> (r: &'static str) {
        match self {
            SqlType::TinyInteger => "TINYINT",
            SqlType::Integer => "INTEGER",
            SqlType::BigInteger => "BIGINT",
            SqlType::Text => "TEXT",
            SqlType::Boolean => "BOOLEAN",
            SqlType::Timestamp => "TIMESTAMP",
        }
    }
}

/// A column constraint, as the rendering needs it.
#[derive(Debug, Clone, PartialEq)]
pub enum ConstraintKind {
    NotNull,
    Unique,
    Primary,
    /// References `table(column)`.
    ForeignKey(String, String),
    /// A default value, already rendered as SQL.
    DefaultValue(String),
}

/// A named piece of column metadata that renders to a constraint.
pub trait Constraint {
    /// The constraint as the column will store it.
    spec fn kind_spec(&self) -> ConstraintKind;

    /// The constraint's name, if it carries one.
    fn name(&self) -> Option<&String>;

    /// The constraint as the column stores it.
    fn kind(&self) -> (r: ConstraintKind)
        ensures
            r == self.kind_spec(),
    ;
}

/// A NOT NULL constraint, optionally named.
#[derive(Debug, Clone, PartialEq)]
pub struct NotNullConstraint(pub Option<String>);

/// A UNIQUE constraint, optionally named.
#[derive(Debug, Clone, PartialEq)]
pub struct UniqueConstraint(pub Option<String>);

/// A PRIMARY KEY constraint, optionally named.
#[derive(Debug, Clone, PartialEq)]
pub struct PrimaryKeyConstraint(pub Option<String>);

/// A FOREIGN KEY constraint.
#[derive(Debug, Clone, PartialEq)]
pub struct ForeignKeyConstraint {
    pub name: Option<String>,
    pub table: String,
    pub column: String,
}

/// A DEFAULT constraint.
#[derive(Debug, Clone, PartialEq)]
pub struct DefaultConstraint {
    pub name: Option<String>,
    pub default: String,
}

impl Constraint for NotNullConstraint {
    open spec fn kind_spec(&self) -> ConstraintKind {
        ConstraintKind::NotNull
    }

    fn name(&self) -> Option<&String> {
        match &self.0 {
            Some(n) => Some(n),
            None => None,
        }
    }

    fn kind(&self) -> (r: ConstraintKind) {
        ConstraintKind::NotNull
    }
}

impl Constraint for UniqueConstraint {
    open spec fn kind_spec(&self) -> ConstraintKind {
        ConstraintKind::Unique
    }

    fn name(&self) -> Option<&String> {
        match &self.0 {
            Some(n) => Some(n),
            None => None,
        }
    }

    fn kind(&self) -> (r: ConstraintKind) {
        ConstraintKind::Unique
    }
}

impl Constraint for PrimaryKeyConstraint {
    open spec fn kind_spec(&self) -> ConstraintKind {
        ConstraintKind::Primary
    }

    fn name(&self) -> Option<&String> {
        match &self.0 {
            Some(n) => Some(n),
            None => None,
        }
    }

    fn kind(&self) -> (r: ConstraintKind) {
        ConstraintKind::Primary
    }
}

impl Constraint for ForeignKeyConstraint {
    open spec fn kind_spec(&self) -> ConstraintKind {
        ConstraintKind::ForeignKey(self.table, self.column)
    }

    fn name(&self) -> Option<&String> {
        match &self.name {
            Some(n) => Some(n),
            None => None,
        }
    }

    fn kind(&self) -> (r: ConstraintKind) {
        ConstraintKind::ForeignKey(self.table.clone(), self.column.clone())
    }
}

impl Constraint for DefaultConstraint {
    open spec fn kind_spec(&self) -> ConstraintKind {
        ConstraintKind::DefaultValue(self.default)
    }

    fn name(&self) -> Option<&String> {
        match &self.name {
            Some(n) => Some(n),
            None => None,
        }
    }

    fn kind(&self) -> (r: ConstraintKind) {
        ConstraintKind::DefaultValue(self.default.clone())
    }
}

impl DefaultConstraint {
    pub fn new(name: Option<String>, default: String) -> (r: DefaultConstraint)
        ensures
            r.name == name,
            r.default == default,
    {
        DefaultConstraint { name, default }
    }
}

impl ForeignKeyConstraint {
    pub fn new(name: Option<String>, table: String, column: String) -> (r: ForeignKeyConstraint)
        ensures
            r.name == name,
            r.table == table,
            r.column == column,
    {
        ForeignKeyConstraint { name, table, column }
    }
}

/// A column of a table-creation query.
#[derive(Debug, Clone, PartialEq)]
pub struct Column {
    pub name: String,
    pub sql_type: SqlType,
    pub constraints: Vec<ConstraintKind>,
}

impl Column {
    /// A column of the given name and type, without constraints.
    pub fn new(name: String, sql_type: SqlType) -> (r: Column)
        ensures
            r.name == name,
            r.sql_type == sql_type,
            r.constraints@ == Seq::<ConstraintKind>::empty(),
    {
        Column { name, sql_type, constraints: Vec::new() }
    }

    /// Adds a PRIMARY KEY constraint.
    pub fn primary(self) -> (r: Column)
        ensures
            r.name == self.name,
            r.sql_type == self.sql_type,
            r.constraints@ == self.constraints@.push(ConstraintKind::Primary),
    {
        self.constraint(PrimaryKeyConstraint(None))
    }

    /// Adds a UNIQUE constraint.
    pub fn unique(self) -> (r: Column)
        ensures
            r.name == self.name,
            r.sql_type == self.sql_type,
            r.constraints@ == self.constraints@.push(ConstraintKind::Unique),
    {
        self.constraint(UniqueConstraint(None))
    }

    /// Adds a NOT NULL constraint.
    pub fn not_null(self) -> (r: Column)
        ensures
            r.name == self.name,
            r.sql_type == self.sql_type,
            r.constraints@ == self.constraints@.push(ConstraintKind::NotNull),
    {
        self.constraint(NotNullConstraint(None))
    }

    /// Adds a DEFAULT constraint with the given rendered value.
    pub fn default(self, default: String) -> (r: Column)
        ensures
            r.name == self.name,
            r.sql_type == self.sql_type,
            r.constraints@ == self.constraints@.push(
                ConstraintKind::DefaultValue(default),
            ),
    {
        self.constraint(DefaultConstraint::new(None, default))
    }

    /// Adds a FOREIGN KEY constraint referencing `table(column)`.
    pub fn foreign_key(self, table: String, column: String) -> (r: Column)
        ensures
            r.name == self.name,
            r.sql_type == self.sql_type,
            r.constraints@ == self.constraints@.push(
                ConstraintKind::ForeignKey(table, column),
            ),
    {
        self.constraint(ForeignKeyConstraint::new(None, table, column))
    }

    /// Adds any constraint.
    pub fn constraint<Con: Constraint>(self, constraint: Con) -> (r: Column)
        ensures
            r.name == self.name,
            r.sql_type == self.sql_type,
            r.constraints@ == self.constraints@.push(constraint.kind_spec()),
    {
        let Column { name, sql_type, mut constraints } = self;
        constraints.push(constraint.kind());
        Column { name, sql_type, constraints }
    }
}

/// A CREATE TABLE query.
#[derive(Debug, Clone, PartialEq)]
pub struct Create {
    pub name: String,
    pub ignore_if_exists: bool,
    pub columns: Vec<Column>,
}

impl Create {
    /// A creation query for the table of the given name, with no columns
    /// yet.
    pub fn new(name: String) -> (r: Create)
        ensures
            r.name == name,
            r.ignore_if_exists == false,
            r.columns@ == Seq::<Column>::empty(),
    {
        Create { name, ignore_if_exists: false, columns: Vec::new() }
    }

    /// Makes the creation tolerate the table already existing.
    pub fn ignore_if_exists(self) -> (r: Create)
        ensures
            r == (Create { ignore_if_exists: true, ..self }),
    {
        Create { ignore_if_exists: true, ..self }
    }

    /// Adds a column.
    pub fn with_column(self, col: Column) -> (r: Create)
        ensures
            r.name == self.name,
            r.ignore_if_exists == self.ignore_if_exists,
            r.columns@ == self.columns@.push(col),
    {
        let Create { name, ignore_if_exists, mut columns } = self;
        columns.push(col);
        Create { name, ignore_if_exists, columns }
    }
}

fn render_constraint(kind: &ConstraintKind) -> (r: String) {
    match kind {
        ConstraintKind::NotNull => ("NOT NULL").to_owned(),
        ConstraintKind::Unique => ("UNIQUE").to_owned(),
        ConstraintKind::Primary => ("PRIMARY KEY").to_owned(),
        ConstraintKind::ForeignKey(table, column) => {
            ("REFERENCES ").to_owned().concat(table.as_str()).concat("(").concat(
                column.as_str(),
            ).concat(")")
        },
        ConstraintKind::DefaultValue(value) => ("DEFAULT ").to_owned().concat(value.as_str()),
    }
}

fn render_column(col: &Column) -> (r: String) {
    let mut out = col.name.clone().concat(" ").concat(col.sql_type.sql_name());
    let mut i: usize = 0;
    while i < col.constraints.len()
        decreases col.constraints@.len() - i,
    {
        out.append(" ");
        let rendered = render_constraint(&col.constraints[i]);
        out.append(rendered.as_str());
        i += 1;
    }
    out
}

impl<DB: Database> QueryPart<DB> for Create {
    fn to_sql_unprepared(&self) -> String {
        let mut out = ("CREATE TABLE ").to_owned();
        if self.ignore_if_exists {
            out.append("IF NOT EXISTS ");
        }
        out.append(self.name.as_str());
        out.append(" (");
        let mut i: usize = 0;
        while i < self.columns.len()
            decreases self.columns@.len() - i,
        {
            if i > 0 {
                out.append(", ");
            }
            let rendered = render_column(&self.columns[i]);
            out.append(rendered.as_str());
            i += 1;
        }
        out.append(")");
        out
    }
}

impl<DB: Database> Query<DB> for Create {

}

} // verus!
