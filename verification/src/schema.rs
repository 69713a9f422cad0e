//! Database tables and fields that the plugins add, as plain descriptions:
//! each field's name (its logical and column name alike), type, and flags.

use vstd::prelude::*;

verus! {

/// The stored type of a field.
#[derive(Debug, Clone, Copy, PartialEq, Eq, Structural)]
pub enum FieldKind {
    String,
    Boolean,
    Timestamp,
    Json,
}

/// What happens to a row when the row it references is deleted.
#[derive(Debug, Clone, Copy, PartialEq, Eq, Structural)]
pub enum OnDeleteRule {
    Cascade,
}

/// A reference to a column of another table.
#[derive(Debug)]
pub struct ForeignKeySpec {
    pub table: String,
    pub column: String,
    pub on_delete: OnDeleteRule,
}

/// A field: name, type, whether it may be absent, unique, indexed, and what
/// it references.
#[derive(Debug)]
pub struct FieldSpec {
    pub name: String,
    pub kind: FieldKind,
    pub optional: bool,
    pub unique: bool,
    pub indexed: bool,
    pub references: Option<ForeignKeySpec>,
}

/// A table: the model name the core knows it by, its table name, its place
/// in the migration order, and its fields in order.
#[derive(Debug)]
pub struct TableSpec {
    pub model: String,
    pub name: String,
    pub order: Option<u16>,
    pub fields: Vec<FieldSpec>,
}

/// What a plugin adds to the schema: a table, or one field of an existing
/// model.
#[derive(Debug)]
pub enum SchemaContribution {
    Table(TableSpec),
    Field { model: String, field: FieldSpec },
}

/// A field as plain values.
pub struct FieldView {
    pub name: Seq<char>,
    pub kind: FieldKind,
    pub optional: bool,
    pub unique: bool,
    pub indexed: bool,
    pub reference: Option<(Seq<char>, Seq<char>, OnDeleteRule)>,
}

/// A contribution as plain values.
pub enum ContributionView {
    Table(Seq<char>, Seq<char>, Option<u16>, Seq<FieldView>),
    Field(Seq<char>, FieldView),
}

impl View for FieldSpec {
    type V = FieldView;

    open spec fn view(&self) -> FieldView {
        FieldView {
            name: self.name@,
            kind: self.kind,
            optional: self.optional,
            unique: self.unique,
            indexed: self.indexed,
            reference: match self.references {
                Some(r) => Some((r.table@, r.column@, r.on_delete)),
                None => None,
            },
        }
    }
}

/// The fields as plain values.
pub open spec fn field_views(fields: Seq<FieldSpec>) -> Seq<FieldView> {
    fields.map_values(|f: FieldSpec| f@)
}

impl View for SchemaContribution {
    type V = ContributionView;

    open spec fn view(&self) -> ContributionView {
        match self {
            SchemaContribution::Table(t) => ContributionView::Table(
                t.model@,
                t.name@,
                t.order,
                field_views(t.fields@),
            ),
            SchemaContribution::Field { model, field } => ContributionView::Field(model@, field@),
        }
    }
}

/// A required field without flags.
pub open spec fn plain(name: Seq<char>, kind: FieldKind) -> FieldView {
    FieldView { name, kind, optional: false, unique: false, indexed: false, reference: None }
}

/// The field made optional.
pub open spec fn opt(f: FieldView) -> FieldView {
    FieldView { optional: true, ..f }
}

/// The field made unique.
pub open spec fn uniq(f: FieldView) -> FieldView {
    FieldView { unique: true, ..f }
}

/// The field indexed.
pub open spec fn idx(f: FieldView) -> FieldView {
    FieldView { indexed: true, ..f }
}

/// The field referencing `table.column`, deleted with it.
pub open spec fn refs(f: FieldView, table: Seq<char>, column: Seq<char>) -> FieldView {
    FieldView { reference: Some((table, column, OnDeleteRule::Cascade)), ..f }
}

/// A required field without flags.
pub fn field(name: &str, kind: FieldKind) -> (f: FieldSpec)
    ensures
        f@ == plain(name@, kind),
{
    FieldSpec {
        name: name.to_owned(),
        kind,
        optional: false,
        unique: false,
        indexed: false,
        references: None,
    }
}

impl FieldSpec {
    /// The field made optional.
    pub fn optional(self) -> (f: FieldSpec)
        ensures
            f@ == opt(self@),
    {
        FieldSpec { optional: true, ..self }
    }

    /// The field made unique.
    pub fn unique(self) -> (f: FieldSpec)
        ensures
            f@ == uniq(self@),
    {
        FieldSpec { unique: true, ..self }
    }

    /// The field indexed.
    pub fn indexed(self) -> (f: FieldSpec)
        ensures
            f@ == idx(self@),
    {
        FieldSpec { indexed: true, ..self }
    }

    /// The field referencing `table.column`, deleted with the referenced row.
    pub fn references(self, table: &str, column: &str) -> (f: FieldSpec)
        ensures
            f@ == refs(self@, table@, column@),
    {
        FieldSpec {
            references: Some(
                ForeignKeySpec {
                    table: table.to_owned(),
                    column: column.to_owned(),
                    on_delete: OnDeleteRule::Cascade,
                },
            ),
            ..self
        }
    }
}

/// A table contribution.
pub fn table(model: &str, name: &str, order: Option<u16>, fields: Vec<FieldSpec>) -> (c: SchemaContribution)
    ensures
        c@ == ContributionView::Table(model@, name@, order, field_views(fields@)),
{
    SchemaContribution::Table(
        TableSpec { model: model.to_owned(), name: name.to_owned(), order, fields },
    )
}

} // verus!
