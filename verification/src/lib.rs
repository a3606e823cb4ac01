//! Types and helpers for building correctly escaped fragments of SQL text:
//! quoted identifiers (schemas, tables, columns), quoted literal data,
//! dialect-specific column type names, and simple boolean WHERE-clause
//! predicates. This is a formatting and escaping layer only: it never
//! executes, parses or sends SQL.
//!
//! All escaping goes through two engines, each proved against a
//! mathematical model of its output:
//!
//! * identifier escaping (`ObjectConcat`): fragments are concatenated and,
//!   when any fragment holds a space or `"`, the whole is wrapped in `"`
//!   with every `"` doubled; a fragment holding `'` or `\` makes rendering
//!   fail with [`UnsupportedIdentifierCharacter`];
//! * literal escaping (`QuotedDataConcat`): the whole is wrapped in `'`
//!   with every `'` and every `\` doubled; this never fails.

use vstd::prelude::*;

mod escape;
pub mod predicates;
pub mod data_type;

pub use escape::UnsupportedIdentifierCharacter;
pub use escape::{
    any_frag_contains, concat_frags, double_chars, identifier_needs_quoting, identifier_rejected,
    identifier_text, literal_text, undouble_chars,
};
pub use escape::{
    lemma_identifier_plain, lemma_identifier_quoted_round_trip, lemma_literal_round_trip,
};
pub use predicates::{PredicateStatement, Predicates};
pub use data_type::{Dialect, MonetDbDialect, SqlDataType, SqlServerDialect};

verus! {

/// Concatenation of raw text fragments under identifier escaping rules.
///
/// Rendering makes one quoting decision over the whole fragment list:
/// * as-is, when no fragment holds a `"` or a space;
/// * wrapped in `"` with every `"` doubled otherwise;
/// * refused when a fragment holds `'` or `\`.
#[derive(Clone, Copy, Debug, PartialEq, Eq, PartialOrd, Ord)]
pub struct ObjectConcat<'i>(pub &'i [&'i str]);

impl<'i> ObjectConcat<'i> {
    /// Renders the escaped identifier.
    pub fn to_sql(&self) -> (r: Result<String, UnsupportedIdentifierCharacter>)
        ensures
            r is Err <==> identifier_rejected(self.0.deep_view()),
            r is Ok ==> r->Ok_0@ == identifier_text(self.0.deep_view()),
    {
        escape::format_identifier(self.0)
    }
}

/// Owned variant of [`ObjectConcat`] returned by the combinators that
/// synthesize fragment lists (postfixes, schema qualification).
pub struct ObjectConcatDisplay<'i>(Vec<&'i str>);

impl<'i> ObjectConcatDisplay<'i> {
    /// The fragment list this value renders.
    pub closed spec fn frags(&self) -> Seq<Seq<char>> {
        self.0.deep_view()
    }

    /// Renders the escaped identifier.
    pub fn to_sql(&self) -> (r: Result<String, UnsupportedIdentifierCharacter>)
        ensures
            r is Err <==> identifier_rejected(self.frags()),
            r is Ok ==> r->Ok_0@ == identifier_text(self.frags()),
    {
        let s = self.0.as_slice();
        let r = escape::format_identifier(s);
        proof {
            assert(s.deep_view() =~= self.frags());
        }
        r
    }

    /// Reinterprets the fragments as quoted data: the raw text will render
    /// through literal escaping instead of identifier escaping.
    pub fn as_quoted_data(self) -> (r: QuotedDataConcatDisplay<'i>)
        ensures
            r.frags() == self.frags(),
    {
        QuotedDataConcatDisplay(self.0)
    }
}

/// Concatenation of raw text fragments under literal escaping rules.
///
/// Rendering wraps the concatenation in `'` and doubles every `'` and
/// every `\`; it never fails.
#[derive(Clone, Copy, Debug, PartialEq, Eq, PartialOrd, Ord)]
pub struct QuotedDataConcat<'i>(pub &'i [&'i str]);

impl<'i> QuotedDataConcat<'i> {
    /// Renders the escaped literal.
    pub fn to_sql(&self) -> (r: String)
        ensures
            r@ == literal_text(concat_frags(self.0.deep_view())),
    {
        escape::format_literal(self.0)
    }
}

/// Owned variant of [`QuotedDataConcat`].
pub struct QuotedDataConcatDisplay<'i>(Vec<&'i str>);

impl<'i> QuotedDataConcatDisplay<'i> {
    /// The fragment list this value renders.
    pub closed spec fn frags(&self) -> Seq<Seq<char>> {
        self.0.deep_view()
    }

    /// Renders the escaped literal.
    pub fn to_sql(&self) -> (r: String)
        ensures
            r@ == literal_text(concat_frags(self.frags())),
    {
        let s = self.0.as_slice();
        let r = escape::format_literal(s);
        proof {
            assert(s.deep_view() =~= self.frags());
        }
        r
    }
}

/// A generic database object name (table, schema, column), escaped under
/// identifier rules at render time; the raw text is held unquoted.
#[derive(Clone, Copy, Debug, PartialEq, Eq, PartialOrd, Ord)]
pub struct Object<'i>(pub &'i str);

impl<'i> Object<'i> {
    /// Gets the original value.
    pub fn as_str(&self) -> (r: &'i str)
        ensures
            r@ == self.0@,
    {
        self.0
    }

    /// Gets this object's raw text represented as quoted data.
    pub fn as_quoted_data(&self) -> (r: QuotedDataConcatDisplay<'i>)
        ensures
            r.frags() == seq![self.0@],
    {
        let mut frags: Vec<&'i str> = Vec::new();
        frags.push(self.0);
        QuotedDataConcatDisplay(frags)
    }

    /// Renders the escaped identifier.
    pub fn to_sql(&self) -> (r: Result<String, UnsupportedIdentifierCharacter>)
        ensures
            r is Err <==> identifier_rejected(seq![self.0@]),
            r is Ok ==> r->Ok_0@ == identifier_text(seq![self.0@]),
    {
        escape::format_identifier_one(self.0)
    }
}

/// Strings and other data in single quotes: renders under literal escaping
/// rules, which never fail.
#[derive(Clone, Copy, Debug, PartialEq, Eq, PartialOrd, Ord)]
pub struct QuotedData<'i>(pub &'i str);

impl<'i> QuotedData<'i> {
    /// Defers rendering through `f`: the rendered literal will hold `f`'s
    /// output instead of the raw text.
    pub fn map<F: Fn(&'i str) -> String>(self, f: F) -> (r: MapQuotedData<'i, F>)
        ensures
            r.text() == self.0,
            r.func() == f,
    {
        MapQuotedData(self.0, f)
    }

    /// Gets the original value.
    pub fn as_str(&self) -> (r: &'i str)
        ensures
            r@ == self.0@,
    {
        self.0
    }

    /// Renders the escaped literal.
    pub fn to_sql(&self) -> (r: String)
        ensures
            r@ == literal_text(self.0@),
    {
        escape::format_literal_one(self.0)
    }
}

/// Wrapper around [`QuotedData`] that maps its content before literal
/// escaping.
pub struct MapQuotedData<'i, F>(&'i str, F);

impl<'i, F: Fn(&'i str) -> String> MapQuotedData<'i, F> {
    /// The raw text handed to the mapping function.
    pub closed spec fn text(&self) -> &'i str {
        self.0
    }

    /// The mapping function.
    pub closed spec fn func(&self) -> F {
        self.1
    }

    /// Renders the mapped content as an escaped literal.
    pub fn to_sql(&self) -> (r: String)
        requires
            call_requires(self.func(), (self.text(),)),
        ensures
            exists|mapped: String|
                call_ensures(self.func(), (self.text(),), mapped) && r@ == literal_text(mapped@),
    {
        let data = (self.1)(self.0);
        escape::format_literal_one(data.as_str())
    }
}

/// A database schema name.
#[derive(Clone, Copy, Debug, PartialEq, Eq, PartialOrd, Ord)]
pub struct Schema<'i>(pub Object<'i>);

impl<'i> Schema<'i> {
    /// Gets the original value.
    pub fn as_str(&self) -> (r: &'i str)
        ensures
            r@ == self.0.0@,
    {
        self.0.as_str()
    }

    /// Gets this schema's raw text represented as quoted data.
    pub fn as_quoted_data(&self) -> (r: QuotedDataConcatDisplay<'i>)
        ensures
            r.frags() == seq![self.0.0@],
    {
        self.0.as_quoted_data()
    }

    /// Renders the escaped identifier.
    pub fn to_sql(&self) -> (r: Result<String, UnsupportedIdentifierCharacter>)
        ensures
            r is Err <==> identifier_rejected(seq![self.0.0@]),
            r is Ok ==> r->Ok_0@ == identifier_text(seq![self.0.0@]),
    {
        self.0.to_sql()
    }
}

/// A database table name.
#[derive(Clone, Copy, Debug, PartialEq, Eq, PartialOrd, Ord)]
pub struct Table<'i>(pub Object<'i>);

impl<'i> Table<'i> {
    /// Constructs a [`SchemaTable`] from this table and the given schema.
    pub fn with_schema(self, schema: Schema<'i>) -> (r: SchemaTable<'i>)
        ensures
            r.0 == schema,
            r.1 == self,
    {
        SchemaTable(schema, self)
    }

    /// The table name with the given postfix appended, rendered as one
    /// multi-fragment identifier (one quoting decision over both parts).
    pub fn with_postfix(&self, postfix: &'i str) -> (r: ObjectConcatDisplay<'i>)
        ensures
            r.frags() == seq![self.0.0@, postfix@],
    {
        let mut frags: Vec<&'i str> = Vec::new();
        frags.push(self.0.0);
        frags.push(postfix);
        ObjectConcatDisplay(frags)
    }

    /// The table name, a separator and a postfix, rendered as one
    /// multi-fragment identifier.
    pub fn with_postfix_sep(&self, postfix: &'i str, separator: &'i str) -> (r: ObjectConcatDisplay<
        'i,
    >)
        ensures
            r.frags() == seq![self.0.0@, separator@, postfix@],
    {
        let mut frags: Vec<&'i str> = Vec::new();
        frags.push(self.0.0);
        frags.push(separator);
        frags.push(postfix);
        ObjectConcatDisplay(frags)
    }

    /// Gets the original value.
    pub fn as_str(&self) -> (r: &'i str)
        ensures
            r@ == self.0.0@,
    {
        self.0.as_str()
    }

    /// Gets this table's raw text represented as quoted data.
    pub fn as_quoted_data(&self) -> (r: QuotedDataConcatDisplay<'i>)
        ensures
            r.frags() == seq![self.0.0@],
    {
        self.0.as_quoted_data()
    }

    /// Renders the escaped identifier.
    pub fn to_sql(&self) -> (r: Result<String, UnsupportedIdentifierCharacter>)
        ensures
            r is Err <==> identifier_rejected(seq![self.0.0@]),
            r is Ok ==> r->Ok_0@ == identifier_text(seq![self.0.0@]),
    {
        self.0.to_sql()
    }
}

/// A table name qualified by a schema. It renders as `schema.table` through
/// one identifier-escaping call over the fragments `schema`, `.`, `table`,
/// so the quoting decision spans the whole qualified name and the `.`
/// separator never triggers quoting by itself.
#[derive(Clone, Copy, Debug, PartialEq, Eq, PartialOrd, Ord)]
pub struct SchemaTable<'i>(pub Schema<'i>, pub Table<'i>);

impl<'i> SchemaTable<'i> {
    /// The fragment list this name renders as: schema, `.`, table.
    pub open spec fn frags(&self) -> Seq<Seq<char>> {
        seq![self.0.0.0@, seq!['.'], self.1.0.0@]
    }

    /// Gets the `Schema` part.
    pub fn schema(&self) -> (r: Schema<'i>)
        ensures
            r == self.0,
    {
        self.0
    }

    /// Gets the `Table` part.
    pub fn table(&self) -> (r: Table<'i>)
        ensures
            r == self.1,
    {
        self.1
    }

    fn as_vec(&self) -> (r: Vec<&'i str>)
        ensures
            r.deep_view() == self.frags(),
    {
        let mut frags: Vec<&'i str> = Vec::new();
        frags.push(self.0.0.0);
        frags.push(".");
        frags.push(self.1.0.0);
        proof {
            reveal_strlit(".");
            assert("."@ =~= seq!['.']);
            assert(frags.deep_view() =~= self.frags());
        }
        frags
    }

    /// The qualified name with the given postfix appended, rendered as one
    /// multi-fragment identifier.
    pub fn with_postfix(&self, postfix: &'i str) -> (r: ObjectConcatDisplay<'i>)
        ensures
            r.frags() == self.frags().push(postfix@),
    {
        let mut frags = self.as_vec();
        frags.push(postfix);
        proof {
            assert(frags.deep_view() =~= self.frags().push(postfix@));
        }
        ObjectConcatDisplay(frags)
    }

    /// The qualified name, a separator and a postfix, rendered as one
    /// multi-fragment identifier.
    pub fn with_postfix_sep(&self, postfix: &'i str, separator: &'i str) -> (r: ObjectConcatDisplay<
        'i,
    >)
        ensures
            r.frags() == self.frags().push(separator@).push(postfix@),
    {
        let mut frags = self.as_vec();
        frags.push(separator);
        frags.push(postfix);
        proof {
            assert(frags.deep_view() =~= self.frags().push(separator@).push(postfix@));
        }
        ObjectConcatDisplay(frags)
    }

    /// Gets the qualified name's raw text (schema, `.`, table) represented
    /// as quoted data.
    pub fn as_quoted_data(&self) -> (r: QuotedDataConcatDisplay<'i>)
        ensures
            r.frags() == self.frags(),
    {
        QuotedDataConcatDisplay(self.as_vec())
    }

    /// Renders the escaped identifier.
    pub fn to_sql(&self) -> (r: Result<String, UnsupportedIdentifierCharacter>)
        ensures
            r is Err <==> identifier_rejected(self.frags()),
            r is Ok ==> r->Ok_0@ == identifier_text(self.frags()),
    {
        let frags = self.as_vec();
        let s = frags.as_slice();
        let r = escape::format_identifier(s);
        proof {
            assert(s.deep_view() =~= self.frags());
        }
        r
    }
}

/// A table column name.
#[derive(Clone, Copy, Debug, PartialEq, Eq, PartialOrd, Ord)]
pub struct Column<'i>(pub Object<'i>);

impl<'i> Column<'i> {
    /// Gets the original value.
    pub fn as_str(&self) -> (r: &'i str)
        ensures
            r@ == self.0.0@,
    {
        self.0.as_str()
    }

    /// Gets this column's raw text represented as quoted data.
    pub fn as_quoted_data(&self) -> (r: QuotedDataConcatDisplay<'i>)
        ensures
            r.frags() == seq![self.0.0@],
    {
        self.0.as_quoted_data()
    }

    /// Renders the escaped identifier.
    pub fn to_sql(&self) -> (r: Result<String, UnsupportedIdentifierCharacter>)
        ensures
            r is Err <==> identifier_rejected(seq![self.0.0@]),
            r is Ok ==> r->Ok_0@ == identifier_text(seq![self.0.0@]),
    {
        self.0.to_sql()
    }
}

/// A column type name for the SQL dialect `D`. Two values tagged with
/// different dialects are distinct types and cannot be mixed.
#[derive(Copy, Debug, PartialEq, Eq, PartialOrd, Ord)]
pub struct ColumnType<D: Dialect>(pub Object<'static>, pub core::marker::PhantomData<D>);

impl<D: Dialect> Clone for ColumnType<D> {
    fn clone(&self) -> (r: Self)
        ensures
            r == *self,
    {
        *self
    }
}

impl<D: Dialect> ColumnType<D> {
    /// Gets the original value.
    pub fn as_str(&self) -> (r: &'static str)
        ensures
            r@ == self.0.0@,
    {
        self.0.as_str()
    }

    /// Renders the escaped identifier.
    pub fn to_sql(&self) -> (r: Result<String, UnsupportedIdentifierCharacter>)
        ensures
            r is Err <==> identifier_rejected(seq![self.0.0@]),
            r is Ok ==> r->Ok_0@ == identifier_text(seq![self.0.0@]),
    {
        self.0.to_sql()
    }
}

/// A column name together with its type for the SQL dialect `D`; renders as
/// `name type`.
#[derive(Copy, Debug, PartialEq, Eq, PartialOrd, Ord)]
pub struct ColumnSchema<'i, D: Dialect>(pub Column<'i>, pub ColumnType<D>);

impl<'i, D: Dialect> Clone for ColumnSchema<'i, D> {
    fn clone(&self) -> (r: Self)
        ensures
            r == *self,
    {
        *self
    }
}

impl<'i, D: Dialect> ColumnSchema<'i, D> {
    /// Gets the `Column` part.
    pub fn column(&self) -> (r: &Column<'i>)
        ensures
            r == self.0,
    {
        &self.0
    }

    /// Gets the `ColumnType` part.
    pub fn column_type(&self) -> (r: &ColumnType<D>)
        ensures
            r == self.1,
    {
        &self.1
    }

    /// Renders the column name, a space and the column type, each escaped
    /// as an identifier.
    pub fn to_sql(&self) -> (r: Result<String, UnsupportedIdentifierCharacter>)
        ensures
            r is Err <==> identifier_rejected(seq![self.0.0.0@]) || identifier_rejected(
                seq![self.1.0.0@],
            ),
            r is Ok ==> r->Ok_0@ == identifier_text(seq![self.0.0.0@]) + seq![' ']
                + identifier_text(seq![self.1.0.0@]),
    {
        let name = match self.0.to_sql() {
            Ok(name) => name,
            Err(e) => {
                return Err(e);
            },
        };
        let ty = match self.1.to_sql() {
            Ok(ty) => ty,
            Err(e) => {
                return Err(e);
            },
        };
        let mut out = name;
        out.push(' ');
        out.append(ty.as_str());
        Ok(out)
    }
}

impl<'i> From<ObjectConcatDisplay<'i>> for QuotedDataConcatDisplay<'i> {
    fn from(value: ObjectConcatDisplay<'i>) -> (r: QuotedDataConcatDisplay<'i>) {
        QuotedDataConcatDisplay(value.0)
    }
}

impl<'i> vstd::std_specs::convert::FromSpecImpl<ObjectConcatDisplay<'i>>
    for QuotedDataConcatDisplay<'i> {
    open spec fn obeys_from_spec() -> bool {
        true
    }

    closed spec fn from_spec(v: ObjectConcatDisplay<'i>) -> QuotedDataConcatDisplay<'i> {
        QuotedDataConcatDisplay(v.0)
    }
}

impl<'i> From<&'i str> for Object<'i> {
    fn from(value: &'i str) -> (r: Object<'i>) {
        Object(value)
    }
}

impl<'i> vstd::std_specs::convert::FromSpecImpl<&'i str> for Object<'i> {
    open spec fn obeys_from_spec() -> bool {
        true
    }

    open spec fn from_spec(v: &'i str) -> Object<'i> {
        Object(v)
    }
}

impl<'i> From<&'i str> for QuotedData<'i> {
    fn from(value: &'i str) -> (r: QuotedData<'i>) {
        QuotedData(value)
    }
}

impl<'i> vstd::std_specs::convert::FromSpecImpl<&'i str> for QuotedData<'i> {
    open spec fn obeys_from_spec() -> bool {
        true
    }

    open spec fn from_spec(v: &'i str) -> QuotedData<'i> {
        QuotedData(v)
    }
}

impl<'i> From<&'i str> for Schema<'i> {
    fn from(value: &'i str) -> (r: Schema<'i>) {
        Schema(Object(value))
    }
}

impl<'i> vstd::std_specs::convert::FromSpecImpl<&'i str> for Schema<'i> {
    open spec fn obeys_from_spec() -> bool {
        true
    }

    open spec fn from_spec(v: &'i str) -> Schema<'i> {
        Schema(Object(v))
    }
}

impl<'i> From<Object<'i>> for Schema<'i> {
    fn from(value: Object<'i>) -> (r: Schema<'i>) {
        Schema(value)
    }
}

impl<'i> vstd::std_specs::convert::FromSpecImpl<Object<'i>> for Schema<'i> {
    open spec fn obeys_from_spec() -> bool {
        true
    }

    open spec fn from_spec(v: Object<'i>) -> Schema<'i> {
        Schema(v)
    }
}

impl<'i> From<&'i str> for Table<'i> {
    fn from(value: &'i str) -> (r: Table<'i>) {
        Table(Object(value))
    }
}

impl<'i> vstd::std_specs::convert::FromSpecImpl<&'i str> for Table<'i> {
    open spec fn obeys_from_spec() -> bool {
        true
    }

    open spec fn from_spec(v: &'i str) -> Table<'i> {
        Table(Object(v))
    }
}

impl<'i> From<Object<'i>> for Table<'i> {
    fn from(value: Object<'i>) -> (r: Table<'i>) {
        Table(value)
    }
}

impl<'i> vstd::std_specs::convert::FromSpecImpl<Object<'i>> for Table<'i> {
    open spec fn obeys_from_spec() -> bool {
        true
    }

    open spec fn from_spec(v: Object<'i>) -> Table<'i> {
        Table(v)
    }
}

impl<'i> From<&'i str> for Column<'i> {
    fn from(value: &'i str) -> (r: Column<'i>) {
        Column(Object(value))
    }
}

impl<'i> vstd::std_specs::convert::FromSpecImpl<&'i str> for Column<'i> {
    open spec fn obeys_from_spec() -> bool {
        true
    }

    open spec fn from_spec(v: &'i str) -> Column<'i> {
        Column(Object(v))
    }
}

impl<'i> From<Object<'i>> for Column<'i> {
    fn from(value: Object<'i>) -> (r: Column<'i>) {
        Column(value)
    }
}

impl<'i> vstd::std_specs::convert::FromSpecImpl<Object<'i>> for Column<'i> {
    open spec fn obeys_from_spec() -> bool {
        true
    }

    open spec fn from_spec(v: Object<'i>) -> Column<'i> {
        Column(v)
    }
}

impl<'i> From<(Schema<'i>, Table<'i>)> for SchemaTable<'i> {
    fn from(value: (Schema<'i>, Table<'i>)) -> (r: SchemaTable<'i>) {
        SchemaTable(value.0, value.1)
    }
}

impl<'i> vstd::std_specs::convert::FromSpecImpl<(Schema<'i>, Table<'i>)> for SchemaTable<'i> {
    open spec fn obeys_from_spec() -> bool {
        true
    }

    open spec fn from_spec(v: (Schema<'i>, Table<'i>)) -> SchemaTable<'i> {
        SchemaTable(v.0, v.1)
    }
}

impl<D: Dialect> From<Object<'static>> for ColumnType<D> {
    fn from(value: Object<'static>) -> (r: ColumnType<D>) {
        ColumnType(value, core::marker::PhantomData)
    }
}

impl<D: Dialect> vstd::std_specs::convert::FromSpecImpl<Object<'static>> for ColumnType<D> {
    open spec fn obeys_from_spec() -> bool {
        true
    }

    open spec fn from_spec(v: Object<'static>) -> ColumnType<D> {
        ColumnType(v, core::marker::PhantomData)
    }
}

impl<'i, D: Dialect> From<(Column<'i>, ColumnType<D>)> for ColumnSchema<'i, D> {
    fn from(value: (Column<'i>, ColumnType<D>)) -> (r: ColumnSchema<'i, D>) {
        ColumnSchema(value.0, value.1)
    }
}

impl<'i, D: Dialect> vstd::std_specs::convert::FromSpecImpl<(Column<'i>, ColumnType<D>)>
    for ColumnSchema<'i, D> {
    open spec fn obeys_from_spec() -> bool {
        true
    }

    open spec fn from_spec(v: (Column<'i>, ColumnType<D>)) -> ColumnSchema<'i, D> {
        ColumnSchema(v.0, v.1)
    }
}

} // verus!
