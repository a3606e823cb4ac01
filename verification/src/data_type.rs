//! Dialect-parameterized mapping from application value types to a
//! dialect's native SQL column type names. The mapping is closed and
//! checked at build time: a value type without a registered mapping for a
//! dialect simply has no `SqlDataType` impl for it, and using the pair
//! fails to compile.

use vstd::prelude::*;

use crate::{ColumnType, Object};
use core::marker::PhantomData;

verus! {

/// SQL dialect of a database. A marker: two [`ColumnType`] values tagged
/// with different dialects are not interchangeable.
pub trait Dialect: Clone + Copy {

}

/// Provides the SQL column type in a given dialect corresponding to a Rust
/// value type.
pub trait SqlDataType<D: Dialect> {
    /// The dialect's name for this value type.
    spec fn spec_sql_type() -> Seq<char>;

    /// Gets the [`ColumnType`] for dialect `D` corresponding to `Self`.
    fn sql_type() -> (r: ColumnType<D>)
        ensures
            r.0.0@ == Self::spec_sql_type(),
    ;
}

/// SQL Server SQL dialect.
#[derive(Clone, Copy, Debug)]
pub struct SqlServerDialect;

impl Dialect for SqlServerDialect {

}

/// MonetDB SQL dialect.
#[derive(Clone, Copy, Debug)]
pub struct MonetDbDialect;

impl Dialect for MonetDbDialect {

}

impl SqlDataType<SqlServerDialect> for bool {
    open spec fn spec_sql_type() -> Seq<char> {
        "BIT"@
    }

    fn sql_type() -> (r: ColumnType<SqlServerDialect>) {
        ColumnType(Object("BIT"), PhantomData)
    }
}

impl SqlDataType<SqlServerDialect> for i8 {
    open spec fn spec_sql_type() -> Seq<char> {
        "TINYINT"@
    }

    fn sql_type() -> (r: ColumnType<SqlServerDialect>) {
        ColumnType(Object("TINYINT"), PhantomData)
    }
}

impl SqlDataType<SqlServerDialect> for i16 {
    open spec fn spec_sql_type() -> Seq<char> {
        "SMALLINT"@
    }

    fn sql_type() -> (r: ColumnType<SqlServerDialect>) {
        ColumnType(Object("SMALLINT"), PhantomData)
    }
}

impl SqlDataType<SqlServerDialect> for i32 {
    open spec fn spec_sql_type() -> Seq<char> {
        "INT"@
    }

    fn sql_type() -> (r: ColumnType<SqlServerDialect>) {
        ColumnType(Object("INT"), PhantomData)
    }
}

impl SqlDataType<SqlServerDialect> for i64 {
    open spec fn spec_sql_type() -> Seq<char> {
        "BIGINT"@
    }

    fn sql_type() -> (r: ColumnType<SqlServerDialect>) {
        ColumnType(Object("BIGINT"), PhantomData)
    }
}

impl SqlDataType<SqlServerDialect> for String {
    open spec fn spec_sql_type() -> Seq<char> {
        "NVARCHAR(4000)"@
    }

    fn sql_type() -> (r: ColumnType<SqlServerDialect>) {
        ColumnType(Object("NVARCHAR(4000)"), PhantomData)
    }
}

impl SqlDataType<MonetDbDialect> for bool {
    open spec fn spec_sql_type() -> Seq<char> {
        "BOOLEAN"@
    }

    fn sql_type() -> (r: ColumnType<MonetDbDialect>) {
        ColumnType(Object("BOOLEAN"), PhantomData)
    }
}

impl SqlDataType<MonetDbDialect> for i8 {
    open spec fn spec_sql_type() -> Seq<char> {
        "TINYINT"@
    }

    fn sql_type() -> (r: ColumnType<MonetDbDialect>) {
        ColumnType(Object("TINYINT"), PhantomData)
    }
}

impl SqlDataType<MonetDbDialect> for i16 {
    open spec fn spec_sql_type() -> Seq<char> {
        "SMALLINT"@
    }

    fn sql_type() -> (r: ColumnType<MonetDbDialect>) {
        ColumnType(Object("SMALLINT"), PhantomData)
    }
}

impl SqlDataType<MonetDbDialect> for i32 {
    open spec fn spec_sql_type() -> Seq<char> {
        "INT"@
    }

    fn sql_type() -> (r: ColumnType<MonetDbDialect>) {
        ColumnType(Object("INT"), PhantomData)
    }
}

impl SqlDataType<MonetDbDialect> for i64 {
    open spec fn spec_sql_type() -> Seq<char> {
        "BIGINT"@
    }

    fn sql_type() -> (r: ColumnType<MonetDbDialect>) {
        ColumnType(Object("BIGINT"), PhantomData)
    }
}

impl SqlDataType<MonetDbDialect> for String {
    open spec fn spec_sql_type() -> Seq<char> {
        "STRING"@
    }

    fn sql_type() -> (r: ColumnType<MonetDbDialect>) {
        ColumnType(Object("STRING"), PhantomData)
    }
}

} // verus!
