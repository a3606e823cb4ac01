use format_sql_query::{
    Column, ColumnSchema, MonetDbDialect, Object, SqlDataType, SqlServerDialect,
};

#[test]
fn boolean_differs_by_dialect() {
    assert_eq!(
        "BIT",
        <bool as SqlDataType<SqlServerDialect>>::sql_type().as_str()
    );
    assert_eq!(
        "BOOLEAN",
        <bool as SqlDataType<MonetDbDialect>>::sql_type().as_str()
    );
}

#[test]
fn sql_server_type_names() {
    assert_eq!(
        "TINYINT",
        <i8 as SqlDataType<SqlServerDialect>>::sql_type().as_str()
    );
    assert_eq!(
        "SMALLINT",
        <i16 as SqlDataType<SqlServerDialect>>::sql_type().as_str()
    );
    assert_eq!(
        "INT",
        <i32 as SqlDataType<SqlServerDialect>>::sql_type().as_str()
    );
    assert_eq!(
        "BIGINT",
        <i64 as SqlDataType<SqlServerDialect>>::sql_type().as_str()
    );
    assert_eq!(
        "NVARCHAR(4000)",
        <String as SqlDataType<SqlServerDialect>>::sql_type().as_str()
    );
}

#[test]
fn monet_db_type_names() {
    assert_eq!(
        "TINYINT",
        <i8 as SqlDataType<MonetDbDialect>>::sql_type().as_str()
    );
    assert_eq!(
        "SMALLINT",
        <i16 as SqlDataType<MonetDbDialect>>::sql_type().as_str()
    );
    assert_eq!(
        "INT",
        <i32 as SqlDataType<MonetDbDialect>>::sql_type().as_str()
    );
    assert_eq!(
        "BIGINT",
        <i64 as SqlDataType<MonetDbDialect>>::sql_type().as_str()
    );
    assert_eq!(
        "STRING",
        <String as SqlDataType<MonetDbDialect>>::sql_type().as_str()
    );
}

#[test]
fn column_schema_renders_name_and_type() {
    let cs = ColumnSchema(
        Column(Object("age")),
        <i32 as SqlDataType<SqlServerDialect>>::sql_type(),
    );
    assert_eq!("age INT", &cs.to_sql().unwrap());
    assert_eq!("age", cs.column().as_str());
    assert_eq!("INT", cs.column_type().as_str());
}

#[test]
fn column_schema_quotes_name_with_space() {
    let cs = ColumnSchema(
        Column(Object("full name")),
        <String as SqlDataType<MonetDbDialect>>::sql_type(),
    );
    assert_eq!(r#""full name" STRING"#, &cs.to_sql().unwrap());
}

#[test]
fn column_type_renders_as_identifier() {
    let t = <bool as SqlDataType<SqlServerDialect>>::sql_type();
    assert_eq!("BIT", &t.to_sql().unwrap());
}
