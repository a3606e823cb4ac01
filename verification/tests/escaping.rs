use format_sql_query::{
    Column, MapQuotedData, Object, ObjectConcat, QuotedData, QuotedDataConcat, Schema,
    SchemaTable, Table, UnsupportedIdentifierCharacter,
};

#[test]
fn build_select() {
    assert_eq!(
        r#"SELECT "foo bar" FROM foo.baz_quix WHERE blah = 'hello ''world'' foo'"#,
        &format!(
            "SELECT {} FROM {} WHERE {} = {}",
            Column("foo bar".into()).to_sql().unwrap(),
            SchemaTable("foo".into(), "baz".into())
                .with_postfix("_quix")
                .to_sql()
                .unwrap(),
            Column("blah".into()).to_sql().unwrap(),
            QuotedData("hello 'world' foo").to_sql()
        )
    )
}

#[test]
fn build_object_concat() {
    assert_eq!(
        r#""hello ""world"" foo_""quix""""#,
        &ObjectConcat(&[r#"hello "world" foo"#, r#"_"quix""#])
            .to_sql()
            .unwrap()
    );

    assert_eq!(
        "foo_bar_baz",
        &ObjectConcat(&["foo_", "bar", "_baz"]).to_sql().unwrap()
    );
}

#[test]
fn plain_identifier_is_concatenation() {
    let frags = ["alpha", "_", "beta42"];
    let rendered = ObjectConcat(&frags).to_sql().unwrap();
    assert_eq!(rendered, frags.concat());
}

#[test]
fn quoted_identifier_round_trip() {
    let frags = [r#"a"b"#, " c"];
    let rendered = ObjectConcat(&frags).to_sql().unwrap();
    assert_eq!(r#""a""b c""#, &rendered);
    assert!(rendered.starts_with('"') && rendered.ends_with('"'));
    let inner = &rendered[1..rendered.len() - 1];
    assert_eq!(inner.replace("\"\"", "\""), frags.concat());
}

#[test]
fn identifier_with_quote_or_backslash_fails() {
    assert_eq!(
        Err(UnsupportedIdentifierCharacter),
        Object("don't").to_sql()
    );
    assert_eq!(
        Err(UnsupportedIdentifierCharacter),
        Object(r"a\b").to_sql()
    );
    assert_eq!(
        Err(UnsupportedIdentifierCharacter),
        ObjectConcat(&["fine", "not'fine"]).to_sql()
    );
    assert_eq!(
        Err(UnsupportedIdentifierCharacter),
        SchemaTable(Schema(Object("foo")), Table(Object(r"ba\z"))).to_sql()
    );
}

#[test]
fn literal_round_trip() {
    let raw = r"it's a\path";
    let rendered = QuotedData(raw).to_sql();
    assert_eq!(r"'it''s a\\path'", &rendered);
    assert!(rendered.starts_with('\'') && rendered.ends_with('\''));
    let inner = &rendered[1..rendered.len() - 1];
    assert_eq!(inner.replace("''", "'").replace(r"\\", r"\"), raw);
}

#[test]
fn literal_of_empty_string() {
    assert_eq!("''", &QuotedData("").to_sql());
}

#[test]
fn quoted_data_concat_spans_fragments() {
    assert_eq!(
        "'one''two'",
        &QuotedDataConcat(&["one'", "two"]).to_sql()
    );
}

#[test]
fn quoted_data_example() {
    assert_eq!(
        "'hello ''world'' foo'",
        &QuotedData("hello 'world' foo").to_sql()
    );
}

#[test]
fn column_with_space_is_quoted() {
    assert_eq!(r#""foo bar""#, &Column(Object("foo bar")).to_sql().unwrap());
}

#[test]
fn schema_table_renders_dotted() {
    let st = SchemaTable(Schema(Object("foo")), Table(Object("baz")));
    assert_eq!("foo.baz", &st.to_sql().unwrap());
    assert_eq!("foo.baz_quix", &st.with_postfix("_quix").to_sql().unwrap());
    assert_eq!(
        "foo.baz_quix",
        &st.with_postfix_sep("quix", "_").to_sql().unwrap()
    );
}

#[test]
fn schema_table_quoting_spans_all_fragments() {
    let st = SchemaTable(Schema(Object("f oo")), Table(Object("baz")));
    assert_eq!(r#""f oo.baz""#, &st.to_sql().unwrap());
    assert_eq!(r#""f oo.baz_quix""#, &st.with_postfix("_quix").to_sql().unwrap());
}

#[test]
fn schema_table_getters() {
    let st = SchemaTable(Schema(Object("foo")), Table(Object("baz")));
    assert_eq!("foo", st.schema().as_str());
    assert_eq!("baz", st.table().as_str());
}

#[test]
fn table_with_schema() {
    let st = Table(Object("baz")).with_schema(Schema(Object("foo")));
    assert_eq!("foo.baz", &st.to_sql().unwrap());
}

#[test]
fn table_postfix_single_quoting_decision() {
    let table = Table(Object("stage"));
    assert_eq!("stage_old", &table.with_postfix("_old").to_sql().unwrap());
    assert_eq!(
        r#""stage old""#,
        &table.with_postfix(" old").to_sql().unwrap()
    );
    assert_eq!(
        "stage_old",
        &table.with_postfix_sep("old", "_").to_sql().unwrap()
    );
}

#[test]
fn identifier_as_quoted_data() {
    assert_eq!("'foo bar'", &Object("foo bar").as_quoted_data().to_sql());
    assert_eq!("'foo'", &Schema(Object("foo")).as_quoted_data().to_sql());
    assert_eq!("'baz'", &Table(Object("baz")).as_quoted_data().to_sql());
    assert_eq!("'blah'", &Column(Object("blah")).as_quoted_data().to_sql());
    assert_eq!(
        "'foo.baz'",
        &SchemaTable(Schema(Object("foo")), Table(Object("baz")))
            .as_quoted_data()
            .to_sql()
    );
    assert_eq!(
        "'foo.baz_quix'",
        &SchemaTable(Schema(Object("foo")), Table(Object("baz")))
            .with_postfix("_quix")
            .as_quoted_data()
            .to_sql()
    );
}

#[test]
fn as_str_returns_original() {
    assert_eq!("foo bar", Object("foo bar").as_str());
    assert_eq!("a'b", QuotedData("a'b").as_str());
    assert_eq!("s", Schema(Object("s")).as_str());
    assert_eq!("t", Table(Object("t")).as_str());
    assert_eq!("c", Column(Object("c")).as_str());
}

#[test]
fn map_quoted_data() {
    let mapped: MapQuotedData<'_, _> = QuotedData("hello 'world'").map(|s: &str| s.to_uppercase());
    assert_eq!("'HELLO ''WORLD'''", &mapped.to_sql());
}

#[test]
fn empty_fragment_list_renders_empty() {
    let frags: [&str; 0] = [];
    assert_eq!("", &ObjectConcat(&frags).to_sql().unwrap());
    assert_eq!("''", &QuotedDataConcat(&frags).to_sql());
}
