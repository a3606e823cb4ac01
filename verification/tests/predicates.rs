use format_sql_query::Predicates;

#[test]
fn it_works() {
    assert_eq!(
        Predicates::from("foo = 'bar'".to_string())
            .and("baz".to_string())
            .and_all(vec!["hello".to_string(), "world".to_string()])
            .and_all(
                Predicates::from_all(vec!["abc".to_string(), "123".to_string()]).into_vec()
            )
            .as_where()
            .to_sql(),
        "WHERE foo = \'bar\'\nAND baz\nAND hello\nAND world\nAND abc\nAND 123"
    );
}

#[test]
fn empty_predicates_render_bare_keyword() {
    assert_eq!("WHERE ", &Predicates::new().as_where().to_sql());
}

#[test]
fn single_predicate_has_no_and() {
    assert_eq!(
        "WHERE a = 1",
        &Predicates::from("a = 1".to_string()).as_where().to_sql()
    );
}

#[test]
fn and_push_and_extend_preserve_order() {
    let mut p = Predicates::new();
    p.and_push("first".to_string());
    p.and_extend(vec!["second".to_string(), "third".to_string()]);
    assert_eq!(
        "WHERE first\nAND second\nAND third",
        &p.as_where().to_sql()
    );
}

#[test]
fn rendering_is_repeatable() {
    let p = Predicates::from_all(vec!["x > 0".to_string(), "y < 9".to_string()]);
    let first = p.as_where().to_sql();
    let second = p.as_where().to_sql();
    assert_eq!(first, second);
    assert_eq!("WHERE x > 0\nAND y < 9", &first);
}

#[test]
fn predicate_content_is_not_inspected() {
    assert_eq!(
        "WHERE a OR 'b\\'",
        &Predicates::from("a OR 'b\\'".to_string()).as_where().to_sql()
    );
}

#[test]
fn into_vec_hands_fragments_back() {
    let p = Predicates::from("a".to_string()).and("b".to_string());
    assert_eq!(vec!["a".to_string(), "b".to_string()], p.into_vec());
}
