use nebula_rust::nebula_schema::ColType;
use nebula_rust::nebula_schema::DataType;
use nebula_rust::nebula_schema::InsertEdgeQueryWithRank;
use nebula_rust::nebula_schema::InsertTagQuery;
use nebula_rust::nebula_schema::Tag;

#[test]
fn data_type_keywords() {
    assert_eq!(DataType::Int.to_string(), "int");
    assert_eq!(DataType::Bool.to_string(), "bool");
    assert_eq!(DataType::String.to_string(), "string");
    assert_eq!(DataType::FixedString.to_string(), "fixed_string");
    assert_eq!(DataType::Double.to_string(), "double");
    assert_eq!(DataType::Int32.to_string(), "int32");
    assert_eq!(DataType::Int16.to_string(), "int16");
    assert_eq!(DataType::Int8.to_string(), "int8");
    assert_eq!(DataType::Float.to_string(), "float");
    assert_eq!(DataType::Date.to_string(), "date");
    assert_eq!(DataType::Time.to_string(), "time");
}

#[test]
fn col_type_keywords() {
    assert_eq!(ColType::Tag.to_string(), "tag");
    assert_eq!(ColType::Edge.to_string(), "edge");
}

#[test]
fn tag_renders_nullability() {
    let t = Tag::new("name", DataType::String, false, "", "");
    assert_eq!(t.to_string(), "`name` string NOT NULL ");
    let t = Tag::new("age", DataType::Int, true, "", "");
    assert_eq!(t.to_string(), "`age` int NULL ");
}

#[test]
fn tag_renders_default_and_comment() {
    let t = Tag::new("name", DataType::FixedString, true, "x", "a comment");
    assert_eq!(t.to_string(), "`name` fixed_string NULL DEFAULT \"x\" COMMENT \"a comment\" ");
}

#[test]
fn insert_tag_query_renders() {
    let kv = vec![
        ("name".to_string(), "\"n1\"".to_string()),
        ("age".to_string(), "12".to_string()),
    ];
    let q = InsertTagQuery::new("sp".to_string(), "t2".to_string(), kv, "11".to_string());
    assert_eq!(
        q.to_string(),
        "use sp; INSERT VERTEX t2 (name,age) VALUES \"11\":(\"n1\",12);"
    );
}

#[test]
fn insert_tag_query_with_no_properties() {
    let q = InsertTagQuery::new("sp".to_string(), "t".to_string(), vec![], "v".to_string());
    assert_eq!(q.to_string(), "use sp; INSERT VERTEX t () VALUES \"v\":();");
}

#[test]
fn insert_tag_query_empty_first_key_omits_the_separator() {
    // The separating comma appears only once the key list holds more
    // than its opening parenthesis, so an empty first pair leaves both
    // lists unseparated.
    let kv = vec![
        ("".to_string(), "".to_string()),
        ("k".to_string(), "v".to_string()),
    ];
    let q = InsertTagQuery::new("sp".to_string(), "t".to_string(), kv, "1".to_string());
    assert_eq!(q.to_string(), "use sp; INSERT VERTEX t (k) VALUES \"1\":(v);");
}

#[test]
fn insert_edge_query_with_rank_renders() {
    let kv = vec![
        ("name".to_string(), "\"n1\"".to_string()),
        ("age".to_string(), "12".to_string()),
    ];
    let q = InsertEdgeQueryWithRank::new(
        "sp".to_string(),
        "e2".to_string(),
        kv,
        "11".to_string(),
        "13".to_string(),
        1,
    );
    assert_eq!(
        q.to_string(),
        "use sp; INSERT EDGE IF NOT EXISTS e2 (name,age) VALUES \"11\" -> \"13\"@1:(\"n1\",12);"
    );
}

#[test]
fn insert_edge_query_with_negative_rank() {
    let q = InsertEdgeQueryWithRank::new(
        "sp".to_string(),
        "e".to_string(),
        vec![("k".to_string(), "v".to_string())],
        "a".to_string(),
        "b".to_string(),
        -7,
    );
    assert_eq!(
        q.to_string(),
        "use sp; INSERT EDGE IF NOT EXISTS e (k) VALUES \"a\" -> \"b\"@-7:(v);"
    );
}
