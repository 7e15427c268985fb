use nebula_rust::connection::Connection;
use nebula_rust::connection::create_index_query_text;
use nebula_rust::connection::find_tag_or_edge_query_text;
use nebula_rust::connection::insert_edge_query_text;
use nebula_rust::connection::insert_edge_with_rank_query_text;
use nebula_rust::connection::insert_tag_query_text;
use nebula_rust::connection::response_lists_name;
use nebula_rust::graph_types::ErrorCode;
use nebula_rust::graph_types::ExecutionResponse;
use nebula_rust::graph_types::TransportError;
use nebula_rust::graph_types::rpc_result_of;
use nebula_rust::nebula_schema::ColType;
use nebula_rust::nebula_schema::DataType;
use nebula_rust::nebula_schema::Tag;
use nebula_rust::numfmt::i64_to_decimal;
use nebula_rust::numfmt::u64_to_decimal;
use nebula_rust::numfmt::u8_to_decimal;

fn conn() -> Connection {
    Connection { id: 0, address: "h:1".to_string() }
}

#[test]
fn decimal_rendering() {
    assert_eq!(u64_to_decimal(0), "0");
    assert_eq!(u64_to_decimal(7), "7");
    assert_eq!(u64_to_decimal(10), "10");
    assert_eq!(u64_to_decimal(9669), "9669");
    assert_eq!(u64_to_decimal(u64::MAX), "18446744073709551615");
    assert_eq!(u8_to_decimal(255), "255");
    assert_eq!(i64_to_decimal(0), "0");
    assert_eq!(i64_to_decimal(42), "42");
    assert_eq!(i64_to_decimal(-1), "-1");
    assert_eq!(i64_to_decimal(i64::MIN), "-9223372036854775808");
    assert_eq!(i64_to_decimal(i64::MAX), "9223372036854775807");
}

#[test]
fn format_address_joins_host_and_port() {
    assert_eq!(Connection::format_address("127.0.0.1", 9669), "127.0.0.1:9669");
}

#[test]
fn use_space_statement() {
    assert_eq!(Connection::use_space("test"), "use test;");
}

#[test]
fn create_space_query_fixed_string_with_comment() {
    let q = conn().get_create_space_query("testGraph", 15, 1, true, 50, "this is a graph for test");
    assert_eq!(
        q,
        "CREATE SPACE IF NOT EXISTS `testGraph` (partition_num = 15, replica_factor = 1, \
         vid_type = FIXED_STRING(50)) COMMENT = \"this is a graph for test\";"
    );
}

#[test]
fn create_space_query_int64_without_comment() {
    let q = conn().get_create_space_query("s", 1, 1, false, 0, "");
    assert_eq!(
        q,
        "CREATE SPACE IF NOT EXISTS `s` (partition_num = 1, replica_factor = 1, vid_type = INT64);"
    );
}

#[test]
fn create_tag_query_lists_properties() {
    let tags = vec![
        Tag::new("name", DataType::String, false, "", ""),
        Tag::new("age", DataType::Int, true, "", ""),
    ];
    let q = conn().get_create_tag_or_edge("sp", ColType::Tag, "stu", "", tags);
    assert_eq!(
        q,
        "use sp; CREATE tag IF NOT EXISTS `stu` (`name` string NOT NULL ,`age` int NULL );"
    );
}

#[test]
fn create_edge_query_with_comment() {
    let tags = vec![Tag::new("w", DataType::Double, true, "", "")];
    let q = conn().get_create_tag_or_edge("sp", ColType::Edge, "e", "c", tags);
    assert_eq!(
        q,
        "use sp; CREATE edge IF NOT EXISTS `e` (`w` double NULL ) COMMENT = \"c\";"
    );
}

#[test]
fn insert_tag_query_text_says_if_not_exists() {
    let kv = vec![
        ("name".to_string(), "\"n1\"".to_string()),
        ("age".to_string(), "12".to_string()),
    ];
    let q = insert_tag_query_text("sp", "t2", &kv, "11");
    assert_eq!(
        q,
        "use sp; INSERT VERTEX IF NOT EXISTS t2 (name,age) VALUES \"11\":(\"n1\",12);"
    );
}

#[test]
fn insert_edge_query_text_renders() {
    let kv = vec![
        ("name".to_string(), "\"n1\"".to_string()),
        ("age".to_string(), "12".to_string()),
    ];
    let q = insert_edge_query_text("sp", "e2", &kv, "11", "13");
    assert_eq!(
        q,
        "use sp; INSERT EDGE IF NOT EXISTS e2 (name,age) VALUES \"11\" -> \"13\":(\"n1\",12);"
    );
}

#[test]
fn insert_edge_with_rank_query_text_renders() {
    let kv = vec![("k".to_string(), "v".to_string())];
    let q = insert_edge_with_rank_query_text("sp", "e", &kv, "a", "b", 3);
    assert_eq!(q, "use sp; INSERT EDGE IF NOT EXISTS e (k) VALUES \"a\" -> \"b\"@3:(v);");
}

#[test]
fn create_index_query_text_bounds_and_comment() {
    let props = vec![("name".to_string(), 10u8), ("age".to_string(), 0u8)];
    let q = create_index_query_text(
        "sp",
        ColType::Tag,
        "stu",
        "index_tag",
        "this is an index for tag",
        &props,
    );
    assert_eq!(
        q,
        "use sp; CREATE tag INDEX `index_tag` on `stu`(`name`(10),`age`) \
         COMMENT \"this is an index for tag\";"
    );
}

#[test]
fn create_index_query_text_without_comment() {
    let props = vec![("age".to_string(), 0u8)];
    let q = create_index_query_text("sp", ColType::Edge, "e", "i", "", &props);
    assert_eq!(q, "use sp; CREATE edge INDEX `i` on `e`(`age`) ;");
}

#[test]
fn find_query_text_by_col_type() {
    assert_eq!(find_tag_or_edge_query_text("sp", ColType::Tag), "use sp;show tags;");
    assert_eq!(find_tag_or_edge_query_text("sp", ColType::Edge), "use sp;show edges;");
}

#[test]
fn listing_lookup_finds_a_name() {
    let resp = ExecutionResponse {
        error_code: ErrorCode::SUCCEEDED,
        column_names: vec!["Name".to_string()],
        string_values: Some(vec!["stu".to_string(), "t2".to_string()]),
    };
    assert!(response_lists_name(&resp, "stu"));
    assert!(response_lists_name(&resp, "t2"));
    assert!(!response_lists_name(&resp, "zzz"));
}

#[test]
fn listing_lookup_without_rows_finds_nothing() {
    let resp = ExecutionResponse {
        error_code: ErrorCode::SUCCEEDED,
        column_names: vec![],
        string_values: None,
    };
    assert!(!response_lists_name(&resp, "stu"));
}

#[test]
fn transport_failure_becomes_the_rpc_failure_code() {
    let r: Result<u32, TransportError> =
        Err(TransportError { message: "connection reset".to_string() });
    assert_eq!(rpc_result_of(r), Err(ErrorCode::E_RPC_FAILURE));
    let ok: Result<u32, TransportError> = Ok(5);
    assert_eq!(rpc_result_of(ok), Ok(5));
}
