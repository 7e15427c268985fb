use nebula_rust::connection::Connection;
use nebula_rust::connection_pool::ConnectionPool_nebula;
use nebula_rust::graph_types::AuthResponse;
use nebula_rust::graph_types::ErrorCode;
use nebula_rust::nebula_schema::ColType;
use nebula_rust::nebula_schema::DataType;
use nebula_rust::nebula_schema::Tag;
use nebula_rust::pool_config::PoolConfig;
use nebula_rust::session::Session;

fn pool_with_one_idle() -> ConnectionPool_nebula {
    let mut c = PoolConfig::new();
    c.min_connection_pool_size(1);
    c.max_connection_pool_size(4);
    c.address("a:1".to_string());
    let mut pool = ConnectionPool_nebula::new(&c);
    pool.create_new_connection(&vec![true]);
    pool
}

fn success_response() -> AuthResponse {
    AuthResponse {
        error_code: ErrorCode::SUCCEEDED,
        session_id: Some(77),
        time_zone_offset_seconds: Some(28800),
        time_zone_name: Some("Asia/Shanghai".to_string()),
    }
}

#[test]
fn a_successful_authentication_yields_a_session() {
    let mut pool = pool_with_one_idle();
    let conn = pool.acquire_idle().unwrap();
    let session = Session::from_auth_response(
        conn,
        "root".to_string(),
        "nebula".to_string(),
        true,
        success_response(),
    )
    .unwrap();
    assert_eq!(session.session_id(), 77);
    assert_eq!(session.time_zone_name(), "Asia/Shanghai");
    assert_eq!(session.offset_secs(), 28800);
}

#[test]
fn an_unnamed_time_zone_reads_as_empty() {
    let mut pool = pool_with_one_idle();
    let conn = pool.acquire_idle().unwrap();
    let resp = AuthResponse { time_zone_name: None, ..success_response() };
    let session =
        Session::from_auth_response(conn, "root".to_string(), "nebula".to_string(), false, resp)
            .unwrap();
    assert_eq!(session.time_zone_name(), "");
    assert_eq!(session.offset_secs(), 28800);
}

#[test]
fn rejected_credentials_surface_the_server_code_and_leak_the_handle() {
    // The server answered, so the failure is its error code — never the
    // transport-failure signal.  The borrowed connection is deliberately
    // not returned to the idle collection: the pool still accounts for
    // it, and the idle count stays at zero.
    let mut pool = pool_with_one_idle();
    let conn = pool.acquire_idle().unwrap();
    let resp = AuthResponse {
        error_code: ErrorCode::E_BAD_USERNAME_PASSWORD,
        session_id: None,
        time_zone_offset_seconds: None,
        time_zone_name: None,
    };
    let r = Session::from_auth_response(
        conn,
        "root".to_string(),
        "wrong-password".to_string(),
        true,
        resp,
    );
    let code = r.unwrap_err();
    assert_eq!(code, ErrorCode::E_BAD_USERNAME_PASSWORD);
    assert_ne!(code, ErrorCode::E_RPC_FAILURE);
    assert_eq!(pool.len(), 0);
    // Growth can still replace the leaked handle up to the cap.
    pool.new_connection(1, &vec![true]);
    assert_eq!(pool.len(), 1);
}

#[test]
fn termination_signs_out_and_returns_the_connection_once() {
    let mut pool = pool_with_one_idle();
    let conn = pool.acquire_idle().unwrap();
    let taken_id = conn.id;
    let session = Session::from_auth_response(
        conn,
        "root".to_string(),
        "nebula".to_string(),
        false,
        success_response(),
    )
    .unwrap();
    assert_eq!(pool.len(), 0);

    // The termination protocol, in order: the id to sign out with the
    // server first, then the handle back to the pool.  `terminate`
    // consumes the session, so this can happen only once.
    let (signout_id, conn) = session.terminate();
    assert_eq!(signout_id, 77);
    assert_eq!(conn.id, taken_id);
    pool.give_back(conn);
    assert_eq!(pool.len(), 1);
}

#[test]
fn session_constructor_stores_its_parts() {
    let conn = Connection { id: 9, address: "a:1".to_string() };
    let s = Session::new(
        5,
        conn,
        "u".to_string(),
        "p".to_string(),
        "UTC".to_string(),
        0,
        true,
    );
    assert_eq!(s.session_id(), 5);
    assert_eq!(s.time_zone_name(), "UTC");
    assert_eq!(s.offset_secs(), 0);
}

#[test]
fn session_builds_the_same_query_text_as_the_connection() {
    let conn = Connection { id: 0, address: "a:1".to_string() };
    let s = Session::new(
        1,
        conn,
        "u".to_string(),
        "p".to_string(),
        String::new(),
        0,
        false,
    );
    assert_eq!(
        s.get_create_space_query("g", 3, 1, false, 0, ""),
        "CREATE SPACE IF NOT EXISTS `g` (partition_num = 3, replica_factor = 1, vid_type = INT64);"
    );
    let tags = vec![Tag::new("name", DataType::String, false, "", "")];
    assert_eq!(
        s.get_create_tag_or_edge("sp", ColType::Tag, "stu", "", tags),
        "use sp; CREATE tag IF NOT EXISTS `stu` (`name` string NOT NULL );"
    );
    assert_eq!(Session::use_space("sp"), "use sp;");
}
