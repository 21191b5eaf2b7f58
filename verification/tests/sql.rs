use caco3::web::sql::{keep_sql_line, sql_trim_boxed as trim_query, SqlTrimBoxed};

#[test]
fn sql_trim_boxed() {
    let query = "-- This is comment\nSELECT * FROM users;\n";
    let actual = query.sql_trim_boxed();
    let expect = "SELECT * FROM users;";
    assert_eq!(actual.as_ref().trim(), expect);

    let query = "-- PREPARE data_request__update_fsm_state(bigint, fsm_state, timestamptz) AS\nUPDATE data_request\nSET fsm_state     = $2,\n    -- Also comment here\n    modified_date = $3\nWHERE data_request_id = $1;\n-- Comment after sql\n";
    let actual = query.sql_trim_boxed();
    let expect = "UPDATE data_request\nSET fsm_state     = $2,\n    modified_date = $3\nWHERE data_request_id = $1;\n";
    assert_eq!(actual.as_ref().trim(), expect.trim());
}

#[test]
fn sql_lines_that_are_kept() {
    assert_eq!(keep_sql_line("SELECT 1"), Some("SELECT 1"));
    assert_eq!(keep_sql_line("  SELECT 1 -- one"), Some("  SELECT 1 -- one"));
    assert_eq!(keep_sql_line("- x"), Some("- x"));
    assert_eq!(keep_sql_line("/* block */"), Some("/* block */"));
    assert_eq!(keep_sql_line("-- x"), None);
    assert_eq!(keep_sql_line("   --"), None);
    assert_eq!(keep_sql_line(""), None);
    assert_eq!(keep_sql_line(" \t "), None);
}

#[test]
fn sql_trim_keeps_the_lines_as_they_are() {
    assert_eq!(trim_query("").as_ref(), "");
    assert_eq!(trim_query("-- only\n\n").as_ref(), "");
    assert_eq!(trim_query("  a  \r\n\r\n--b\n  c").as_ref(), "  a  \n  c");
    assert_eq!(String::from("x\n--y\nz").sql_trim_boxed().as_ref(), "x\nz");
}
