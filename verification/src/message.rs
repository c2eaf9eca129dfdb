//! The JSON-RPC messages between an agent and the server.

use vstd::prelude::*;

use crate::json;
use crate::json::{Json, JsonView};
use crate::tools;

verus! {

broadcast use vstd::string::group_string_axioms;

/// The name of the server.
pub const SERVER_NAME: &'static str = "hidmaestro-mcp";

/// The protocol version that `initialize` announces.
pub const PROTOCOL_VERSION: &'static str = "2025-03-26";

/// The protocol version in which each request says what its sender speaks.
pub const MODERN_VERSION: &'static str = "2026-07-28";

/// The member of a request's metadata that holds the protocol version.
pub const VERSION_KEY: &'static str = "io.modelcontextprotocol/protocolVersion";

/// The member of a request's metadata that holds what the client can do.
pub const CAPABILITIES_KEY: &'static str = "io.modelcontextprotocol/clientCapabilities";

/// The member of a result's metadata that names the server.
pub const SERVER_INFO_KEY: &'static str = "io.modelcontextprotocol/serverInfo";

/// The code of a message that is no JSON.
pub const PARSE_ERROR: i64 = -32700;

/// The code of a request for an unknown method.
pub const METHOD_NOT_FOUND: i64 = -32601;

/// The code of a request with unusable parameters.
pub const INVALID_PARAMS: i64 = -32602;

/// An object with two members.
pub open spec fn object2(
    a: Seq<char>,
    first: JsonView,
    b: Seq<char>,
    second: JsonView,
) -> JsonView {
    JsonView::Object(Map::empty().insert(a, first).insert(b, second))
}

/// An object with one member.
pub open spec fn object1(a: Seq<char>, first: JsonView) -> JsonView {
    JsonView::Object(Map::empty().insert(a, first))
}

fn build2(a: &str, first: Json, b: &str, second: Json) -> (json: Json)
    ensures
        json.view() == object2(a@, first.view(), b@, second.view()),
{
    let mut entries: Vec<(String, Json)> = Vec::new();
    json::put(&mut entries, a, first);
    json::put(&mut entries, b, second);
    Json::Object(entries)
}

/// A document in words.
pub open spec fn words(s: Seq<char>) -> JsonView {
    JsonView::Text(s)
}

/// The content of a tool's result: one text.
pub open spec fn text_content(s: Seq<char>) -> JsonView {
    JsonView::Array(seq![object2("type"@, words("text"@), "text"@, words(s))])
}

/// The result of a tool that succeeded.
pub open spec fn tool_ok_document(s: Seq<char>) -> JsonView {
    object1("content"@, text_content(s))
}

/// The result of a tool that failed.
pub open spec fn tool_error_document(s: Seq<char>) -> JsonView {
    object2("content"@, text_content(s), "isError"@, JsonView::Bool(true))
}

/// The result of a tool.
pub open spec fn tool_result(outcome: Result<Seq<char>, Seq<char>>) -> JsonView {
    match outcome {
        Ok(s) => tool_ok_document(s),
        Err(s) => tool_error_document(s),
    }
}

fn content(s: &str) -> (json: Json)
    ensures
        json.view() == text_content(s@),
{
    let list: Vec<Json> = vec![build2("type", Json::text("text"), "text", Json::text(s))];
    proof {
        json::lemma_items(list@);
        assert(json::items(list@) =~= text_content(s@)->Array_0);
    }
    Json::Array(list)
}

/// The result of a tool that succeeded.
pub fn tool_ok(s: &str) -> (json: Json)
    ensures
        json.view() == tool_ok_document(s@),
{
    Json::single("content", content(s))
}

/// The result of a tool that failed.
pub fn tool_error(s: &str) -> (json: Json)
    ensures
        json.view() == tool_error_document(s@),
{
    build2("content", content(s), "isError", Json::Bool(true))
}

/// The response with a result.
pub open spec fn response(id: JsonView, result: JsonView) -> JsonView {
    JsonView::Object(
        Map::empty().insert("jsonrpc"@, words("2.0"@)).insert("id"@, id).insert(
            "result"@,
            result,
        ),
    )
}

/// The response with an error.
pub open spec fn error_response(id: JsonView, code: i64, s: Seq<char>) -> JsonView {
    JsonView::Object(
        Map::empty().insert("jsonrpc"@, words("2.0"@)).insert("id"@, id).insert(
            "error"@,
            object2(
                "code"@,
                JsonView::Number(json::integer_view(code)),
                "message"@,
                words(s),
            ),
        ),
    )
}

/// The response with a result.
pub fn respond(id: Json, result: Json) -> (json: Json)
    ensures
        json.view() == response(id.view(), result.view()),
{
    let mut entries: Vec<(String, Json)> = Vec::new();
    json::put(&mut entries, "jsonrpc", Json::text("2.0"));
    json::put(&mut entries, "id", id);
    json::put(&mut entries, "result", result);
    Json::Object(entries)
}

/// The response with an error.
pub fn respond_error(id: Json, code: i64, s: &str) -> (json: Json)
    ensures
        json.view() == error_response(id.view(), code, s@),
{
    let mut entries: Vec<(String, Json)> = Vec::new();
    json::put(&mut entries, "jsonrpc", Json::text("2.0"));
    json::put(&mut entries, "id", id);
    json::put(
        &mut entries,
        "error",
        build2("code", Json::integer(code), "message", Json::text(s)),
    );
    Json::Object(entries)
}

/// What the server is called, and its version.
pub open spec fn server_info(version: Seq<char>) -> JsonView {
    object2("name"@, words(SERVER_NAME@), "version"@, words(version))
}

/// The result of `initialize`.
pub open spec fn initialize_document(version: Seq<char>) -> JsonView {
    JsonView::Object(
        Map::empty().insert("protocolVersion"@, words(PROTOCOL_VERSION@)).insert(
            "capabilities"@,
            object1("tools"@, JsonView::Object(Map::empty())),
        ).insert("serverInfo"@, server_info(version)),
    )
}

/// The result of `server/discover`.
pub open spec fn discover_document(version: Seq<char>) -> JsonView {
    JsonView::Object(
        Map::empty().insert("resultType"@, words("complete"@)).insert(
            "supportedVersions"@,
            JsonView::Array(seq![words(MODERN_VERSION@)]),
        ).insert(
            "capabilities"@,
            object1("tools"@, object1("listChanged"@, JsonView::Bool(false))),
        ).insert("_meta"@, object1(SERVER_INFO_KEY@, server_info(version))),
    )
}

/// The result of `tools/list`.
pub open spec fn list_document(modern: bool) -> JsonView {
    if modern {
        object2("resultType"@, words("complete"@), "tools"@, tools::tool_list())
    } else {
        object1("tools"@, tools::tool_list())
    }
}

fn server_json(version: &str) -> (json: Json)
    ensures
        json.view() == server_info(version@),
{
    build2("name", Json::text(SERVER_NAME), "version", Json::text(version))
}

/// The result of `initialize`.
pub fn initialize_result(version: &str) -> (json: Json)
    ensures
        json.view() == initialize_document(version@),
{
    let mut entries: Vec<(String, Json)> = Vec::new();
    json::put(&mut entries, "protocolVersion", Json::text(PROTOCOL_VERSION));
    json::put(&mut entries, "capabilities", Json::single("tools", Json::Object(Vec::new())));
    json::put(&mut entries, "serverInfo", server_json(version));
    Json::Object(entries)
}

/// The result of `server/discover`.
pub fn discover_result(version: &str) -> (json: Json)
    ensures
        json.view() == discover_document(version@),
{
    let versions: Vec<Json> = vec![Json::text(MODERN_VERSION)];
    proof {
        json::lemma_items(versions@);
        assert(json::items(versions@) =~= seq![words(MODERN_VERSION@)]);
    }
    let mut entries: Vec<(String, Json)> = Vec::new();
    json::put(&mut entries, "resultType", Json::text("complete"));
    json::put(&mut entries, "supportedVersions", Json::Array(versions));
    json::put(
        &mut entries,
        "capabilities",
        Json::single("tools", Json::single("listChanged", Json::Bool(false))),
    );
    json::put(&mut entries, "_meta", Json::single(SERVER_INFO_KEY, server_json(version)));
    Json::Object(entries)
}

/// The result of `tools/list`.
pub fn list_result(modern: bool) -> (json: Json)
    ensures
        json.view() == list_document(modern),
{
    if modern {
        build2("resultType", Json::text("complete"), "tools", tools::tools())
    } else {
        Json::single("tools", tools::tools())
    }
}

/// What stands under a key of the parameters.
pub open spec fn parameter(message: JsonView, key: Seq<char>) -> Option<JsonView> {
    match json::member(message, "params"@) {
        Some(params) => json::member(params, key),
        None => None,
    }
}

/// A request that says, in its metadata, that its sender speaks the protocol
/// version in which it has to, and what it can do.
pub open spec fn is_modern(message: JsonView) -> bool {
    match parameter(message, "_meta"@) {
        Some(metadata) => {
            &&& json::text_in(json::member(metadata, VERSION_KEY@)) == Some(MODERN_VERSION@)
            &&& json::member(metadata, CAPABILITIES_KEY@) matches Some(JsonView::Object(_))
        },
        None => false,
    }
}

/// What stands under a key of the parameters.
pub fn find_parameter<'a>(message: &'a Json, key: &str) -> (found: Option<&'a Json>)
    ensures
        json::maybe(found) == parameter(message.view(), key@),
{
    match message.get("params") {
        Some(params) => params.get(key),
        None => None,
    }
}

/// Whether a request carries the metadata of the newer protocol version.
pub fn speaks_modern(message: &Json) -> (modern: bool)
    ensures
        modern == is_modern(message.view()),
{
    match find_parameter(message, "_meta") {
        Some(metadata) => {
            let version = match metadata.get(VERSION_KEY) {
                Some(value) => match value.as_str() {
                    Some(s) => crate::text::same_text(s, MODERN_VERSION),
                    None => false,
                },
                None => false,
            };
            let capabilities = match metadata.get(CAPABILITIES_KEY) {
                Some(Json::Object(_)) => true,
                _ => false,
            };
            version && capabilities
        },
        None => false,
    }
}

proof fn lemma_message_keys()
    ensures
        "content"@ != "isError"@,
        "type"@ != "text"@,
        "name"@ != "version"@,
        "protocolVersion"@ != "capabilities"@,
        "protocolVersion"@ != "serverInfo"@,
        "capabilities"@ != "serverInfo"@,
        "resultType"@ != "tools"@,
        "resultType"@ != "supportedVersions"@,
        "resultType"@ != "capabilities"@,
        "resultType"@ != "_meta"@,
        "supportedVersions"@ != "capabilities"@,
        "supportedVersions"@ != "_meta"@,
        "capabilities"@ != "_meta"@,
{
    reveal_strlit("content");
    reveal_strlit("isError");
    reveal_strlit("type");
    reveal_strlit("text");
    reveal_strlit("name");
    reveal_strlit("version");
    reveal_strlit("protocolVersion");
    reveal_strlit("capabilities");
    reveal_strlit("serverInfo");
    reveal_strlit("resultType");
    reveal_strlit("tools");
    reveal_strlit("supportedVersions");
    reveal_strlit("_meta");
    assert("content"@[0] == 'c');
    assert("isError"@[0] == 'i');
    assert("type"@[1] == 'y');
    assert("text"@[1] == 'e');
    assert("name"@.len() == 4);
    assert("version"@.len() == 7);
    assert("protocolVersion"@.len() == 15);
    assert("capabilities"@.len() == 12);
    assert("serverInfo"@.len() == 10);
    assert("resultType"@.len() == 10);
    assert("tools"@.len() == 5);
    assert("supportedVersions"@.len() == 17);
    assert("_meta"@.len() == 5);
}

/// The text that the result of a tool says.
pub open spec fn said_by(document: JsonView) -> Option<Seq<char>> {
    match json::member(document, "content"@) {
        Some(JsonView::Array(list)) => if list.len() == 1 && json::member(list[0], "type"@)
            == Some(JsonView::Text("text"@)) {
            json::text_in(json::member(list[0], "text"@))
        } else {
            None
        },
        _ => None,
    }
}

/// The result of a tool says its text, and is marked as an error exactly if the tool
/// failed.
pub proof fn law_tool_results_say_their_text(s: Seq<char>)
    ensures
        said_by(tool_result(Ok(s))) == Some(s),
        json::member(tool_result(Ok(s)), "isError"@) is None,
        said_by(tool_result(Err(s))) == Some(s),
        json::member(tool_result(Err(s)), "isError"@) == Some(JsonView::Bool(true)),
{
    lemma_message_keys();
}

/// The document names the server and its version.
pub open spec fn names_server(document: Option<JsonView>, version: Seq<char>) -> bool {
    document matches Some(info) && {
        &&& json::member(info, "name"@) == Some(JsonView::Text("hidmaestro-mcp"@))
        &&& json::member(info, "version"@) == Some(JsonView::Text(version))
    }
}

/// What is announced names the protocol version, the server with its own version, and
/// that there are tools.
pub proof fn law_announcements(version: Seq<char>)
    ensures
        ({
            let document = initialize_document(version);
            &&& json::member(document, "protocolVersion"@) == Some(JsonView::Text("2025-03-26"@))
            &&& json::member(document, "capabilities"@) matches Some(can) && json::member(
                can,
                "tools"@,
            ) == Some(JsonView::Object(Map::empty()))
            &&& names_server(json::member(document, "serverInfo"@), version)
        }),
        ({
            let document = discover_document(version);
            &&& json::member(document, "resultType"@) == Some(JsonView::Text("complete"@))
            &&& json::member(document, "supportedVersions"@) == Some(
                JsonView::Array(seq![JsonView::Text("2026-07-28"@)]),
            )
            &&& json::member(document, "capabilities"@) matches Some(can) && (json::member(
                can,
                "tools"@,
            ) matches Some(tools) && json::member(tools, "listChanged"@) == Some(
                JsonView::Bool(false),
            ))
            &&& json::member(document, "_meta"@) matches Some(metadata) && names_server(
                json::member(metadata, "io.modelcontextprotocol/serverInfo"@),
                version,
            )
        }),
        json::member(list_document(true), "resultType"@) == Some(JsonView::Text("complete"@)),
        json::member(list_document(false), "resultType"@) is None,
        json::member(list_document(true), "tools"@) == json::member(
            list_document(false),
            "tools"@,
        ),
        json::member(list_document(false), "tools"@) == Some(tools::tool_list()),
{
    lemma_message_keys();
}

/// A request speaks the newer protocol version exactly if its metadata name that version
/// and hold what the client can do, whatever else they hold.
pub proof fn law_metadata_decide(
    message: JsonView,
    metadata: JsonView,
    version: Seq<char>,
    can: JsonView,
)
    requires
        json::member(message, "params"@) matches Some(params) && json::member(params, "_meta"@)
            == Some(metadata),
        json::member(metadata, "io.modelcontextprotocol/protocolVersion"@) == Some(
            JsonView::Text(version),
        ),
        json::member(metadata, "io.modelcontextprotocol/clientCapabilities"@) == Some(can),
    ensures
        is_modern(message) <==> version == "2026-07-28"@ && can is Object,
{
}

} // verus!
