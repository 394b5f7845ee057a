//! JSON-RPC 2.0 messages and the MCP tool types carried in them.
use vstd::prelude::*;
use crate::json::{Json, member, lemma_member_value_absent, lemma_member_value_distinct};
use crate::text::{int_text, push_int};

verus! {

/// A JSON-RPC request or notification (a notification has no `id`).
pub struct JsonRpcRequest {
    pub id: Option<Json>,
    pub method: String,
    pub params: Json,
}

/// The error object of a failed JSON-RPC call.
#[derive(Debug, Clone, PartialEq, Eq)]
pub struct RpcError {
    pub code: i32,
    pub message: String,
}

/// A JSON-RPC response: exactly one of `result` and `error` is present.
pub struct JsonRpcResponse {
    pub jsonrpc: String,
    pub id: Json,
    pub result: Option<Json>,
    pub error: Option<RpcError>,
}

impl JsonRpcResponse {
    /// A successful response carrying `result`.
    pub fn success(id: Json, result: Json) -> (r: JsonRpcResponse)
        ensures
            r.jsonrpc@ == "2.0"@,
            r.id == id,
            r.result == Some(result),
            r.error is None,
    {
        JsonRpcResponse { jsonrpc: String::from_str("2.0"), id, result: Some(result), error: None }
    }

    /// A failed response with the given error code and message.
    pub fn error(id: Json, code: i32, message: &str) -> (r: JsonRpcResponse)
        ensures
            r.jsonrpc@ == "2.0"@,
            r.id == id,
            r.result is None,
            r.error matches Some(e) && e.code == code && e.message@ == message@,
    {
        JsonRpcResponse {
            jsonrpc: String::from_str("2.0"),
            id,
            result: None,
            error: Some(RpcError { code, message: String::from_str(message) }),
        }
    }

    /// The response as the JSON object that goes on the wire: `jsonrpc`, `id`, and
    /// `result` or `error` where present; an error is `{"code": .., "message": ..}`.
    pub fn to_json(self) -> (j: Json)
        ensures
            j.keys() == seq!["jsonrpc"@, "id"@] + (if self.result is Some {
                seq!["result"@]
            } else {
                seq![]
            }) + (if self.error is Some {
                seq!["error"@]
            } else {
                seq![]
            }),
            j.str_field("jsonrpc"@) == Some(self.jsonrpc@),
            j.field("id"@) == Some(self.id),
            j.field("result"@) == self.result,
            match self.error {
                Some(e) => j.field("error"@) matches Some(ej) && ej.keys() == seq![
                    "code"@,
                    "message"@,
                ] && (ej.field("code"@) matches Some(Json::Number(n)) && n@ == int_text(
                    e.code as int,
                )) && ej.str_field("message"@) == Some(e.message@),
                None => j.field("error"@) is None,
            },
    {
        let ghost has_result = self.result is Some;
        let ghost has_error = self.error is Some;
        let mut members: Vec<(String, Json)> = Vec::new();
        members.push(member("jsonrpc", Json::Str(self.jsonrpc)));
        members.push(member("id", self.id));
        match self.result {
            Some(r) => members.push(member("result", r)),
            None => {},
        }
        let ghost error_object: Json = Json::Null;
        match self.error {
            Some(e) => {
                let mut code = String::new();
                push_int(&mut code, e.code);
                let mut em: Vec<(String, Json)> = Vec::new();
                em.push(member("code", Json::Number(code)));
                em.push(member("message", Json::Str(e.message)));
                let ej = Json::Object(em);
                proof {
                    reveal_strlit("code");
                    reveal_strlit("message");
                    assert("code"@.len() != "message"@.len());
                    assert(ej.keys() =~= seq!["code"@, "message"@]);
                    lemma_member_value_distinct(em@, 0);
                    lemma_member_value_distinct(em@, 1);
                    error_object = ej;
                }
                members.push(member("error", ej));
            },
            None => {},
        }
        let j = Json::Object(members);
        proof {
            reveal_strlit("jsonrpc");
            reveal_strlit("id");
            reveal_strlit("result");
            reveal_strlit("error");
            assert("jsonrpc"@.len() != "id"@.len());
            assert("jsonrpc"@.len() != "result"@.len());
            assert("jsonrpc"@.len() != "error"@.len());
            assert("id"@.len() != "result"@.len());
            assert("id"@.len() != "error"@.len());
            assert("result"@.len() != "error"@.len());
            let names = seq!["jsonrpc"@, "id"@] + (if has_result {
                seq!["result"@]
            } else {
                seq![]
            }) + (if has_error {
                seq!["error"@]
            } else {
                seq![]
            });
            assert(j.keys() =~= names);
            lemma_member_value_distinct(members@, 0);
            lemma_member_value_distinct(members@, 1);
            if has_result {
                lemma_member_value_distinct(members@, 2);
            } else {
                assert(!names.contains("result"@));
                lemma_member_value_absent(members@, "result"@);
            }
            if has_error {
                lemma_member_value_distinct(members@, members@.len() - 1);
                assert(members@[members@.len() - 1].1 == error_object);
            } else {
                assert(!names.contains("error"@));
                lemma_member_value_absent(members@, "error"@);
            }
        }
        j
    }
}

/// A tool the server offers: its name, what it does and the JSON schema of its arguments.
pub struct Tool {
    pub name: String,
    pub description: String,
    pub input_schema: Json,
}

impl Tool {
    /// The tool as the JSON object listed by `tools/list`.
    pub fn to_json(self) -> (j: Json)
        ensures
            j.keys() == seq!["name"@, "description"@, "inputSchema"@],
            j.str_field("name"@) == Some(self.name@),
            j.str_field("description"@) == Some(self.description@),
            j.field("inputSchema"@) == Some(self.input_schema),
    {
        let mut members: Vec<(String, Json)> = Vec::new();
        members.push(member("name", Json::Str(self.name)));
        members.push(member("description", Json::Str(self.description)));
        members.push(member("inputSchema", self.input_schema));
        let j = Json::Object(members);
        proof {
            reveal_strlit("name");
            reveal_strlit("description");
            reveal_strlit("inputSchema");
            assert(j.keys() =~= seq!["name"@, "description"@, "inputSchema"@]);
            assert("description"@[0] != "inputSchema"@[0]);
            assert("name"@.len() != "description"@.len());
            assert("name"@.len() != "inputSchema"@.len());
            lemma_member_value_distinct(members@, 0);
            lemma_member_value_distinct(members@, 1);
            lemma_member_value_distinct(members@, 2);
        }
        j
    }
}

/// One item of a tool result's content.
pub enum ToolContent {
    Text { text: String },
    Image { data: String, mime_type: String },
}

impl ToolContent {
    /// `j` is the JSON form of this content item.
    pub open spec fn rendered_as(self, j: Json) -> bool {
        match self {
            ToolContent::Text { text } => {
                &&& j.keys() == seq!["type"@, "text"@]
                &&& j.str_field("type"@) == Some("text"@)
                &&& j.str_field("text"@) == Some(text@)
            },
            ToolContent::Image { data, mime_type } => {
                &&& j.keys() == seq!["type"@, "data"@, "mimeType"@]
                &&& j.str_field("type"@) == Some("image"@)
                &&& j.str_field("data"@) == Some(data@)
                &&& j.str_field("mimeType"@) == Some(mime_type@)
            },
        }
    }

    /// The content item as JSON.
    pub fn to_json(self) -> (j: Json)
        ensures
            self.rendered_as(j),
    {
        match self {
            ToolContent::Text { text } => {
                let mut members: Vec<(String, Json)> = Vec::new();
                members.push(member("type", Json::string("text")));
                members.push(member("text", Json::Str(text)));
                let j = Json::Object(members);
                proof {
                    reveal_strlit("type");
                    reveal_strlit("text");
                    assert(j.keys() =~= seq!["type"@, "text"@]);
                    assert("type"@[1] != "text"@[1]);
                    lemma_member_value_distinct(members@, 0);
                    lemma_member_value_distinct(members@, 1);
                }
                j
            },
            ToolContent::Image { data, mime_type } => {
                let mut members: Vec<(String, Json)> = Vec::new();
                members.push(member("type", Json::string("image")));
                members.push(member("data", Json::Str(data)));
                members.push(member("mimeType", Json::Str(mime_type)));
                let j = Json::Object(members);
                proof {
                    reveal_strlit("type");
                    reveal_strlit("data");
                    reveal_strlit("mimeType");
                    assert(j.keys() =~= seq!["type"@, "data"@, "mimeType"@]);
                    assert("type"@[0] != "data"@[0]);
                    assert("type"@.len() != "mimeType"@.len());
                    assert("data"@.len() != "mimeType"@.len());
                    lemma_member_value_distinct(members@, 0);
                    lemma_member_value_distinct(members@, 1);
                    lemma_member_value_distinct(members@, 2);
                }
                j
            },
        }
    }
}

/// The outcome of a tool call: content for the client, and whether it reports a failure.
pub struct ToolResult {
    pub content: Vec<ToolContent>,
    pub is_error: bool,
}

/// The lines that list recovery suggestions, one `"\n- "`-prefixed line each.
pub open spec fn suggestion_lines(suggestions: Seq<Seq<char>>) -> Seq<char>
    decreases suggestions.len(),
{
    if suggestions.len() == 0 {
        Seq::empty()
    } else {
        suggestion_lines(suggestions.drop_last()) + "\n- "@ + suggestions.last()
    }
}

/// The text of an error result: the message, then the suggestions if there are any.
pub open spec fn error_text(message: Seq<char>, suggestions: Seq<Seq<char>>) -> Seq<char> {
    if suggestions.len() == 0 {
        message
    } else {
        message + "\n\nSuggestions:"@ + suggestion_lines(suggestions)
    }
}

/// The views of a list of string slices.
pub open spec fn views(items: Seq<&str>) -> Seq<Seq<char>> {
    items.map_values(|s: &str| s@)
}

impl ToolResult {
    /// The result holds exactly one text item, with this text.
    pub open spec fn single_text(self, text: Seq<char>) -> bool {
        &&& self.content@.len() == 1
        &&& self.content@[0] matches ToolContent::Text { text: t } && t@ == text
    }

    /// A successful result holding one text item.
    pub fn text(text: &str) -> (r: ToolResult)
        ensures
            !r.is_error,
            r.single_text(text@),
    {
        let mut content: Vec<ToolContent> = Vec::new();
        content.push(ToolContent::Text { text: String::from_str(text) });
        ToolResult { content, is_error: false }
    }

    /// A failed result holding one text item: the message and the recovery suggestions.
    pub fn error(message: &str, suggestions: &[&str]) -> (r: ToolResult)
        ensures
            r.is_error,
            r.single_text(error_text(message@, views(suggestions@))),
    {
        let mut text = String::from_str(message);
        if suggestions.len() > 0 {
            text.append("\n\nSuggestions:");
            let mut i: usize = 0;
            while i < suggestions.len()
                invariant
                    i <= suggestions@.len(),
                    text@ == message@ + "\n\nSuggestions:"@ + suggestion_lines(
                        views(suggestions@.take(i as int)),
                    ),
                decreases suggestions@.len() - i,
            {
                let ghost before = text@;
                text.append("\n- ");
                text.append(suggestions[i]);
                proof {
                    let vs = views(suggestions@.take(i + 1));
                    assert(vs.drop_last() =~= views(suggestions@.take(i as int)));
                    assert(vs.last() == suggestions@[i as int]@);
                }
                i += 1;
            }
            assert(suggestions@.take(suggestions@.len() as int) =~= suggestions@);
        }
        let mut content: Vec<ToolContent> = Vec::new();
        content.push(ToolContent::Text { text });
        ToolResult { content, is_error: true }
    }

    /// A successful result holding one image.
    pub fn image(data: &str, mime_type: &str) -> (r: ToolResult)
        ensures
            !r.is_error,
            r.content@.len() == 1,
            r.content@[0] matches ToolContent::Image { data: d, mime_type: m } && d@ == data@
                && m@ == mime_type@,
    {
        let mut content: Vec<ToolContent> = Vec::new();
        content.push(
            ToolContent::Image { data: String::from_str(data), mime_type: String::from_str(mime_type) },
        );
        ToolResult { content, is_error: false }
    }

    /// `j` is the JSON form of this result.
    pub open spec fn rendered_as(self, j: Json) -> bool {
        &&& j.keys() == seq!["content"@, "isError"@]
        &&& j.field("isError"@) == Some(Json::Bool(self.is_error))
        &&& j.field("content"@) matches Some(Json::Array(items)) && items@.len()
            == self.content@.len() && forall|i: int|
            0 <= i < items@.len() ==> #[trigger] self.content@[i].rendered_as(items@[i])
    }

    /// The result as the JSON object returned by `tools/call`.
    pub fn to_json(self) -> (j: Json)
        ensures
            self.rendered_as(j),
    {
        let mut items: Vec<Json> = Vec::new();
        let mut content = self.content;
        let ghost all = content@;
        // Take the items from the back, then put the JSON items in order.
        let mut reversed: Vec<Json> = Vec::new();
        while content.len() > 0
            invariant
                content@ == all.take(content@.len() as int),
                reversed@.len() == all.len() - content@.len(),
                forall|i: int|
                    0 <= i < reversed@.len() ==> #[trigger] all[all.len() - 1 - i].rendered_as(
                        reversed@[i],
                    ),
            decreases content@.len(),
        {
            let c = content.pop().unwrap();
            let ghost n = content@.len();
            proof {
                assert(c == all[n as int]);
            }
            let jc = c.to_json();
            reversed.push(jc);
            assert(content@ =~= all.take(content@.len() as int));
        }
        while reversed.len() > 0
            invariant
                items@.len() + reversed@.len() == all.len(),
                forall|i: int|
                    0 <= i < reversed@.len() ==> #[trigger] all[all.len() - 1 - i].rendered_as(
                        reversed@[i],
                    ),
                forall|i: int| 0 <= i < items@.len() ==> #[trigger] all[i].rendered_as(items@[i]),
            decreases reversed@.len(),
        {
            let ghost r = reversed@.len();
            let jc = reversed.pop().unwrap();
            proof {
                assert(all[all.len() - 1 - (r - 1)].rendered_as(jc));
            }
            items.push(jc);
        }
        let mut members: Vec<(String, Json)> = Vec::new();
        members.push(member("content", Json::Array(items)));
        members.push(member("isError", Json::Bool(self.is_error)));
        let j = Json::Object(members);
        proof {
            reveal_strlit("content");
            reveal_strlit("isError");
            assert(j.keys() =~= seq!["content"@, "isError"@]);
            assert("content"@[0] != "isError"@[0]);
            lemma_member_value_distinct(members@, 0);
            lemma_member_value_distinct(members@, 1);
        }
        j
    }
}

} // verus!
