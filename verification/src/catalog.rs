//! What the server announces: its identity (`initialize`) and its tools (`tools/list`).
use vstd::prelude::*;
use crate::json::{Json, JsonValue, entry};
use crate::response::{object_of, str_of};

verus! {

/// The input schema of a tool that takes no argument.
pub open spec fn no_input() -> JsonValue {
    object_of(seq![("type"@, str_of("object"@)), ("properties"@, object_of(seq![]))])
}

/// The input schema of a tool with the given properties, all of them required.
pub open spec fn input_schema(
    properties: Seq<(Seq<char>, JsonValue)>,
    required: Seq<JsonValue>,
) -> JsonValue {
    object_of(
        seq![
            ("type"@, str_of("object"@)),
            ("properties"@, object_of(properties)),
            ("required"@, JsonValue::Array(required)),
        ],
    )
}

/// A string argument with the given description.
pub open spec fn string_argument(description: Seq<char>) -> JsonValue {
    object_of(seq![("type"@, str_of("string"@)), ("description"@, str_of(description))])
}

/// The `priority` argument: one of the four priority names.
pub open spec fn priority_argument() -> JsonValue {
    object_of(
        seq![
            ("type"@, str_of("string"@)),
            ("enum"@, JsonValue::Array(seq![str_of("Low"@), str_of("Normal"@), str_of("High"@), str_of("Auto"@)])),
            ("description"@, str_of("Nueva prioridad"@)),
        ],
    )
}

/// The `hash` argument.
pub open spec fn hash_argument() -> JsonValue {
    string_argument("Hash de la descarga"@)
}

/// The description of one tool.
pub open spec fn tool(name: Seq<char>, description: Seq<char>, schema: JsonValue) -> JsonValue {
    object_of(seq![("name"@, str_of(name)), ("description"@, str_of(description)), ("inputSchema"@, schema)])
}

/// The input schema of the tools that take a download's hash.
pub open spec fn hash_input() -> JsonValue {
    input_schema(seq![("hash"@, hash_argument())], seq![str_of("hash"@)])
}

/// The tools that the server offers, in the order it lists them.
pub open spec fn tool_catalog() -> Seq<JsonValue> {
    seq![
        tool("get_status"@, "Muestra el estado global de conexiones de aMule"@, no_input()),
        tool("list_downloads"@, "Muestra la lista de descargas activas"@, no_input()),
        tool(
            "add_link"@,
            "Añade un nuevo enlace eD2k o Magnet"@,
            input_schema(seq![("link"@, string_argument("El enlace eD2k completo"@))], seq![str_of("link"@)]),
        ),
        tool("pause_download"@, "Pausa una descarga individual por su hash"@, hash_input()),
        tool("pause_all_downloads"@, "Pausa todas las descargas activas"@, no_input()),
        tool("resume_download"@, "Reanuda una descarga pausada por su hash"@, hash_input()),
        tool("resume_all_downloads"@, "Reanuda todas las descargas pausadas"@, no_input()),
        tool("cancel_download"@, "Elimina/cancela una descarga individual por su hash"@, hash_input()),
        tool("cancel_all_downloads"@, "Elimina todas las descargas activas"@, no_input()),
        tool(
            "set_priority"@,
            "Cambia la prioridad de una descarga individual"@,
            input_schema(
                seq![("hash"@, hash_argument()), ("priority"@, priority_argument())],
                seq![str_of("hash"@), str_of("priority"@)],
            ),
        ),
        tool(
            "set_priority_all"@,
            "Cambia la prioridad de todas las descargas"@,
            input_schema(seq![("priority"@, priority_argument())], seq![str_of("priority"@)]),
        ),
    ]
}

/// The answer to `tools/list`.
pub open spec fn tools_list_response(id: JsonValue) -> JsonValue {
    object_of(
        seq![
            ("jsonrpc"@, str_of("2.0"@)),
            ("id"@, id),
            ("result"@, object_of(seq![("tools"@, JsonValue::Array(tool_catalog()))])),
        ],
    )
}

/// The answer to `initialize`: protocol version, capabilities and server identity.
pub open spec fn initialize_response(id: JsonValue) -> JsonValue {
    object_of(
        seq![
            ("jsonrpc"@, str_of("2.0"@)),
            ("id"@, id),
            ("result"@, object_of(seq![
                ("protocolVersion"@, str_of("2024-11-05"@)),
                ("capabilities"@, object_of(seq![("tools"@, object_of(seq![]))])),
                ("serverInfo"@, object_of(seq![("name"@, str_of("amule-mcp"@)), ("version"@, str_of("0.1.0"@))])),
            ])),
        ],
    )
}

fn no_input_json() -> (r: Json)
    ensures
        r@ == no_input(),
{
    let props = Json::object(Vec::new());
    assert(props@->Object_0 =~= seq![]);
    let r = Json::object(vec![entry("type", Json::text("object")), entry("properties", props)]);
    assert(r@->Object_0 =~= no_input()->Object_0);
    r
}

fn string_argument_json(description: &str) -> (r: Json)
    ensures
        r@ == string_argument(description@),
{
    let r = Json::object(vec![entry("type", Json::text("string")), entry("description", Json::text(description))]);
    assert(r@->Object_0 =~= string_argument(description@)->Object_0);
    r
}

fn priority_argument_json() -> (r: Json)
    ensures
        r@ == priority_argument(),
{
    let names = Json::array(
        vec![Json::text("Low"), Json::text("Normal"), Json::text("High"), Json::text("Auto")],
    );
    assert(names@->Array_0 =~= seq![str_of("Low"@), str_of("Normal"@), str_of("High"@), str_of("Auto"@)]);
    let r = Json::object(
        vec![
            entry("type", Json::text("string")),
            entry("enum", names),
            entry("description", Json::text("Nueva prioridad")),
        ],
    );
    assert(r@->Object_0 =~= priority_argument()->Object_0);
    r
}

fn tool_json(name: &str, description: &str, schema: Json) -> (r: Json)
    ensures
        r@ == tool(name@, description@, schema@),
{
    let r = Json::object(
        vec![
            entry("name", Json::text(name)),
            entry("description", Json::text(description)),
            entry("inputSchema", schema),
        ],
    );
    assert(r@->Object_0 =~= tool(name@, description@, schema@)->Object_0);
    r
}

fn hash_input_json() -> (r: Json)
    ensures
        r@ == hash_input(),
{
    let props = Json::object(vec![entry("hash", string_argument_json("Hash de la descarga"))]);
    assert(props@->Object_0 =~= seq![("hash"@, hash_argument())]);
    let required = Json::array(vec![Json::text("hash")]);
    assert(required@->Array_0 =~= seq![str_of("hash"@)]);
    let r = Json::object(
        vec![entry("type", Json::text("object")), entry("properties", props), entry("required", required)],
    );
    assert(r@->Object_0 =~= hash_input()->Object_0);
    r
}

fn link_input_json() -> (r: Json)
    ensures
        r@ == input_schema(seq![("link"@, string_argument("El enlace eD2k completo"@))], seq![str_of("link"@)]),
{
    let props = Json::object(vec![entry("link", string_argument_json("El enlace eD2k completo"))]);
    assert(props@->Object_0 =~= seq![("link"@, string_argument("El enlace eD2k completo"@))]);
    let required = Json::array(vec![Json::text("link")]);
    assert(required@->Array_0 =~= seq![str_of("link"@)]);
    let r = Json::object(
        vec![entry("type", Json::text("object")), entry("properties", props), entry("required", required)],
    );
    assert(r@->Object_0 =~= input_schema(
        seq![("link"@, string_argument("El enlace eD2k completo"@))],
        seq![str_of("link"@)],
    )->Object_0);
    r
}

fn set_priority_input_json() -> (r: Json)
    ensures
        r@ == input_schema(
            seq![("hash"@, hash_argument()), ("priority"@, priority_argument())],
            seq![str_of("hash"@), str_of("priority"@)],
        ),
{
    let props = Json::object(
        vec![entry("hash", string_argument_json("Hash de la descarga")), entry("priority", priority_argument_json())],
    );
    assert(props@->Object_0 =~= seq![("hash"@, hash_argument()), ("priority"@, priority_argument())]);
    let required = Json::array(vec![Json::text("hash"), Json::text("priority")]);
    assert(required@->Array_0 =~= seq![str_of("hash"@), str_of("priority"@)]);
    let r = Json::object(
        vec![entry("type", Json::text("object")), entry("properties", props), entry("required", required)],
    );
    assert(r@->Object_0 =~= input_schema(
        seq![("hash"@, hash_argument()), ("priority"@, priority_argument())],
        seq![str_of("hash"@), str_of("priority"@)],
    )->Object_0);
    r
}

fn priority_all_input_json() -> (r: Json)
    ensures
        r@ == input_schema(seq![("priority"@, priority_argument())], seq![str_of("priority"@)]),
{
    let props = Json::object(vec![entry("priority", priority_argument_json())]);
    assert(props@->Object_0 =~= seq![("priority"@, priority_argument())]);
    let required = Json::array(vec![Json::text("priority")]);
    assert(required@->Array_0 =~= seq![str_of("priority"@)]);
    let r = Json::object(
        vec![entry("type", Json::text("object")), entry("properties", props), entry("required", required)],
    );
    assert(r@->Object_0 =~= input_schema(
        seq![("priority"@, priority_argument())],
        seq![str_of("priority"@)],
    )->Object_0);
    r
}

/// The descriptions of the tools that the server offers.
pub fn tool_catalog_json() -> (r: Json)
    ensures
        r@ == JsonValue::Array(tool_catalog()),
{
    let tools = vec![
        tool_json("get_status", "Muestra el estado global de conexiones de aMule", no_input_json()),
        tool_json("list_downloads", "Muestra la lista de descargas activas", no_input_json()),
        tool_json("add_link", "Añade un nuevo enlace eD2k o Magnet", link_input_json()),
        tool_json("pause_download", "Pausa una descarga individual por su hash", hash_input_json()),
        tool_json("pause_all_downloads", "Pausa todas las descargas activas", no_input_json()),
        tool_json("resume_download", "Reanuda una descarga pausada por su hash", hash_input_json()),
        tool_json("resume_all_downloads", "Reanuda todas las descargas pausadas", no_input_json()),
        tool_json("cancel_download", "Elimina/cancela una descarga individual por su hash", hash_input_json()),
        tool_json("cancel_all_downloads", "Elimina todas las descargas activas", no_input_json()),
        tool_json("set_priority", "Cambia la prioridad de una descarga individual", set_priority_input_json()),
        tool_json("set_priority_all", "Cambia la prioridad de todas las descargas", priority_all_input_json()),
    ];
    let r = Json::array(tools);
    assert(r@->Array_0 =~= tool_catalog());
    r
}

/// Builds the answer to `tools/list` for request `id`.
pub fn build_tools_list_response(id: &Json) -> (r: Json)
    ensures
        r@ == tools_list_response(id@),
{
    let result = Json::object(vec![entry("tools", tool_catalog_json())]);
    assert(result@->Object_0 =~= seq![("tools"@, JsonValue::Array(tool_catalog()))]);
    let r = Json::object(vec![entry("jsonrpc", Json::text("2.0")), entry("id", id.clone()), entry("result", result)]);
    assert(r@->Object_0 =~= tools_list_response(id@)->Object_0);
    r
}

/// Builds the answer to `initialize` for request `id`.
pub fn build_initialize_response(id: &Json) -> (r: Json)
    ensures
        r@ == initialize_response(id@),
{
    let tools = Json::object(Vec::new());
    assert(tools@->Object_0 =~= seq![]);
    let capabilities = Json::object(vec![entry("tools", tools)]);
    assert(capabilities@->Object_0 =~= seq![("tools"@, object_of(seq![]))]);
    let server = Json::object(vec![entry("name", Json::text("amule-mcp")), entry("version", Json::text("0.1.0"))]);
    assert(server@->Object_0 =~= seq![("name"@, str_of("amule-mcp"@)), ("version"@, str_of("0.1.0"@))]);
    let result = Json::object(
        vec![
            entry("protocolVersion", Json::text("2024-11-05")),
            entry("capabilities", capabilities),
            entry("serverInfo", server),
        ],
    );
    assert(result@->Object_0 =~= initialize_response(id@)->Object_0[2].1->Object_0);
    let r = Json::object(vec![entry("jsonrpc", Json::text("2.0")), entry("id", id.clone()), entry("result", result)]);
    assert(r@->Object_0 =~= initialize_response(id@)->Object_0);
    r
}

} // verus!
