//! What `tools/list` announces of each tool, stated tool by tool.
use vstd::prelude::*;
use crate::catalog::{
    hash_argument, hash_input, input_schema, no_input, priority_argument, string_argument, tool,
    tool_catalog,
};
use crate::response::str_of;
use crate::json::{JsonValue, lookup, member};
use crate::laws::{lemma_listed_names, lemma_tool_names, listed_names};

verus! {

broadcast use vstd::string::group_string_axioms;

/// The schema of a string argument with the given description.
pub open spec fn string_schema(description: Seq<char>) -> JsonValue {
    JsonValue::Object(
        seq![("type"@, JsonValue::Str("string"@)), ("description"@, JsonValue::Str(description))],
    )
}

/// The schema of the `priority` argument: a string among the four priority names.
pub open spec fn priority_schema() -> JsonValue {
    JsonValue::Object(
        seq![
            ("type"@, JsonValue::Str("string"@)),
            ("enum"@, JsonValue::Array(seq![
                JsonValue::Str("Low"@),
                JsonValue::Str("Normal"@),
                JsonValue::Str("High"@),
                JsonValue::Str("Auto"@),
            ])),
            ("description"@, JsonValue::Str("Nueva prioridad"@)),
        ],
    )
}

/// An object schema with the given properties, all of them required, in order.
pub open spec fn schema_requiring(properties: Seq<(Seq<char>, JsonValue)>) -> JsonValue {
    JsonValue::Object(
        seq![
            ("type"@, JsonValue::Str("object"@)),
            ("properties"@, JsonValue::Object(properties)),
            ("required"@, JsonValue::Array(
                properties.map_values(|p: (Seq<char>, JsonValue)| JsonValue::Str(p.0)),
            )),
        ],
    )
}

/// The input schema that a tool must announce: the arguments that its call reads,
/// all of them required; no argument at all for the others.
pub open spec fn announced_schema(name: Seq<char>) -> JsonValue {
    if name == "add_link"@ {
        schema_requiring(seq![("link"@, string_schema("El enlace eD2k completo"@))])
    } else if name == "pause_download"@ || name == "resume_download"@ || name == "cancel_download"@ {
        schema_requiring(seq![("hash"@, string_schema("Hash de la descarga"@))])
    } else if name == "set_priority"@ {
        schema_requiring(
            seq![("hash"@, string_schema("Hash de la descarga"@)), ("priority"@, priority_schema())],
        )
    } else if name == "set_priority_all"@ {
        schema_requiring(seq![("priority"@, priority_schema())])
    } else {
        JsonValue::Object(
            seq![("type"@, JsonValue::Str("object"@)), ("properties"@, JsonValue::Object(seq![]))],
        )
    }
}

/// The description that `tools/list` gives of each tool.
pub open spec fn announced_description(name: Seq<char>) -> Seq<char> {
    if name == "get_status"@ {
        "Muestra el estado global de conexiones de aMule"@
    } else if name == "list_downloads"@ {
        "Muestra la lista de descargas activas"@
    } else if name == "add_link"@ {
        "Añade un nuevo enlace eD2k o Magnet"@
    } else if name == "pause_download"@ {
        "Pausa una descarga individual por su hash"@
    } else if name == "pause_all_downloads"@ {
        "Pausa todas las descargas activas"@
    } else if name == "resume_download"@ {
        "Reanuda una descarga pausada por su hash"@
    } else if name == "resume_all_downloads"@ {
        "Reanuda todas las descargas pausadas"@
    } else if name == "cancel_download"@ {
        "Elimina/cancela una descarga individual por su hash"@
    } else if name == "cancel_all_downloads"@ {
        "Elimina todas las descargas activas"@
    } else if name == "set_priority"@ {
        "Cambia la prioridad de una descarga individual"@
    } else {
        "Cambia la prioridad de todas las descargas"@
    }
}

proof fn lemma_tool_keys()
    ensures
        "name"@ != "description"@,
        "name"@ != "inputSchema"@,
        "description"@ != "inputSchema"@,
{
    reveal_strlit("name");
    reveal_strlit("description");
    reveal_strlit("inputSchema");
    assert("name"@.len() != "description"@.len());
    assert("name"@.len() != "inputSchema"@.len());
    assert("description"@[0] != "inputSchema"@[0]);
}

proof fn lemma_entry(name: Seq<char>, description: Seq<char>, schema: JsonValue)
    ensures
        member(tool(name, description, schema), "name"@) == Some(JsonValue::Str(name)),
        member(tool(name, description, schema), "description"@) == Some(JsonValue::Str(description)),
        member(tool(name, description, schema), "inputSchema"@) == Some(schema),
{
    lemma_tool_keys();
    let ms = tool(name, description, schema)->Object_0;
    assert(ms.drop_first()[0].0 == "description"@);
    assert(ms.drop_first().drop_first()[0].0 == "inputSchema"@);
    assert(lookup(ms, "inputSchema"@) == lookup(ms.drop_first(), "inputSchema"@));
    assert(lookup(ms.drop_first(), "inputSchema"@) == lookup(ms.drop_first().drop_first(), "inputSchema"@));
    assert(lookup(ms, "description"@) == lookup(ms.drop_first(), "description"@));
}

proof fn lemma_required(properties: Seq<(Seq<char>, JsonValue)>, names: Seq<JsonValue>)
    requires
        names.len() == properties.len(),
        forall|i: int| 0 <= i < names.len() ==> names[i] == JsonValue::Str(#[trigger] properties[i].0),
    ensures
        properties.map_values(|p: (Seq<char>, JsonValue)| JsonValue::Str(p.0)) == names,
{
    assert(properties.map_values(|p: (Seq<char>, JsonValue)| JsonValue::Str(p.0)) =~= names);
}

/// Every tool that `tools/list` announces carries the description given above and,
/// as input schema, exactly the arguments that a call of it reads, all required:
/// `link` for `add_link`; `hash` for `pause_download`, `resume_download` and
/// `cancel_download`; `hash` and `priority` for `set_priority`; `priority` for
/// `set_priority_all`; none for the others.
pub proof fn law_tools_announce_what_they_read()
    ensures
        tool_catalog().len() == 11,
        forall|i: int|
            0 <= i < tool_catalog().len() ==> {
                let t = #[trigger] tool_catalog()[i];
                let name = listed_names()[i];
                &&& member(t, "name"@) == Some(JsonValue::Str(name))
                &&& member(t, "description"@) == Some(JsonValue::Str(announced_description(name)))
                &&& member(t, "inputSchema"@) == Some(announced_schema(name))
            },
{
    lemma_listed_names();
    lemma_tool_names();
    lemma_tool_keys();
    let c = tool_catalog();
    let names = listed_names();
    lemma_required(seq![("link"@, string_schema("El enlace eD2k completo"@))], seq![JsonValue::Str("link"@)]);
    lemma_required(seq![("hash"@, string_schema("Hash de la descarga"@))], seq![JsonValue::Str("hash"@)]);
    lemma_required(
        seq![("hash"@, string_schema("Hash de la descarga"@)), ("priority"@, priority_schema())],
        seq![JsonValue::Str("hash"@), JsonValue::Str("priority"@)],
    );
    lemma_required(seq![("priority"@, priority_schema())], seq![JsonValue::Str("priority"@)]);
    assert forall|i: int| 0 <= i < c.len() implies {
        let t = #[trigger] c[i];
        let name = names[i];
        &&& member(t, "name"@) == Some(JsonValue::Str(name))
        &&& member(t, "description"@) == Some(JsonValue::Str(announced_description(name)))
        &&& member(t, "inputSchema"@) == Some(announced_schema(name))
    } by {
        if i == 0 {
            lemma_entry("get_status"@, "Muestra el estado global de conexiones de aMule"@, no_input());
        } else if i == 1 {
            lemma_entry("list_downloads"@, "Muestra la lista de descargas activas"@, no_input());
        } else if i == 2 {
            lemma_entry("add_link"@, "Añade un nuevo enlace eD2k o Magnet"@, input_schema(seq![("link"@, string_argument("El enlace eD2k completo"@))], seq![str_of("link"@)]));
        } else if i == 3 {
            lemma_entry("pause_download"@, "Pausa una descarga individual por su hash"@, hash_input());
        } else if i == 4 {
            lemma_entry("pause_all_downloads"@, "Pausa todas las descargas activas"@, no_input());
        } else if i == 5 {
            lemma_entry("resume_download"@, "Reanuda una descarga pausada por su hash"@, hash_input());
        } else if i == 6 {
            lemma_entry("resume_all_downloads"@, "Reanuda todas las descargas pausadas"@, no_input());
        } else if i == 7 {
            lemma_entry("cancel_download"@, "Elimina/cancela una descarga individual por su hash"@, hash_input());
        } else if i == 8 {
            lemma_entry("cancel_all_downloads"@, "Elimina todas las descargas activas"@, no_input());
        } else if i == 9 {
            lemma_entry("set_priority"@, "Cambia la prioridad de una descarga individual"@, input_schema(seq![("hash"@, hash_argument()), ("priority"@, priority_argument())], seq![str_of("hash"@), str_of("priority"@)]));
        } else if i == 10 {
            lemma_entry("set_priority_all"@, "Cambia la prioridad de todas las descargas"@, input_schema(seq![("priority"@, priority_argument())], seq![str_of("priority"@)]));
        }
    }
}

} // verus!
