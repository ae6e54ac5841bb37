//! What each tool call comes to, stated over the request's fields.
use vstd::prelude::*;
use crate::json::JsonValue;
use crate::request::{argument_of, tool_name_of};
use crate::server::{ToolCallValue, tool_call_of};
use crate::validate::{lowercase_of, normalized, priority_of, Priority};
use crate::laws::lemma_tool_names;

verus! {

broadcast use vstd::string::group_string_axioms;

/// `add_link` queues exactly the links that start with `ed2k://` or `magnet:`,
/// as the command `Add <link>`; any other link is refused.
pub proof fn law_add_link_queues_ed2k_and_magnet_links(req: JsonValue)
    requires
        tool_name_of(req) == "add_link"@,
    ensures
        ("ed2k://"@.is_prefix_of(argument_of(req, "link"@)) || "magnet:"@.is_prefix_of(
            argument_of(req, "link"@),
        )) ==> tool_call_of(req) == ToolCallValue::Run("Add "@ + argument_of(req, "link"@)),
        !("ed2k://"@.is_prefix_of(argument_of(req, "link"@)) || "magnet:"@.is_prefix_of(
            argument_of(req, "link"@),
        )) ==> tool_call_of(req) == ToolCallValue::Answer(
            "Error: El enlace no tiene un formato válido"@,
        ),
{
    lemma_tool_names();
}

proof fn lemma_joined_words(word: Seq<char>, joined_word: Seq<char>, rest: Seq<char>)
    requires
        joined_word == word + " "@,
    ensures
        word + " "@ + rest == joined_word + rest,
{
}

/// The tools that act on one download refuse exactly an empty hash; any other
/// hash is passed on whole, as `Pause <hash>`, `Resume <hash>` or `Cancel <hash>`.
pub proof fn law_download_tools_refuse_only_an_empty_hash(req: JsonValue)
    ensures
        tool_name_of(req) == "pause_download"@ ==> tool_call_of(req) == if argument_of(
            req,
            "hash"@,
        ).len() == 0 {
            ToolCallValue::Answer("Error: Hash requerido"@)
        } else {
            ToolCallValue::Run("Pause "@ + argument_of(req, "hash"@))
        },
        tool_name_of(req) == "resume_download"@ ==> tool_call_of(req) == if argument_of(
            req,
            "hash"@,
        ).len() == 0 {
            ToolCallValue::Answer("Error: Hash requerido"@)
        } else {
            ToolCallValue::Run("Resume "@ + argument_of(req, "hash"@))
        },
        tool_name_of(req) == "cancel_download"@ ==> tool_call_of(req) == if argument_of(
            req,
            "hash"@,
        ).len() == 0 {
            ToolCallValue::Answer("Error: Hash requerido"@)
        } else {
            ToolCallValue::Run("Cancel "@ + argument_of(req, "hash"@))
        },
{
    lemma_tool_names();
    reveal_strlit("Pause");
    reveal_strlit("Resume");
    reveal_strlit("Cancel");
    reveal_strlit(" ");
    reveal_strlit("Pause ");
    reveal_strlit("Resume ");
    reveal_strlit("Cancel ");
    assert("Pause"@ + " "@ =~= "Pause "@);
    assert("Resume"@ + " "@ =~= "Resume "@);
    assert("Cancel"@ + " "@ =~= "Cancel "@);
    let hash = argument_of(req, "hash"@);
    lemma_joined_words("Pause"@, "Pause "@, hash);
    lemma_joined_words("Resume"@, "Resume "@, hash);
    lemma_joined_words("Cancel"@, "Cancel "@, hash);
}

/// The tools that take no argument run their fixed command whatever arguments
/// come with the call.
pub proof fn law_tools_without_arguments_run_fixed_commands(req: JsonValue)
    ensures
        tool_name_of(req) == "get_status"@ ==> tool_call_of(req) == ToolCallValue::Run("status"@),
        tool_name_of(req) == "list_downloads"@ ==> tool_call_of(req) == ToolCallValue::Run(
            "show DL"@,
        ),
        tool_name_of(req) == "pause_all_downloads"@ ==> tool_call_of(req) == ToolCallValue::Run(
            "Pause all"@,
        ),
        tool_name_of(req) == "resume_all_downloads"@ ==> tool_call_of(req) == ToolCallValue::Run(
            "Resume all"@,
        ),
        tool_name_of(req) == "cancel_all_downloads"@ ==> tool_call_of(req) == ToolCallValue::Run(
            "Cancel all"@,
        ),
{
    lemma_tool_names();
}

/// A name that is none of the eleven tools is answered as an unknown tool, naming it.
pub proof fn law_unknown_tools_are_named(req: JsonValue)
    requires
        tool_name_of(req) != "get_status"@,
        tool_name_of(req) != "list_downloads"@,
        tool_name_of(req) != "add_link"@,
        tool_name_of(req) != "pause_download"@,
        tool_name_of(req) != "pause_all_downloads"@,
        tool_name_of(req) != "resume_download"@,
        tool_name_of(req) != "resume_all_downloads"@,
        tool_name_of(req) != "cancel_download"@,
        tool_name_of(req) != "cancel_all_downloads"@,
        tool_name_of(req) != "set_priority"@,
        tool_name_of(req) != "set_priority_all"@,
    ensures
        tool_call_of(req) == ToolCallValue::Answer("Herramienta desconocida: "@ + tool_name_of(req)),
{
}

/// The lower-case words of the priorities, and the names aMule expects for them.
proof fn lemma_priority_words()
    ensures
        "low"@.len() == 3 && "normal"@.len() == 6 && "high"@.len() == 4 && "auto"@.len() == 4,
        "high"@[0] == 'h' && "auto"@[0] == 'a',
{
    reveal_strlit("low");
    reveal_strlit("normal");
    reveal_strlit("high");
    reveal_strlit("auto");
}

/// A word names a priority exactly when its lower-case form (as `str::to_lowercase`
/// gives it) is `low`, `normal`, `high` or `auto`; normalising gives `Low`,
/// `Normal`, `High` or `Auto` for these and leaves every other word unchanged.
pub proof fn law_priority_words_in_any_case(word: Seq<char>)
    ensures
        lowercase_of(word) == "low"@ ==> priority_of(word) == Some(Priority::Low) && normalized(word)
            == "Low"@,
        lowercase_of(word) == "normal"@ ==> priority_of(word) == Some(Priority::Normal)
            && normalized(word) == "Normal"@,
        lowercase_of(word) == "high"@ ==> priority_of(word) == Some(Priority::High)
            && normalized(word) == "High"@,
        lowercase_of(word) == "auto"@ ==> priority_of(word) == Some(Priority::Auto)
            && normalized(word) == "Auto"@,
        (lowercase_of(word) != "low"@ && lowercase_of(word) != "normal"@ && lowercase_of(word)
            != "high"@ && lowercase_of(word) != "auto"@) ==> priority_of(word) is None && normalized(
            word,
        ) == word,
{
    lemma_priority_words();
}

/// The name under which a valid priority word is sent to aMule.
pub open spec fn canonical_priority(lower: Seq<char>) -> Seq<char> {
    if lower == "low"@ {
        "Low"@
    } else if lower == "normal"@ {
        "Normal"@
    } else if lower == "high"@ {
        "High"@
    } else {
        "Auto"@
    }
}

/// Whether a lower-case word is one of the four priority words.
pub open spec fn is_priority_word(lower: Seq<char>) -> bool {
    lower == "low"@ || lower == "normal"@ || lower == "high"@ || lower == "auto"@
}

/// `set_priority` with a hash and a priority word in any letter case runs
/// `Priority <hash> <Name>`; it refuses an empty hash first, then a word that
/// names no priority. `set_priority_all` runs `Priority all <Name>` for any
/// priority word and refuses the others.
pub proof fn law_priority_tools_run_valid_priorities(req: JsonValue)
    ensures
        tool_name_of(req) == "set_priority"@ ==> tool_call_of(req) == if argument_of(
            req,
            "hash"@,
        ).len() == 0 {
            ToolCallValue::Answer("Error: Hash requerido"@)
        } else if !is_priority_word(lowercase_of(argument_of(req, "priority"@))) {
            ToolCallValue::Answer("Error: Prioridad inválida. Usa: Low, Normal, High o Auto"@)
        } else {
            ToolCallValue::Run(
                "Priority "@ + argument_of(req, "hash"@) + " "@ + canonical_priority(
                    lowercase_of(argument_of(req, "priority"@)),
                ),
            )
        },
        tool_name_of(req) == "set_priority_all"@ ==> tool_call_of(req) == if !is_priority_word(
            lowercase_of(argument_of(req, "priority"@)),
        ) {
            ToolCallValue::Answer("Error: Prioridad inválida. Usa: Low, Normal, High o Auto"@)
        } else {
            ToolCallValue::Run(
                "Priority all "@ + canonical_priority(lowercase_of(argument_of(req, "priority"@))),
            )
        },
{
    lemma_tool_names();
    law_priority_words_in_any_case(argument_of(req, "priority"@));
}

} // verus!
