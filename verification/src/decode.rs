//! The action decoder: a pure, total function mapping raw reasoning output to
//! one of a closed set of actions, with the marker precedence fixed below.
//!
//! Precedence, each marker case-sensitive and line-bounded:
//! 1. exact prefix `FINAL ANSWER:`, 2. text containing `ACTION:` (with an
//! optional `ARGS:` line), 3. exact prefix `THOUGHT:`, 4. text containing
//! `DELEGATE:` (with an optional `CONTEXT:` line), 5. fallback: the whole
//! trimmed text is a thought.

use vstd::prelude::*;
use crate::shim::{json_line_value, parse_json_line};
use crate::text::{
    contains_seq, find_from, find_sub, first_line_or, lemma_find_from_props, starts_with,
    str_first_line_or, str_skip, str_starts_with, str_trim, trim_seq,
};

verus! {

/// Parsed action decoded from raw reasoning output.
#[derive(Debug)]
pub enum ReActAction {
    /// Call a tool with arguments.
    ToolCall {
        /// Name of the tool to call.
        name: String,
        /// Structured arguments for the tool.
        args: serde_json::Value,
    },
    /// Final answer - task complete.
    FinalAnswer(String),
    /// Continue thinking (no action yet).
    Think(String),
    /// Delegate a sub-task to a subordinate runner.
    Delegate {
        /// Objective of the sub-task.
        objective: String,
        /// Context handed along with the objective.
        context: String,
    },
}

/// Marker of a final answer.
pub open spec fn final_marker() -> Seq<char> {
    "FINAL ANSWER:"@
}

/// Marker of a tool call.
pub open spec fn action_marker() -> Seq<char> {
    "ACTION:"@
}

/// Marker of the arguments line of a tool call.
pub open spec fn args_marker() -> Seq<char> {
    "ARGS:"@
}

/// Marker of a thought.
pub open spec fn thought_marker() -> Seq<char> {
    "THOUGHT:"@
}

/// Marker of a delegation.
pub open spec fn delegate_marker() -> Seq<char> {
    "DELEGATE:"@
}

/// Marker of the context line of a delegation.
pub open spec fn context_marker() -> Seq<char> {
    "CONTEXT:"@
}

/// The trimmed text begins with `FINAL ANSWER:`.
pub open spec fn is_final(s: Seq<char>) -> bool {
    starts_with(trim_seq(s), final_marker())
}

/// The answer carried by a final-answer text: the trimmed remainder after the
/// marker.
pub open spec fn final_answer_of(s: Seq<char>) -> Seq<char> {
    let t = trim_seq(s);
    trim_seq(t.subrange(final_marker().len() as int, t.len() as int))
}

/// The trimmed text contains `ACTION:` somewhere.
pub open spec fn has_action(s: Seq<char>) -> bool {
    contains_seq(trim_seq(s), action_marker())
}

/// What follows the first `ACTION:` marker.
pub open spec fn action_rest(s: Seq<char>) -> Seq<char> {
    let t = trim_seq(s);
    t.subrange(find_from(t, action_marker(), 0) + action_marker().len(), t.len() as int)
}

/// The tool name of a tool-call text: the trimmed first line after `ACTION:`.
pub open spec fn tool_name_of(s: Seq<char>) -> Seq<char> {
    trim_seq(first_line_or(action_rest(s), Seq::empty()))
}

/// The arguments line of a tool-call text: the trimmed first line after
/// `ARGS:` when that marker is present, and the empty JSON object line
/// otherwise.
pub open spec fn tool_args_line_of(s: Seq<char>) -> Seq<char> {
    let rest = action_rest(s);
    let p = find_from(rest, args_marker(), 0);
    if p >= 0 {
        trim_seq(first_line_or(rest.subrange(p + args_marker().len(), rest.len() as int), "{}"@))
    } else {
        "{}"@
    }
}

/// The trimmed text begins with `THOUGHT:`.
pub open spec fn has_thought_prefix(s: Seq<char>) -> bool {
    starts_with(trim_seq(s), thought_marker())
}

/// The thought carried by a thought text: the trimmed remainder after the
/// marker when it is present, and the whole trimmed text otherwise.
pub open spec fn thought_text_of(s: Seq<char>) -> Seq<char> {
    let t = trim_seq(s);
    if has_thought_prefix(s) {
        trim_seq(t.subrange(thought_marker().len() as int, t.len() as int))
    } else {
        t
    }
}

/// The trimmed text contains `DELEGATE:` somewhere.
pub open spec fn has_delegate(s: Seq<char>) -> bool {
    contains_seq(trim_seq(s), delegate_marker())
}

/// What follows the first `DELEGATE:` marker.
pub open spec fn delegate_rest(s: Seq<char>) -> Seq<char> {
    let t = trim_seq(s);
    t.subrange(find_from(t, delegate_marker(), 0) + delegate_marker().len(), t.len() as int)
}

/// The objective of a delegation text: the trimmed first line after
/// `DELEGATE:`.
pub open spec fn delegate_objective_of(s: Seq<char>) -> Seq<char> {
    trim_seq(first_line_or(delegate_rest(s), Seq::empty()))
}

/// The context of a delegation text: the trimmed first line after `CONTEXT:`
/// when that marker is present, and empty otherwise.
pub open spec fn delegate_context_of(s: Seq<char>) -> Seq<char> {
    let rest = delegate_rest(s);
    let p = find_from(rest, context_marker(), 0);
    if p >= 0 {
        trim_seq(
            first_line_or(rest.subrange(p + context_marker().len(), rest.len() as int), Seq::empty()),
        )
    } else {
        Seq::empty()
    }
}

/// The text decodes to a tool call: not a final answer, and `ACTION:` occurs.
pub open spec fn is_tool(s: Seq<char>) -> bool {
    !is_final(s) && has_action(s)
}

/// The text decodes to a thought by its marker.
pub open spec fn is_thought(s: Seq<char>) -> bool {
    !is_final(s) && !has_action(s) && has_thought_prefix(s)
}

/// The text decodes to a delegation.
pub open spec fn is_delegate(s: Seq<char>) -> bool {
    !is_final(s) && !has_action(s) && !has_thought_prefix(s) && has_delegate(s)
}

/// The text decodes to a thought by the fallback.
pub open spec fn is_plain_think(s: Seq<char>) -> bool {
    !is_final(s) && !has_action(s) && !has_thought_prefix(s) && !has_delegate(s)
}

/// The grammar is closed: every text falls in exactly one of the five decode
/// cases, so decoding never fails.
pub proof fn lemma_decode_total(s: Seq<char>)
    ensures
        is_final(s) || is_tool(s) || is_thought(s) || is_delegate(s) || is_plain_think(s),
        is_final(s) ==> !is_tool(s) && !is_thought(s) && !is_delegate(s) && !is_plain_think(s),
        is_tool(s) ==> !is_thought(s) && !is_delegate(s) && !is_plain_think(s),
        is_thought(s) ==> !is_delegate(s) && !is_plain_think(s),
        is_delegate(s) ==> !is_plain_think(s),
{
}

/// Decode one action from raw reasoning output. Total and pure: every input
/// yields exactly one action, by the precedence fixed in this module.
pub fn decode_action(response: &str) -> (r: ReActAction)
    ensures
        is_final(response@) ==> (r matches ReActAction::FinalAnswer(a) && a@ == final_answer_of(
            response@,
        )),
        is_tool(response@) ==> (r matches ReActAction::ToolCall { name, args } && name@
            == tool_name_of(response@) && args == json_line_value(tool_args_line_of(response@))),
        is_thought(response@) || is_plain_think(response@) ==> (r matches ReActAction::Think(t)
            && t@ == thought_text_of(response@)),
        is_delegate(response@) ==> (r matches ReActAction::Delegate { objective, context }
            && objective@ == delegate_objective_of(response@) && context@ == delegate_context_of(
            response@,
        )),
{
    let t = str_trim(response);
    let tn = t.unicode_len();
    if str_starts_with(t, "FINAL ANSWER:") {
        proof {
            reveal_strlit("FINAL ANSWER:");
        }
        let answer = str_trim(str_skip(t, 13));
        return ReActAction::FinalAnswer(String::from_str(answer));
    }
    if let Some(i) = find_sub(t, "ACTION:") {
        proof {
            reveal_strlit("ACTION:");
            reveal_strlit("");
            assert(""@ =~= Seq::<char>::empty());
            lemma_find_from_props(t@, "ACTION:"@, 0);
        }
        let rest = str_skip(t, i + 7);
        let name = str_trim(str_first_line_or(rest, ""));
        let args_line: &str = match find_sub(rest, "ARGS:") {
            Some(p) => {
                proof {
                    reveal_strlit("ARGS:");
                    lemma_find_from_props(rest@, "ARGS:"@, 0);
                }
                let _ = rest.unicode_len();
                str_trim(str_first_line_or(str_skip(rest, p + 5), "{}"))
            },
            None => "{}",
        };
        let args = parse_json_line(args_line);
        return ReActAction::ToolCall { name: String::from_str(name), args };
    }
    if str_starts_with(t, "THOUGHT:") {
        proof {
            reveal_strlit("THOUGHT:");
        }
        let thought = str_trim(str_skip(t, 8));
        return ReActAction::Think(String::from_str(thought));
    }
    if let Some(i) = find_sub(t, "DELEGATE:") {
        proof {
            reveal_strlit("DELEGATE:");
            reveal_strlit("");
            assert(""@ =~= Seq::<char>::empty());
            lemma_find_from_props(t@, "DELEGATE:"@, 0);
        }
        let rest = str_skip(t, i + 9);
        let objective = str_trim(str_first_line_or(rest, ""));
        let context: &str = match find_sub(rest, "CONTEXT:") {
            Some(p) => {
                proof {
                    reveal_strlit("CONTEXT:");
                    lemma_find_from_props(rest@, "CONTEXT:"@, 0);
                }
                let _ = rest.unicode_len();
                str_trim(str_first_line_or(str_skip(rest, p + 8), ""))
            },
            None => "",
        };
        return ReActAction::Delegate {
            objective: String::from_str(objective),
            context: String::from_str(context),
        };
    }
    ReActAction::Think(String::from_str(t))
}

} // verus!
