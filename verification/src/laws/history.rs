//! What the history of a thread comes to: everything that was said and done in it, in order,
//! as it was told while it happened.

use vstd::prelude::*;

use crate::history::{item_history, items_history, thread_history, thought_chunks, turns_history};
use crate::json::JsonView;

use crate::laws::updates::{every_text_is_a_chunk, names_a_tool, says_failed};
use crate::laws::words::{input_types, item_states, item_types, notification_names};
use crate::protocol::{ToolCallStatus, ToolCallUpdateView, ToolCallView, UpdateView};
use crate::updates::notification_updates;

verus! {

/// Whether a response holds a thread with some turns.
pub open spec fn holds_turns(response: JsonView, turns: Seq<JsonView>) -> bool {
    response.get2("thread"@, "turns"@) == Some(JsonView::Array(turns))
}

/// Whether a response holds a thread with a single turn, of some items.
pub open spec fn holds_items(response: JsonView, items: Seq<JsonView>) -> bool {
    &&& response.get2("thread"@, "turns"@) matches Some(JsonView::Array(turns))
    &&& turns.len() == 1
    &&& turns[0].get("items"@) == Some(JsonView::Array(items))
}

/// The history of a thread is that of its turns, one after the other.
pub proof fn histories_go_turn_by_turn(
    whole: JsonView,
    first: JsonView,
    second: JsonView,
    a: Seq<JsonView>,
    b: Seq<JsonView>,
)
    requires
        holds_turns(whole, a + b),
        holds_turns(first, a),
        holds_turns(second, b),
    ensures
        thread_history(whole) == thread_history(first) + thread_history(second),
{
    turns_add_up(a, b);
}

/// The history of a turn is that of its items, one after the other.
pub proof fn histories_go_item_by_item(
    whole: JsonView,
    first: JsonView,
    second: JsonView,
    a: Seq<JsonView>,
    b: Seq<JsonView>,
)
    requires
        holds_items(whole, a + b),
        holds_items(first, a),
        holds_items(second, b),
    ensures
        thread_history(whole) == thread_history(first) + thread_history(second),
{
    single_turns_are_their_items(whole, a + b);
    single_turns_are_their_items(first, a);
    single_turns_are_their_items(second, b);
    items_add_up(a, b);
}

/// A thread without turns, and a turn without items, has no history.
pub proof fn nothing_has_no_history(response: JsonView)
    requires
        response.get2("thread"@, "turns"@) !is Some || holds_turns(response, Seq::empty())
            || holds_items(response, Seq::empty()),
    ensures
        thread_history(response).len() == 0,
{
    if holds_items(response, Seq::empty()) {
        single_turns_are_their_items(response, Seq::empty());
    }
}

proof fn turns_add_up(a: Seq<JsonView>, b: Seq<JsonView>)
    ensures
        turns_history(a + b) == turns_history(a) + turns_history(b),
    decreases b.len(),
{
    if b.len() == 0 {
        assert(a + b =~= a);
        assert(turns_history(a) + turns_history(b) =~= turns_history(a));
    } else {
        assert((a + b).drop_last() =~= a + b.drop_last());
        turns_add_up(a, b.drop_last());
        assert(turns_history(a + b) =~= turns_history(a) + turns_history(b));
    }
}

proof fn items_add_up(a: Seq<JsonView>, b: Seq<JsonView>)
    ensures
        items_history(a + b) == items_history(a) + items_history(b),
    decreases b.len(),
{
    if b.len() == 0 {
        assert(a + b =~= a);
        assert(items_history(a) + items_history(b) =~= items_history(a));
    } else {
        assert((a + b).drop_last() =~= a + b.drop_last());
        items_add_up(a, b.drop_last());
        assert(items_history(a + b) =~= items_history(a) + items_history(b));
    }
}

proof fn single_turns_are_their_items(response: JsonView, items: Seq<JsonView>)
    requires
        holds_items(response, items),
    ensures
        thread_history(response) == items_history(items),
{
    let turns = response.get2("thread"@, "turns"@)->0->Array_0;
    assert(turns.drop_last() =~= Seq::<JsonView>::empty());
    reveal_with_fuel(turns_history, 2);
    assert(turns_history(turns) =~= items_history(items));
}

proof fn single_items_are_themselves(response: JsonView, item: JsonView)
    requires
        holds_items(response, seq![item]),
    ensures
        thread_history(response) == item_history(item),
{
    single_turns_are_their_items(response, seq![item]);
    assert(seq![item].drop_last() =~= Seq::<JsonView>::empty());
    reveal_with_fuel(items_history, 2);
    assert(items_history(seq![item]) =~= item_history(item));
}

/// What the agent said is told as it was said.
pub proof fn agent_messages_are_told(response: JsonView, item: JsonView, text: Seq<char>)
    requires
        holds_items(response, seq![item]),
        item.text_at("type"@) == Some("agentMessage"@),
        item.text_at("text"@) == Some(text),
    ensures
        thread_history(response) == seq![UpdateView::AgentMessageChunk(text)],
{
    single_items_are_themselves(response, item);
    item_types();
}

/// What the user wrote is told text by text.
pub proof fn user_messages_are_told(response: JsonView, item: JsonView)
    requires
        holds_items(response, seq![item]),
        item.text_at("type"@) == Some("userMessage"@),
        forall|i: int|
            0 <= i < item.items_at("content"@).len() ==> ({
                let input = #[trigger] item.items_at("content"@)[i];
                input.text_at("type"@) == Some("text"@) && input.text_at("text"@) is Some
            }),
    ensures
        ({
            let told = thread_history(response);
            let content = item.items_at("content"@);
            &&& told.len() == content.len()
            &&& forall|i: int|
                0 <= i < content.len() ==> #[trigger] told[i] == UpdateView::UserMessageChunk(
                    content[i].text_at("text"@)->0,
                )
        }),
{
    single_items_are_themselves(response, item);
    item_types();
    every_text_is_a_chunk(item.items_at("content"@));
}

/// A picture that the user sent is told by where it is.
pub proof fn pictures_are_told_by_their_place(
    response: JsonView,
    item: JsonView,
    input: JsonView,
    place: Seq<char>,
)
    requires
        holds_items(response, seq![item]),
        item.text_at("type"@) == Some("userMessage"@),
        item.get("content"@) == Some(JsonView::Array(seq![input])),
        input.text_at("type"@) == Some("localImage"@) && input.text_at("path"@) == Some(place)
            || input.text_at("type"@) == Some("image"@) && input.text_at("url"@) == Some(place),
    ensures
        thread_history(response) == seq![
            UpdateView::UserMessageChunk(
                if input.text_at("type"@) == Some("localImage"@) {
                    "[Local image: "@ + place + "]"@
                } else {
                    "[Image: "@ + place + "]"@
                },
            ),
        ],
{
    single_items_are_themselves(response, item);
    item_types();
    input_types();
    assert(seq![input].drop_last() =~= Seq::<JsonView>::empty());
    reveal_with_fuel(crate::history::user_chunks, 2);
    assert(thread_history(response) =~= seq![
        UpdateView::UserMessageChunk(
            if input.text_at("type"@) == Some("localImage"@) {
                "[Local image: "@ + place + "]"@
            } else {
                "[Image: "@ + place + "]"@
            },
        ),
    ]);
}

/// Whether an item holds what the user sent.
pub open spec fn holds_inputs(item: JsonView, inputs: Seq<JsonView>) -> bool {
    &&& item.text_at("type"@) == Some("userMessage"@)
    &&& item.get("content"@) == Some(JsonView::Array(inputs))
}

/// What the user sent is told piece by piece: a piece more is told behind the others, and what
/// is neither a text nor a picture is left out.
pub proof fn inputs_are_told_piece_by_piece(
    response: JsonView,
    item: JsonView,
    shorter: JsonView,
    before: JsonView,
    single: JsonView,
    alone: JsonView,
    inputs: Seq<JsonView>,
    input: JsonView,
)
    requires
        holds_items(response, seq![item]),
        holds_inputs(item, inputs.push(input)),
        holds_items(shorter, seq![before]),
        holds_inputs(before, inputs),
        holds_items(single, seq![alone]),
        holds_inputs(alone, seq![input]),
    ensures
        thread_history(response) == thread_history(shorter) + thread_history(single),
        input.text_at("type"@) != Some("text"@) && input.text_at("type"@) != Some("localImage"@)
            && input.text_at("type"@) != Some("image"@) ==> thread_history(single).len() == 0,
{
    single_items_are_themselves(response, item);
    single_items_are_themselves(shorter, before);
    single_items_are_themselves(single, alone);
    item_types();
    assert(inputs.push(input).drop_last() =~= inputs);
    assert(seq![input].drop_last() =~= Seq::<JsonView>::empty());
    reveal_with_fuel(crate::history::user_chunks, 2);
    assert(thread_history(response) =~= thread_history(shorter) + thread_history(single));
}

/// What the agent thought is told thought by thought: the summary where there is one, and
/// else the thoughts themselves.
pub proof fn thoughts_are_told(response: JsonView, item: JsonView, thoughts: Seq<JsonView>)
    requires
        holds_items(response, seq![item]),
        item.text_at("type"@) == Some("reasoning"@),
        item.get("summary"@) == Some(JsonView::Array(thoughts)) || (item.get("summary"@) is None
            && item.get("content"@) == Some(JsonView::Array(thoughts))),
        forall|i: int| 0 <= i < thoughts.len() ==> #[trigger] thoughts[i] is Text,
    ensures
        thread_history(response).len() == thoughts.len(),
        forall|i: int|
            0 <= i < thoughts.len() ==> #[trigger] thread_history(response)[i]
                == UpdateView::AgentThoughtChunk(thoughts[i]->Text_0),
{
    single_items_are_themselves(response, item);
    item_types();
    every_thought_is_a_chunk(thoughts);
}

proof fn every_thought_is_a_chunk(thoughts: Seq<JsonView>)
    requires
        forall|i: int| 0 <= i < thoughts.len() ==> #[trigger] thoughts[i] is Text,
    ensures
        thought_chunks(thoughts).len() == thoughts.len(),
        forall|i: int|
            0 <= i < thoughts.len() ==> #[trigger] thought_chunks(thoughts)[i]
                == UpdateView::AgentThoughtChunk(thoughts[i]->Text_0),
    decreases thoughts.len(),
{
    if thoughts.len() > 0 {
        let init = thoughts.drop_last();
        assert(forall|i: int| 0 <= i < init.len() ==> #[trigger] init[i] == thoughts[i]);
        every_thought_is_a_chunk(init);
        let last = thoughts[thoughts.len() - 1];
        assert(last is Text);
        let chunks = thought_chunks(thoughts);
        assert forall|i: int| 0 <= i < thoughts.len() implies #[trigger] chunks[i]
            == UpdateView::AgentThoughtChunk(thoughts[i]->Text_0) by {
            if i < init.len() {
                assert(chunks[i] == thought_chunks(init)[i]);
                assert(init[i] == thoughts[i]);
            }
        }
    }
}

/// A tool call is told as it was told while it happened, if nothing of its output was
/// streamed: its start, with the status that it came to, and its end.
pub proof fn tool_calls_are_told_as_they_happened(
    response: JsonView,
    item: JsonView,
    id: Seq<char>,
    params: JsonView,
    thread: Seq<char>,
)
    requires
        holds_items(response, seq![item]),
        names_a_tool(item.text_at("type"@)),
        item.text_at("id"@) == Some(id),
        params.text_at("threadId"@) == Some(thread),
        params.get("item"@) == Some(item),
    ensures
        ({
            let told = thread_history(response);
            let outputs = Map::<Seq<char>, Seq<char>>::empty();
            let start = notification_updates("item/started"@, params, outputs)[0].1->ToolCall_0;
            let end = notification_updates("item/completed"@, params, outputs)[0].1
                ->ToolCallUpdate_0;
            let status = if says_failed(item) {
                ToolCallStatus::Failed
            } else {
                ToolCallStatus::Completed
            };
            &&& told.len() == 2
            &&& told[0] == UpdateView::ToolCall(ToolCallView { status, ..start })
            &&& told[1] is ToolCallUpdate
            &&& told[1]->ToolCallUpdate_0.status == Some(status)
            &&& told[1] == UpdateView::ToolCallUpdate(
                ToolCallUpdateView { kind: told[1]->ToolCallUpdate_0.kind, ..end },
            )
            &&& item.text_at("type"@) == Some("commandExecution"@) || item.text_at("type"@) == Some(
                "fileChange"@,
            ) ==> told[1] == UpdateView::ToolCallUpdate(end)
        }),
{
    single_items_are_themselves(response, item);
    notification_names();
    item_types();
    item_states();
    let output = crate::items::output_of(item);
    if let Some(whole) = output {
        assert(whole.take(0) =~= Seq::<char>::empty());
        assert(whole.skip(0) =~= whole);
        if whole.len() == 0 {
            reveal_strlit("Error: ");
        }
    }
    assert(thread_history(response) == item_history(item));
}

/// An item of any other type has no history.
pub proof fn other_items_are_not_told(response: JsonView, item: JsonView)
    requires
        holds_items(response, seq![item]),
        !names_a_tool(item.text_at("type"@)),
        item.text_at("type"@) != Some("userMessage"@),
        item.text_at("type"@) != Some("agentMessage"@),
        item.text_at("type"@) != Some("reasoning"@),
    ensures
        thread_history(response).len() == 0,
{
    single_items_are_themselves(response, item);
}

} // verus!
