//! The decisions of a conversation turn: what is written to the log before
//! a request, what a response leads to, and how the results of tool calls
//! become the inputs of the next request.

use vstd::prelude::*;
use crate::openai_network_types::{
    call_list_view, calls_view, entries_view, inputs_view, AssistantMessage, OpenAIResponse,
    ToolCall, ToolCallModel,
};
use crate::text::text_view;
use crate::types::{
    entry_of_input, entry_of_message, CacheEntry, EntryModel, InputKind, InputModel,
    SublimeInputContent,
};

verus! {

/// Runs the turns of a conversation.
#[derive(Debug, Clone, Copy, PartialEq, Eq)]
pub struct LlmRunner;

/// What a response leads to.
#[derive(Debug, PartialEq, Eq)]
pub enum TurnOutcome {
    /// The model asked for tools: the calls are answered and their results
    /// sent as the inputs of a further request.
    CallTools {
        /// The entry to append to the log, if any.
        persist: Option<CacheEntry>,
        /// The calls, in the order in which they are answered.
        tool_calls: Vec<ToolCall>,
        /// Whether the further request is logged.
        store: bool,
    },
    /// The turn is over.
    Finished {
        /// The entry to append to the log, if any.
        persist: Option<CacheEntry>,
    },
}

/// The entries that a request writes to the log before it is sent: none
/// where the turn is not kept; else one for each input but the sheets, in
/// order.
pub open spec fn kept_inputs(inputs: Seq<InputModel>, store: bool) -> Seq<EntryModel>
    decreases inputs.len(),
{
    if !store || inputs.len() == 0 {
        Seq::empty()
    } else {
        let rest = kept_inputs(inputs.drop_last(), store);
        if inputs.last().input_kind == InputKind::Sheet {
            rest
        } else {
            rest.push(entry_of_input(inputs.last()))
        }
    }
}

/// The input that carries the answer to a tool call.
pub open spec fn result_input(call: ToolCallModel, answer: Seq<char>) -> InputModel {
    InputModel {
        content: Some(answer),
        path: None,
        scope: None,
        input_kind: InputKind::FunctionResult,
        tool_id: Some(call.id),
    }
}

/// The log entry of an assistant's message.
pub open spec fn message_entry(message: AssistantMessage) -> EntryModel {
    entry_of_message(message.role, text_view(message.content), calls_view(message.tool_calls))
}

/// The entry that a response writes to the log: that of the message,
/// where the turn is kept.
pub open spec fn kept_message(message: AssistantMessage, store: bool) -> Option<EntryModel> {
    if store {
        Some(message_entry(message))
    } else {
        None
    }
}

/// The view of an optional entry.
pub open spec fn entry_view(entry: Option<CacheEntry>) -> Option<EntryModel> {
    match entry {
        Some(e) => Some(e@),
        None => None,
    }
}

/// Whether a response asks for tools: its first choice carries tool calls.
pub open spec fn asks_for_tools(response: OpenAIResponse) -> bool {
    response.choices.len() > 0 && response.choices[0].message.tool_calls.is_some()
}

/// Whether `result` carries an answer of the handler to the call.
pub open spec fn answers<F: Fn((String, String)) -> String>(
    handler: F,
    call: ToolCall,
    result: InputModel,
) -> bool {
    exists|answer: String|
        #[trigger] call_ensures(handler, ((call.function.name, call.function.arguments),), answer)
            && result == result_input(call@, answer@)
}

impl LlmRunner {
    /// The entries to append to the log before a request is sent.
    pub fn entries_to_store(contents: &Vec<SublimeInputContent>, store: bool) -> (r: Vec<
        CacheEntry,
    >)
        ensures
            entries_view(r@) == kept_inputs(inputs_view(contents@), store),
    {
        let mut entries: Vec<CacheEntry> = Vec::new();
        if !store {
            assert(entries_view(entries@) =~= Seq::empty());
            return entries;
        }
        let ghost inputs = inputs_view(contents@);
        let mut i: usize = 0;
        assert(inputs.take(0) =~= Seq::empty());
        assert(entries_view(entries@) =~= Seq::empty());
        while i < contents.len()
            invariant
                store,
                i <= contents.len(),
                inputs == inputs_view(contents@),
                entries_view(entries@) == kept_inputs(inputs.take(i as int), store),
            decreases contents.len() - i,
        {
            let ghost before = entries@;
            proof {
                assert(inputs.take(i + 1).drop_last() =~= inputs.take(i as int));
            }
            match contents[i].input_kind {
                InputKind::Sheet => {},
                _ => {
                    let entry = CacheEntry::from_input(contents[i].duplicate());
                    entries.push(entry);
                    proof {
                        assert(entries_view(entries@) =~= entries_view(before).push(entry@));
                    }
                },
            }
            i = i + 1;
        }
        proof {
            assert(inputs.take(i as int) =~= inputs);
        }
        entries
    }

    /// The input that carries the answer to a tool call.
    pub fn tool_result(tool: ToolCall, response: String) -> (r: SublimeInputContent)
        ensures
            r@ == result_input(tool@, response@),
    {
        SublimeInputContent {
            content: Some(response),
            input_kind: InputKind::FunctionResult,
            tool_id: Some(tool.id),
            path: None,
            scope: None,
        }
    }

    /// Has the handler answer a tool call, and wraps the answer as an
    /// input. The handler gets the name of the function and its arguments.
    pub fn pick_function<F: Fn((String, String)) -> String>(
        tool: ToolCall,
        function_handler: &F,
    ) -> (r: SublimeInputContent)
        requires
            call_requires(*function_handler, ((tool.function.name, tool.function.arguments),)),
        ensures
            answers(*function_handler, tool, r@),
    {
        let name = tool.function.name.clone();
        let args = tool.function.arguments.clone();
        let response = function_handler((name, args));
        Self::tool_result(tool, response)
    }

    /// Has the handler answer the tool calls one by one, in the order in
    /// which they stand, and wraps each answer as an input.
    pub fn handle_function_call<F: Fn((String, String)) -> String>(
        tool_calls: Vec<ToolCall>,
        function_handler: &F,
    ) -> (r: Vec<SublimeInputContent>)
        requires
            forall|i: int|
                0 <= i < tool_calls.len() ==> call_requires(
                    *function_handler,
                    ((tool_calls[i].function.name, tool_calls[i].function.arguments),),
                ),
        ensures
            r.len() == tool_calls.len(),
            forall|i: int|
                0 <= i < tool_calls.len() ==> answers(
                    *function_handler,
                    tool_calls[i],
                    (#[trigger] r[i])@,
                ),
    {
        let mut results: Vec<SublimeInputContent> = Vec::new();
        let mut i: usize = 0;
        while i < tool_calls.len()
            invariant
                i <= tool_calls.len(),
                results.len() == i,
                forall|j: int|
                    0 <= j < tool_calls.len() ==> call_requires(
                        *function_handler,
                        ((tool_calls[j].function.name, tool_calls[j].function.arguments),),
                    ),
                forall|j: int|
                    0 <= j < i ==> answers(
                        *function_handler,
                        tool_calls[j],
                        (#[trigger] results[j])@,
                    ),
            decreases tool_calls.len() - i,
        {
            let name = tool_calls[i].function.name.clone();
            let args = tool_calls[i].function.arguments.clone();
            let response = function_handler((name, args));
            let result = Self::tool_result(tool_calls[i].duplicate(), response);
            assert(answers(*function_handler, tool_calls[i as int], result@));
            results.push(result);
            i = i + 1;
        }
        results
    }

    /// Decides what a response leads to.
    ///
    /// Where the first choice carries tool calls, the calls are to be
    /// answered and a further request sent, which is always logged.
    /// Otherwise the turn is over. In both cases the message of the first
    /// choice is logged where this request is.
    pub fn after_response(response: OpenAIResponse, store: bool) -> (r: TurnOutcome)
        requires
            store ==> response.choices.len() > 0,
        ensures
            match r {
                TurnOutcome::CallTools { persist, tool_calls, store: next } => {
                    &&& asks_for_tools(response)
                    &&& response.choices[0].message.tool_calls == Some(tool_calls)
                    &&& entry_view(persist) == kept_message(response.choices[0].message, store)
                    &&& next
                },
                TurnOutcome::Finished { persist } => {
                    &&& !asks_for_tools(response)
                    &&& entry_view(persist) == kept_message(response.choices[0].message, store)
                },
            },
    {
        let mut choices = response.choices;
        if choices.len() == 0 {
            return TurnOutcome::Finished { persist: None };
        }
        let first = choices.remove(0);
        let message = first.message;
        match message.tool_calls {
            Some(calls) => {
                let persist = if store {
                    let copy = AssistantMessage {
                        role: message.role,
                        content: message.content,
                        tool_calls: Some(Self::copy_of(&calls)),
                    };
                    Some(CacheEntry::from_message(copy))
                } else {
                    None
                };
                TurnOutcome::CallTools { persist, tool_calls: calls, store: true }
            },
            None => {
                let persist = if store {
                    Some(
                        CacheEntry::from_message(
                            AssistantMessage {
                                role: message.role,
                                content: message.content,
                                tool_calls: None,
                            },
                        ),
                    )
                } else {
                    None
                };
                TurnOutcome::Finished { persist }
            },
        }
    }

    fn copy_of(calls: &Vec<ToolCall>) -> (r: Vec<ToolCall>)
        ensures
            call_list_view(r@) == call_list_view(calls@),
    {
        let mut copy: Vec<ToolCall> = Vec::new();
        let mut i: usize = 0;
        while i < calls.len()
            invariant
                i <= calls.len(),
                copy.len() == i,
                forall|j: int| 0 <= j < i ==> copy@[j]@ == calls@[j]@,
            decreases calls.len() - i,
        {
            copy.push(calls[i].duplicate());
            i = i + 1;
        }
        assert(call_list_view(copy@) =~= call_list_view(calls@));
        copy
    }
}


/// What one request writes to the log: its inputs, then the message of
/// the response.
pub open spec fn leg_writes(
    inputs: Seq<InputModel>,
    store: bool,
    message: AssistantMessage,
) -> Seq<EntryModel> {
    kept_inputs(inputs, store) + match kept_message(message, store) {
        Some(entry) => seq![entry],
        None => Seq::empty(),
    }
}

/// The request that follows tool calls writes each result and the
/// response to the log, whatever the caller asked for the first request.
pub proof fn lemma_tool_leg_is_logged(
    outcome: TurnOutcome,
    call: ToolCallModel,
    answer: Seq<char>,
    last: AssistantMessage,
)
    requires
        outcome matches TurnOutcome::CallTools { store: next, .. } && next,
    ensures
        leg_writes(seq![result_input(call, answer)], outcome->CallTools_store, last) == seq![
            entry_of_input(result_input(call, answer)),
            message_entry(last),
        ],
        entry_of_input(result_input(call, answer)).tool_call_id == Some(call.id),
{
    lemma_single_input(result_input(call, answer));
    assert(leg_writes(seq![result_input(call, answer)], true, last) =~= seq![
        entry_of_input(result_input(call, answer)),
        message_entry(last),
    ]);
}

/// A kept turn with one input, one tool call and a plain second response
/// adds four entries to the log, in this order: the input, the message
/// that asked for the tool, the tool's result, the last message.
pub proof fn lemma_tool_loop_log(
    input: InputModel,
    first: AssistantMessage,
    call: ToolCallModel,
    answer: Seq<char>,
    last: AssistantMessage,
)
    requires
        input.input_kind != InputKind::Sheet,
    ensures
        leg_writes(seq![input], true, first) + leg_writes(
            seq![result_input(call, answer)],
            true,
            last,
        ) == seq![
            entry_of_input(input),
            message_entry(first),
            entry_of_input(result_input(call, answer)),
            message_entry(last),
        ],
{
    lemma_single_input(input);
    lemma_single_input(result_input(call, answer));
    assert(leg_writes(seq![input], true, first) + leg_writes(
        seq![result_input(call, answer)],
        true,
        last,
    ) =~= seq![
        entry_of_input(input),
        message_entry(first),
        entry_of_input(result_input(call, answer)),
        message_entry(last),
    ]);
}

proof fn lemma_single_input(input: InputModel)
    requires
        input.input_kind != InputKind::Sheet,
    ensures
        kept_inputs(seq![input], true) == seq![entry_of_input(input)],
{
    reveal_with_fuel(kept_inputs, 3);
    assert(seq![input].drop_last() =~= Seq::empty());
    assert(kept_inputs(seq![input], true) =~= seq![entry_of_input(input)]);
}

} // verus!
