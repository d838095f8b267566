//! Questions of Codex to the user: what is shown, what can be chosen, and what Codex
//! is told of the answer.

use vstd::prelude::*;

use crate::approvals::{
    allows, choice, is_allowed, no_options, pending_call, push_option, request_view, required,
    required_string, waiting_call, OutcomeView, PermissionOutcome, PermissionRequest,
    PermissionRequestView,
};
use crate::json::{
    entry_views, fields, item_views, no_entries, put, put_entry, ref_views, with, Json, JsonView,
};
use crate::protocol::{
    option_views, PermissionOption, PermissionOptionKind, PermissionOptionView, ToolCallStatus,
    ToolKind,
};
use crate::table::Table;
use crate::text::{
    after_prefix, blank, concat2, concat3, concat4, decimal, decimal_parses_back, decimal_text,
    first_line, is_blank, join, joined, opt_text, or_text, parse_unsigned, push_line, strip_prefix, take_all,
    take_step, text_or, texts, trim, trimmed, unsigned_value,
};

verus! {

// ---------------------------------------------------------------------------
// What can be chosen
// ---------------------------------------------------------------------------

/// The answers that can be chosen: where there is one question, and it is no secret,
/// its options that have a label, each with its index.
pub open spec fn selectable(params: JsonView) -> Seq<(nat, Seq<char>)> {
    let questions = params.items_at("questions"@);
    if questions.len() != 1 || questions[0].bool_at("isSecret"@) == Some(true) {
        Seq::empty()
    } else {
        labelled_options(questions[0].items_at("options"@))
    }
}

/// The options that have a label, each with its index.
pub open spec fn labelled_options(options: Seq<JsonView>) -> Seq<(nat, Seq<char>)>
    decreases options.len(),
{
    if options.len() == 0 {
        Seq::empty()
    } else {
        let init = options.drop_last();
        match options.last().text_at("label"@) {
            Some(label) => labelled_options(init).push((init.len(), label)),
            None => labelled_options(init),
        }
    }
}

/// The choice of an answer.
pub open spec fn answer_choice(answer: (nat, Seq<char>)) -> PermissionOptionView {
    choice("answer:"@ + decimal(answer.0), answer.1, PermissionOptionKind::AllowOnce)
}

/// The choices of some answers.
pub open spec fn answer_choices(answers: Seq<(nat, Seq<char>)>) -> Seq<PermissionOptionView> {
    Seq::new(answers.len(), |i: int| answer_choice(answers[i]))
}

/// The choices of a question: its answers, or to submit none where there are none, and
/// to cancel.
pub open spec fn input_choices(params: JsonView) -> Seq<PermissionOptionView> {
    let answers = selectable(params);
    let choices = if answers.len() == 0 {
        seq![
            choice(
                "submit-empty"@,
                "Submit empty response"@,
                PermissionOptionKind::AllowOnce,
            ),
        ]
    } else {
        answer_choices(answers)
    };
    choices.push(choice("cancel"@, "Cancel"@, PermissionOptionKind::RejectOnce))
}

/// Some answers, each with its index.
pub open spec fn answer_views(answers: Seq<(usize, String)>) -> Seq<(nat, Seq<char>)> {
    Seq::new(answers.len(), |i: int| (answers[i].0 as nat, answers[i].1@))
}

/// The answers that can be chosen.
pub fn user_input_selectable_options(params: &Json) -> (answers: Vec<(usize, String)>)
    ensures
        answer_views(answers@) == selectable(params@),
{
    let questions = params.items_at("questions");
    assert(ref_views(questions@).len() == questions@.len());
    let mut answers: Vec<(usize, String)> = Vec::new();
    assert(answer_views(answers@) =~= Seq::empty());
    if questions.len() != 1 {
        return answers;
    }
    let question = questions[0];
    assert(ref_views(questions@)[0] == question@);
    if let Some(true) = question.bool_at("isSecret") {
        return answers;
    }
    let options = question.items_at("options");
    let ghost all = ref_views(options@);
    let mut i: usize = 0;
    proof {
        take_all(all);
    }
    while i < options.len()
        invariant
            i <= options@.len(),
            all == ref_views(options@),
            answer_views(answers@) == labelled_options(all.take(i as int)),
        decreases options@.len() - i,
    {
        proof {
            take_step(all, i as int);
        }
        let ghost before = answers@;
        if let Some(label) = options[i].text_at("label") {
            answers.push((i, label.to_owned()));
            assert(answer_views(answers@) =~= answer_views(before).push((i as nat, label@)));
        }
        i = i + 1;
    }
    proof {
        take_all(all);
    }
    answers
}

/// The choices of a question.
pub fn user_input_permission_options(params: &Json) -> (options: Vec<PermissionOption>)
    ensures
        option_views(options@) == input_choices(params@),
{
    let answers = user_input_selectable_options(params);
    let ghost all = answer_views(answers@);
    let mut options = no_options();
    let mut i: usize = 0;
    while i < answers.len()
        invariant
            i <= answers@.len(),
            all == answer_views(answers@),
            option_views(options@) == answer_choices(all).take(i as int),
        decreases answers@.len() - i,
    {
        proof {
            take_step(answer_choices(all), i as int);
        }
        let id = concat2("answer:", decimal_text(answers[i].0 as u64).as_str());
        push_option(
            &mut options,
            id.as_str(),
            answers[i].1.as_str(),
            PermissionOptionKind::AllowOnce,
        );
        i = i + 1;
    }
    proof {
        take_all(answer_choices(all));
    }
    if answers.len() == 0 {
        assert(option_views(options@) =~= Seq::empty());
        push_option(
            &mut options,
            "submit-empty",
            "Submit empty response",
            PermissionOptionKind::AllowOnce,
        );
    }
    push_option(&mut options, "cancel", "Cancel", PermissionOptionKind::RejectOnce);
    options
}

// ---------------------------------------------------------------------------
// What is shown
// ---------------------------------------------------------------------------

/// The line of a text that is not blank, with something before and behind it.
pub open spec fn trimmed_line(
    before: Seq<char>,
    text: Option<Seq<char>>,
    behind: Seq<char>,
) -> Seq<Seq<char>> {
    match text {
        Some(text) => if is_blank(text) {
            Seq::empty()
        } else {
            seq![before + trimmed(text) + behind]
        },
        None => Seq::empty(),
    }
}

/// The lines of the options that have a label.
pub open spec fn option_lines(options: Seq<JsonView>) -> Seq<Seq<char>>
    decreases options.len(),
{
    if options.len() == 0 {
        Seq::empty()
    } else {
        let lines = option_lines(options.drop_last());
        let description = text_or(options.last().text_at("description"@), Seq::empty());
        match options.last().text_at("label"@) {
            Some(label) => lines.push(
                if description.len() == 0 {
                    "- "@ + label
                } else {
                    "- "@ + label + ": "@ + description
                },
            ),
            None => lines,
        }
    }
}

/// The lines of a question.
pub open spec fn question_lines(question: JsonView) -> Seq<Seq<char>> {
    let secret = if question.bool_at("isSecret"@) == Some(true) {
        seq!["_Secret/freeform entry is not supported in this Zed bridge yet._"@]
    } else {
        Seq::empty()
    };
    trimmed_line("\n**"@, question.text_at("header"@), "**"@) + trimmed_line(
        ""@,
        question.text_at("question"@),
        ""@,
    ) + secret + option_lines(question.items_at("options"@))
}

/// The lines of some questions.
pub open spec fn questions_lines(questions: Seq<JsonView>) -> Seq<Seq<char>>
    decreases questions.len(),
{
    if questions.len() == 0 {
        Seq::empty()
    } else {
        questions_lines(questions.drop_last()) + question_lines(questions.last())
    }
}

/// What is shown of the questions of Codex.
pub open spec fn input_text(params: JsonView) -> Seq<char> {
    joined(
        seq!["Codex requested input."@] + questions_lines(params.items_at("questions"@)),
        "\n"@,
    )
}

/// Adds the line of a text that is not blank.
fn push_trimmed(lines: &mut Vec<String>, before: &str, text: Option<&str>, behind: &str)
    ensures
        texts(final(lines)@) == texts(old(lines)@) + trimmed_line(
            before@,
            opt_text(text),
            behind@,
        ),
{
    if let Some(text) = text {
        if !blank(text) {
            push_line(lines, concat3(before, trim(text), behind));
        }
    }
    assert(texts(lines@) =~= texts(old(lines)@) + trimmed_line(
        before@,
        opt_text(text),
        behind@,
    ));
}

/// Adds the lines of a question.
fn push_question(lines: &mut Vec<String>, question: &Json)
    ensures
        texts(final(lines)@) == texts(old(lines)@) + question_lines(question@),
{
    let ghost start = texts(lines@);
    push_trimmed(lines, "\n**", question.text_at("header"), "**");
    push_trimmed(lines, "", question.text_at("question"), "");
    if let Some(true) = question.bool_at("isSecret") {
        push_line(
            lines,
            "_Secret/freeform entry is not supported in this Zed bridge yet._".to_owned(),
        );
    }
    let ghost before = texts(lines@);
    let options = question.items_at("options");
    let ghost all = ref_views(options@);
    let mut i: usize = 0;
    proof {
        reveal_strlit("");
        assert(""@ =~= Seq::<char>::empty());
        take_all(all);
        assert(before + option_lines(all.take(0)) =~= before);
    }
    while i < options.len()
        invariant
            i <= options@.len(),
            all == ref_views(options@),
            ""@ == Seq::<char>::empty(),
            texts(lines@) == before + option_lines(all.take(i as int)),
        decreases options@.len() - i,
    {
        proof {
            take_step(all, i as int);
        }
        if let Some(label) = options[i].text_at("label") {
            let description = or_text(options[i].text_at("description"), "");
            if description.is_empty() {
                push_line(lines, concat2("- ", label));
            } else {
                push_line(lines, concat4("- ", label, ": ", description));
            }
        }
        assert(texts(lines@) =~= before + option_lines(all.take(i + 1)));
        i = i + 1;
    }
    proof {
        take_all(all);
        assert(texts(lines@) =~= start + question_lines(question@));
    }
}

/// What is shown of the questions of Codex.
pub fn user_input_markdown(params: &Json) -> (text: String)
    ensures
        text@ == input_text(params@),
{
    let questions = params.items_at("questions");
    let ghost all = ref_views(questions@);
    let mut lines = first_line("Codex requested input.");
    let ghost head = texts(lines@);
    let mut i: usize = 0;
    proof {
        take_all(all);
        assert(head + questions_lines(all.take(0)) =~= head);
    }
    while i < questions.len()
        invariant
            i <= questions@.len(),
            all == ref_views(questions@),
            texts(lines@) == head + questions_lines(all.take(i as int)),
        decreases questions@.len() - i,
    {
        proof {
            take_step(all, i as int);
        }
        push_question(&mut lines, questions[i]);
        assert(texts(lines@) =~= head + questions_lines(all.take(i + 1)));
        i = i + 1;
    }
    proof {
        take_all(all);
    }
    join(&lines, "\n")
}

// ---------------------------------------------------------------------------
// What Codex is told
// ---------------------------------------------------------------------------

/// Some answers to a question.
pub open spec fn answers_of(labels: Seq<JsonView>) -> JsonView {
    JsonView::Object(fields().push(("answers"@, JsonView::Array(labels))))
}

/// The answers to all questions.
pub open spec fn all_answers(entries: Seq<(Seq<char>, JsonView)>) -> JsonView {
    JsonView::Object(fields().push(("answers"@, JsonView::Object(entries))))
}

/// The id of the first question, and the label of its option at an index.
pub open spec fn answer_at(params: JsonView, index: nat) -> Option<(Seq<char>, Seq<char>)> {
    let questions = params.items_at("questions"@);
    if questions.len() == 0 {
        None
    } else {
        let options = questions[0].items_at("options"@);
        match questions[0].text_at("id"@) {
            Some(id) => if index < options.len() {
                match options[index as int].text_at("label"@) {
                    Some(label) => Some((id, label)),
                    None => None,
                }
            } else {
                None
            },
            None => None,
        }
    }
}

/// The answer that a choice stands for.
pub open spec fn chosen_answer(params: JsonView, option: Seq<char>) -> Option<
    (Seq<char>, Seq<char>),
> {
    match after_prefix(option, "answer:"@) {
        Some(index) => match unsigned_value(index, usize::MAX as nat) {
            Some(i) => answer_at(params, i),
            None => None,
        },
        None => None,
    }
}

/// No answer to each of some questions.
pub open spec fn empty_answers(questions: Seq<JsonView>) -> Seq<(Seq<char>, JsonView)>
    decreases questions.len(),
{
    if questions.len() == 0 {
        Seq::empty()
    } else {
        let entries = empty_answers(questions.drop_last());
        match questions.last().text_at("id"@) {
            Some(id) => put(entries, id, answers_of(Seq::empty())),
            None => entries,
        }
    }
}

/// What comes of the answer of the user: what Codex is told, how the tool call ends,
/// and what is shown of it.
pub open spec fn input_outcome(params: JsonView, outcome: OutcomeView) -> (
    JsonView,
    ToolCallStatus,
    Seq<char>,
) {
    match outcome {
        OutcomeView::Selected { option_id, .. } => if !allows(outcome) {
            cancelled_input()
        } else {
            match chosen_answer(params, option_id) {
                Some((id, label)) => (
                    all_answers(
                        fields().push((id, answers_of(seq![JsonView::Text(label)]))),
                    ),
                    ToolCallStatus::Completed,
                    "Answered Codex prompt."@,
                ),
                None => (
                    all_answers(empty_answers(params.items_at("questions"@))),
                    ToolCallStatus::Completed,
                    "Submitted empty response to Codex prompt."@,
                ),
            }
        },
        OutcomeView::Cancelled => cancelled_input(),
    }
}

/// What comes of a question that the user cancelled.
pub open spec fn cancelled_input() -> (JsonView, ToolCallStatus, Seq<char>) {
    (all_answers(fields()), ToolCallStatus::Failed, "User input request cancelled."@)
}

/// The question that is put to the user.
pub open spec fn input_question(params: JsonView, known: Set<Seq<char>>) -> Result<
    PermissionRequestView,
    Seq<char>,
> {
    match (required(params, "threadId"@), required(params, "itemId"@)) {
        (Err(error), _) => Err(error),
        (_, Err(error)) => Err(error),
        (Ok(thread), Ok(item)) => if !known.contains(thread) {
            Err("user input request for unknown Codex thread"@)
        } else {
            Ok(
                PermissionRequestView {
                    session: thread,
                    tool_call: waiting_call(
                        item,
                        ToolKind::Other,
                        "Answer Codex prompt"@,
                        input_text(params),
                        params,
                    ),
                    options: input_choices(params),
                },
            )
        },
    }
}

/// Some answers to a question.
fn make_answers(labels: Vec<Json>) -> (answers: Json)
    ensures
        answers@ == answers_of(item_views(labels@)),
{
    Json::object(with(no_entries(), "answers", Json::array(labels)))
}

/// The answers to all questions.
fn make_all_answers(entries: Vec<(String, Json)>) -> (answers: Json)
    ensures
        answers@ == all_answers(entry_views(entries@)),
{
    Json::object(with(no_entries(), "answers", Json::object(entries)))
}

/// The id of the first question, and the label of its option at an index.
pub fn user_input_answer_at<'a>(params: &'a Json, index: usize) -> (answer: Option<
    (&'a str, &'a str),
>)
    ensures
        match answer {
            Some((id, label)) => answer_at(params@, index as nat) == Some((id@, label@)),
            None => answer_at(params@, index as nat) is None,
        },
{
    let questions = params.items_at("questions");
    assert(ref_views(questions@).len() == questions@.len());
    if questions.len() == 0 {
        return None;
    }
    let question = questions[0];
    assert(ref_views(questions@)[0] == question@);
    let id = match question.text_at("id") {
        Some(id) => id,
        None => return None,
    };
    let options = question.items_at("options");
    assert(ref_views(options@).len() == options@.len());
    if index >= options.len() {
        return None;
    }
    assert(ref_views(options@)[index as int] == options@[index as int]@);
    match options[index].text_at("label") {
        Some(label) => Some((id, label)),
        None => None,
    }
}

/// No answer to each question.
pub fn empty_user_input_response(params: &Json) -> (response: Json)
    ensures
        response@ == all_answers(empty_answers(params@.items_at("questions"@))),
{
    let questions = params.items_at("questions");
    let ghost all = ref_views(questions@);
    let mut entries = no_entries();
    let mut i: usize = 0;
    proof {
        take_all(all);
    }
    while i < questions.len()
        invariant
            i <= questions@.len(),
            all == ref_views(questions@),
            entry_views(entries@) == empty_answers(all.take(i as int)),
        decreases questions@.len() - i,
    {
        proof {
            take_step(all, i as int);
        }
        if let Some(id) = questions[i].text_at("id") {
            let none: Vec<Json> = Vec::new();
            assert(item_views(none@) =~= Seq::empty());
            put_entry(&mut entries, id, make_answers(none));
        }
        i = i + 1;
    }
    proof {
        take_all(all);
    }
    make_all_answers(entries)
}

/// The index of the answer that a choice stands for.
fn answer_index(option: &str) -> (index: Option<usize>)
    ensures
        match index {
            Some(i) => after_prefix(option@, "answer:"@) is Some && unsigned_value(
                after_prefix(option@, "answer:"@)->0,
                usize::MAX as nat,
            ) == Some(i as nat),
            None => after_prefix(option@, "answer:"@) is None || unsigned_value(
                after_prefix(option@, "answer:"@)->0,
                usize::MAX as nat,
            ) is None,
        },
{
    match strip_prefix(option, "answer:") {
        Some(index) => match parse_unsigned(index, usize::MAX as u64) {
            Some(i) => Some(i as usize),
            None => None,
        },
        None => None,
    }
}

/// What comes of the answer of the user.
pub fn user_input_response_from_outcome(params: &Json, outcome: &PermissionOutcome) -> (result: (
    Json,
    ToolCallStatus,
    String,
))
    ensures
        (result.0@, result.1, result.2@) == input_outcome(params@, outcome@),
{
    broadcast use crate::json::item_views_push;

    let option_id = match outcome {
        PermissionOutcome::Selected { option_id, .. } if is_allowed(outcome) => option_id,
        _ => {
            return (
                make_all_answers(no_entries()),
                ToolCallStatus::Failed,
                "User input request cancelled.".to_owned(),
            );
        },
    };
    if let Some(index) = answer_index(option_id.as_str()) {
        if let Some((id, label)) = user_input_answer_at(params, index) {
            let mut labels: Vec<Json> = Vec::new();
            assert(item_views(labels@) =~= Seq::empty());
            labels.push(Json::text(label));
            return (
                make_all_answers(with(no_entries(), id, make_answers(labels))),
                ToolCallStatus::Completed,
                "Answered Codex prompt.".to_owned(),
            );
        }
    }
    (
        empty_user_input_response(params),
        ToolCallStatus::Completed,
        "Submitted empty response to Codex prompt.".to_owned(),
    )
}

/// The question that is put to the user.
pub fn user_input_request<S>(params: &Json, sessions: &Table<S>) -> (request: Result<
    PermissionRequest,
    String,
>)
    ensures
        request_view(request) == input_question(params@, sessions@.dom()),
{
    let thread = match required_string(params, "threadId") {
        Ok(thread) => thread,
        Err(error) => return Err(error),
    };
    let item = match required_string(params, "itemId") {
        Ok(item) => item,
        Err(error) => return Err(error),
    };
    if sessions.get(thread.as_str()).is_none() {
        return Err("user input request for unknown Codex thread".to_owned());
    }
    Ok(
        PermissionRequest {
            session: thread,
            tool_call: pending_call(
                item.as_str(),
                ToolKind::Other,
                "Answer Codex prompt",
                user_input_markdown(params),
                params,
            ),
            options: user_input_permission_options(params),
        },
    )
}

/// Where an answer can be chosen, and its question has an id, choosing it tells Codex
/// the label that was shown.
pub proof fn chosen_answers_are_told(params: JsonView, id: Seq<char>, i: int)
    requires
        0 <= i < selectable(params).len(),
        params.items_at("questions"@)[0].text_at("id"@) == Some(id),
        params.items_at("questions"@)[0].items_at("options"@).len() <= usize::MAX,
    ensures
        chosen_answer(params, input_choices(params)[i].id) == Some((id, selectable(params)[i].1)),
        input_choices(params)[i].name == selectable(params)[i].1,
{
    let options = params.items_at("questions"@)[0].items_at("options"@);
    let (index, label) = selectable(params)[i];
    labelled_option_origin(options, i);
    let option = "answer:"@ + decimal(index);
    assert(input_choices(params)[i] == answer_choice((index, label)));
    assert(option.take("answer:"@.len() as int) =~= "answer:"@);
    assert(option.skip("answer:"@.len() as int) =~= decimal(index));
    decimal_parses_back(index, usize::MAX as nat);
}

proof fn labelled_option_origin(options: Seq<JsonView>, i: int)
    requires
        0 <= i < labelled_options(options).len(),
    ensures
        labelled_options(options)[i].0 < options.len(),
        options[labelled_options(options)[i].0 as int].text_at("label"@) == Some(
            labelled_options(options)[i].1,
        ),
    decreases options.len(),
{
    let init = options.drop_last();
    if i < labelled_options(init).len() {
        labelled_option_origin(init, i);
    }
}

} // verus!
