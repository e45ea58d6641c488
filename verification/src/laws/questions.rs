//! Questions that only an operator could answer are answered without one.
use vstd::prelude::*;

use crate::codex::{
    approval_label, approvals, first_approving, labels_of, refusals, turn_message, CodexErrorView,
    EndView, StepView, TurnView,
};
use crate::json::JsonView;
use crate::laws::turns::{is_noted, is_request, lemma_method_marks, reports, tells_of};
use crate::table::{in_order, lemma_put_in_order, lemma_put_lookup, lookup};
use crate::text::{begins, lowered, trimmed};

verus! {

broadcast use vstd::seq::group_seq_axioms;

/// Whether an option has this label, once the blanks around it are taken away.
pub open spec fn has_label(option: JsonView, label: Seq<char>) -> bool {
    match option.get("label"@) {
        Some(JsonView::Text(text)) => trimmed(text) == label && label.len() > 0,
        _ => false,
    }
}

/// Whether some option has this label.
pub open spec fn is_offered(options: Seq<JsonView>, label: Seq<char>) -> bool {
    exists|i: int| 0 <= i < options.len() && has_label(#[trigger] options[i], label)
}

/// Whether a label says that it approves, however it is capitalised.
pub open spec fn says_yes(label: Seq<char>) -> bool {
    begins(lowered(label), "approve"@) || begins(lowered(label), "allow"@)
}

proof fn lemma_labels(options: Seq<JsonView>, label: Seq<char>)
    ensures
        labels_of(options).contains(label) <==> is_offered(options, label),
    decreases options.len(),
{
    if options.len() > 0 {
        let n = options.len() - 1;
        let front = options.drop_last();
        lemma_labels(front, label);
        assert(options[n] == options.last());
        let earlier = labels_of(front);
        let all = labels_of(options);
        if all.contains(label) {
            let k = choose|k: int| 0 <= k < all.len() && all[k] == label;
            if k < earlier.len() {
                assert(earlier[k] == label);
                let i = choose|i: int| 0 <= i < front.len() && has_label(#[trigger] front[i], label);
                assert(has_label(options[i], label));
            } else {
                assert(has_label(options[n], label));
            }
        }
        if is_offered(options, label) {
            let i = choose|i: int|
                0 <= i < options.len() && has_label(#[trigger] options[i], label);
            if i < n {
                assert(has_label(front[i], label));
                let k = choose|k: int| 0 <= k < earlier.len() && earlier[k] == label;
                assert(all[k] == label);
            } else {
                assert(all[earlier.len() as int] == label);
            }
        }
    }
}

proof fn lemma_first_yes(labels: Seq<Seq<char>>)
    ensures
        match first_approving(labels) {
            Some(label) => exists|k: int|
                0 <= k < labels.len() && #[trigger] labels[k] == label && says_yes(label) && (forall|
                    j: int,
                |
                    0 <= j < k ==> !says_yes(#[trigger] labels[j])),
            None => forall|k: int| 0 <= k < labels.len() ==> !says_yes(#[trigger] labels[k]),
        },
    decreases labels.len(),
{
    if labels.len() > 0 && !says_yes(labels[0]) {
        let rest = labels.skip(1);
        lemma_first_yes(rest);
        assert(forall|k: int| 1 <= k < labels.len() ==> rest[k - 1] == #[trigger] labels[k]);
        match first_approving(rest) {
            Some(label) => {
                let k = choose|k: int|
                    0 <= k < rest.len() && #[trigger] rest[k] == label && says_yes(label)
                        && (forall|j: int| 0 <= j < k ==> !says_yes(#[trigger] rest[j]));
                assert(labels[k + 1] == label);
                assert forall|j: int| 0 <= j < k + 1 implies !says_yes(#[trigger] labels[j]) by {
                    if j > 0 {
                        assert(rest[j - 1] == labels[j]);
                    }
                }
            },
            None => {
                assert forall|k: int| 0 <= k < labels.len() implies !says_yes(
                    #[trigger] labels[k],
                ) by {
                    if k > 0 {
                        assert(rest[k - 1] == labels[k]);
                    }
                }
            },
        }
    }
}

/// The option that is chosen is one of those that are offered and approves: for the session
/// where that is offered, or else once where that is, or else in whatever words come
/// first. Nothing is chosen only where nothing that is offered approves.
pub proof fn law_the_widest_approval_is_chosen(options: Seq<JsonView>)
    ensures
        is_offered(options, "Approve this Session"@) ==> approval_label(options) == Some(
            "Approve this Session"@,
        ),
        !is_offered(options, "Approve this Session"@) && is_offered(options, "Approve Once"@)
            ==> approval_label(options) == Some("Approve Once"@),
        approval_label(options) matches Some(label) ==> is_offered(options, label) && (label
            == "Approve this Session"@ || label == "Approve Once"@ || says_yes(label)),
        approval_label(options) is None ==> forall|label: Seq<char>|
            is_offered(options, label) ==> !#[trigger] says_yes(label),
{
    let labels = labels_of(options);
    lemma_labels(options, "Approve this Session"@);
    lemma_labels(options, "Approve Once"@);
    lemma_first_yes(labels);
    match approval_label(options) {
        Some(label) => {
            lemma_labels(options, label);
        },
        None => {
            assert forall|label: Seq<char>| is_offered(options, label) implies !#[trigger] says_yes(
                label,
            ) by {
                lemma_labels(options, label);
                let k = choose|k: int| 0 <= k < labels.len() && labels[k] == label;
                assert(!says_yes(labels[k]));
            }
        },
    }
}

/// The identifier of a question.
pub open spec fn question_id(question: JsonView) -> Option<Seq<char>> {
    match question.get("id"@) {
        Some(JsonView::Text(id)) => Some(id),
        _ => None,
    }
}

/// The label that approves a question, where it has an identifier and such an option.
pub open spec fn chosen_for(question: JsonView) -> Option<Seq<char>> {
    match (question_id(question), question.get("options"@)) {
        (Some(_), Some(JsonView::Array(options))) => approval_label(options),
        _ => None,
    }
}

/// Whether no later question has the identifier of this one.
pub open spec fn is_last_of_its_id(questions: Seq<JsonView>, i: int) -> bool {
    forall|j: int|
        i < j < questions.len() ==> question_id(#[trigger] questions[j]) != question_id(
            questions[i],
        )
}

/// Questions are approved only all together: every one has to have an option that
/// approves it. Each is then answered with that option and nothing else.
pub proof fn law_questions_are_approved_together(questions: Seq<JsonView>)
    ensures
        approvals(questions) is Some <==> (forall|i: int|
            0 <= i < questions.len() ==> chosen_for(#[trigger] questions[i]) is Some),
        approvals(questions) matches Some((answers, label)) ==> {
            &&& in_order(answers)
            &&& questions.len() == 0 ==> label is None && answers.len() == 0
            &&& questions.len() > 0 ==> label == chosen_for(questions.last())
            &&& forall|i: int|
                0 <= i < questions.len() && is_last_of_its_id(questions, i) ==> lookup(
                    answers,
                    question_id(#[trigger] questions[i])->0,
                ) == Some(
                    JsonView::Object(
                        seq![
                            (
                                "answers"@,
                                JsonView::Array(
                                    seq![JsonView::Text(chosen_for(questions[i])->0)],
                                ),
                            ),
                        ],
                    ),
                )
        },
    decreases questions.len(),
{
    if questions.len() > 0 {
        let n = questions.len() - 1;
        let front = questions.drop_last();
        law_questions_are_approved_together(front);
        assert(questions[n] == questions.last());
        assert(forall|i: int| 0 <= i < n ==> front[i] == #[trigger] questions[i]);
        if approvals(questions) is Some {
            let (earlier, _) = approvals(front)->0;
            let (answers, _) = approvals(questions)->0;
            let id = question_id(questions.last())->0;
            let given = crate::codex::answer_of(chosen_for(questions.last())->0);
            lemma_put_in_order(earlier, id, given);
            assert forall|i: int|
                0 <= i < questions.len() && is_last_of_its_id(questions, i) implies lookup(
                answers,
                question_id(#[trigger] questions[i])->0,
            ) == Some(
                JsonView::Object(
                    seq![
                        (
                            "answers"@,
                            JsonView::Array(seq![JsonView::Text(chosen_for(questions[i])->0)]),
                        ),
                    ],
                ),
            ) by {
                lemma_put_lookup(earlier, id, given, question_id(questions[i])->0);
                if i < n {
                    assert(front[i] == questions[i]);
                    assert(chosen_for(front[i]) is Some);
                    assert(chosen_for(questions[n]) is Some);
                    assert(question_id(questions[n]) != question_id(questions[i]));
                    assert forall|j: int| i < j < front.len() implies question_id(
                        #[trigger] front[j],
                    ) != question_id(front[i]) by {
                        assert(front[j] == questions[j]);
                    }
                    assert(is_last_of_its_id(front, i));
                }
            }
            assert forall|i: int| 0 <= i < questions.len() implies chosen_for(
                #[trigger] questions[i],
            ) is Some by {
                if i < n {
                    assert(chosen_for(front[i]) is Some);
                }
            }
        } else if forall|i: int|
            0 <= i < questions.len() ==> chosen_for(#[trigger] questions[i]) is Some {
            assert forall|i: int| 0 <= i < front.len() implies chosen_for(#[trigger] front[i])
                is Some by {
                assert(front[i] == questions[i]);
            }
            assert(chosen_for(questions[n]) is Some);
        }
    }
}

/// Where nobody is there to answer, every question is told so; it only has to have an
/// identifier.
pub proof fn law_questions_are_told_nobody_is_there(questions: Seq<JsonView>)
    ensures
        refusals(questions) is Some <==> (forall|i: int|
            0 <= i < questions.len() ==> question_id(#[trigger] questions[i]) is Some),
        refusals(questions) matches Some(answers) ==> {
            &&& in_order(answers)
            &&& answers.len() == 0 <==> questions.len() == 0
            &&& forall|i: int|
                0 <= i < questions.len() ==> lookup(
                    answers,
                    question_id(#[trigger] questions[i])->0,
                ) == Some(
                    JsonView::Object(
                        seq![
                            (
                                "answers"@,
                                JsonView::Array(
                                    seq![
                                        JsonView::Text(
                                            "This is a non-interactive session. Operator input is unavailable."@,
                                        ),
                                    ],
                                ),
                            ),
                        ],
                    ),
                )
        },
    decreases questions.len(),
{
    if questions.len() > 0 {
        let n = questions.len() - 1;
        let front = questions.drop_last();
        law_questions_are_told_nobody_is_there(front);
        assert(questions[n] == questions.last());
        assert(forall|i: int| 0 <= i < n ==> front[i] == #[trigger] questions[i]);
        if refusals(questions) is Some {
            let earlier = refusals(front)->0;
            let answers = refusals(questions)->0;
            let id = question_id(questions.last())->0;
            let given = crate::codex::answer_of(crate::codex::NON_INTERACTIVE_ANSWER@);
            lemma_put_in_order(earlier, id, given);
            assert forall|i: int| 0 <= i < questions.len() implies lookup(
                answers,
                question_id(#[trigger] questions[i])->0,
            ) == Some(given) && question_id(questions[i]) is Some by {
                lemma_put_lookup(earlier, id, given, question_id(questions[i])->0);
                if i < n {
                    assert(front[i] == questions[i]);
                }
            }
        } else if forall|i: int|
            0 <= i < questions.len() ==> question_id(#[trigger] questions[i]) is Some {
            assert forall|i: int| 0 <= i < front.len() implies question_id(#[trigger] front[i])
                is Some by {
                assert(front[i] == questions[i]);
            }
            assert(question_id(questions[n]) is Some);
        }
    }
}

/// A request for input is answered with approvals where the policy is never to ask and
/// every question can be approved, and otherwise by saying that nobody is there. Where
/// there are no questions, or one has no identifier, the turn ends instead.
pub proof fn law_requests_for_input_are_answered(
    policy: JsonView,
    turn: TurnView,
    now: i128,
    message: JsonView,
    raw: Seq<char>,
    id: JsonView,
    params: JsonView,
    questions: Seq<JsonView>,
)
    requires
        is_request(message, id, params),
        params.get("questions"@) == Some(JsonView::Array(questions)),
    ensures
        ({
            let method = "item/tool/requestUserInput"@;
            let all_approve = forall|i: int|
                0 <= i < questions.len() ==> chosen_for(#[trigger] questions[i]) is Some;
            let all_named = forall|i: int|
                0 <= i < questions.len() ==> question_id(#[trigger] questions[i]) is Some;
            match turn_message(policy, turn, now, method, message, raw) {
                StepView::Act(outcome) => if questions.len() > 0 && all_named {
                    &&& outcome.events.len() == 2
                    &&& is_noted(outcome, turn, now, method, message, raw)
                    &&& reports(outcome.events[0], message)
                    &&& if policy == JsonView::Text("never"@) && all_approve {
                        &&& outcome.reply == Some(
                            reply_with(id, (approvals(questions)->0).0),
                        )
                        &&& tells_of(
                            outcome.events[0],
                            turn,
                            now,
                            "approval_auto_approved"@,
                            message,
                        )
                        &&& outcome.events[0].message == chosen_for(questions.last())
                    } else {
                        &&& outcome.reply == Some(reply_with(id, refusals(questions)->0))
                        &&& tells_of(
                            outcome.events[0],
                            turn,
                            now,
                            "tool_input_auto_answered"@,
                            message,
                        )
                        &&& outcome.events[0].message == Some(
                            "This is a non-interactive session. Operator input is unavailable."@,
                        )
                    }
                } else {
                    &&& outcome.reply is None
                    &&& outcome.end == EndView::Failed(CodexErrorView::TurnInputRequired(method))
                    &&& outcome.events.len() == 1
                    &&& tells_of(outcome.events[0], turn, now, "turn_input_required"@, message)
                },
                _ => false,
            }
        }),
{
    lemma_method_marks();
    law_questions_are_approved_together(questions);
    law_questions_are_told_nobody_is_there(questions);
    if approvals(questions) is Some && questions.len() > 0 {
        assert(questions[questions.len() - 1] == questions.last());
        assert(chosen_for(questions[questions.len() - 1]) is Some);
        assert forall|i: int| 0 <= i < questions.len() implies question_id(#[trigger] questions[i])
            is Some by {
            assert(chosen_for(questions[i]) is Some);
        }
    }
}

/// The reply to a request for input.
pub open spec fn reply_with(id: JsonView, answers: Seq<(Seq<char>, JsonView)>) -> JsonView {
    JsonView::Object(
        seq![
            ("id"@, id),
            ("result"@, JsonView::Object(seq![("answers"@, JsonView::Object(answers))])),
        ],
    )
}

/// A request for input without a list of questions ends the turn.
pub proof fn law_input_without_questions_ends_the_turn(
    policy: JsonView,
    turn: TurnView,
    now: i128,
    message: JsonView,
    raw: Seq<char>,
    id: JsonView,
    params: JsonView,
)
    requires
        is_request(message, id, params),
        match params.get("questions"@) {
            Some(JsonView::Array(_)) => false,
            _ => true,
        },
    ensures
        match turn_message(policy, turn, now, "item/tool/requestUserInput"@, message, raw) {
            StepView::Act(outcome) => {
                &&& outcome.reply is None
                &&& outcome.end == EndView::Failed(
                    CodexErrorView::TurnInputRequired("item/tool/requestUserInput"@),
                )
                &&& outcome.events.len() == 1
                &&& tells_of(outcome.events[0], turn, now, "turn_input_required"@, message)
            },
            _ => false,
        },
{
    lemma_method_marks();
}

} // verus!
