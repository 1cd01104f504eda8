//! The rule matcher: from a topic and a message's text to the text of the
//! notification.
//!
//! Mappings are consulted in the order of the configuration, and within a
//! mapping the rules in the order of its list. The first rule that applies,
//! in a mapping whose topic is the message's topic, gives the answer. Topics
//! and values are compared character by character: no patterns, no wildcards,
//! no folding of case.

use vstd::prelude::*;
use crate::config::{Action, ActionView, Config, Mapping, MappingView};

verus! {

/// The first rule of `actions`, in order, that applies to `text`.
pub open spec fn first_applicable(actions: Seq<ActionView>, text: Seq<char>) -> Option<ActionView>
    decreases actions.len(),
{
    if actions.len() == 0 {
        None
    } else if actions[0].is_applicable(text) {
        Some(actions[0])
    } else {
        first_applicable(actions.drop_first(), text)
    }
}

/// The answer of a single mapping to a message: that of its first applicable
/// rule, if the mapping is for `topic` and has one.
pub open spec fn mapping_response(mapping: MappingView, topic: Seq<char>, text: Seq<char>) -> Option<
    Seq<char>,
> {
    if mapping.topic == topic {
        match first_applicable(mapping.actions, text) {
            Some(action) => Some(action.say()),
            None => None,
        }
    } else {
        None
    }
}

/// The answer of the first mapping, in order, that has one.
pub open spec fn chosen_response(
    mappings: Seq<MappingView>,
    topic: Seq<char>,
    text: Seq<char>,
) -> Option<Seq<char>>
    decreases mappings.len(),
{
    if mappings.len() == 0 {
        None
    } else if mapping_response(mappings[0], topic, text) is Some {
        mapping_response(mappings[0], topic, text)
    } else {
        chosen_response(mappings.drop_first(), topic, text)
    }
}

/// The text shown for a message that no rule answers.
pub open spec fn fallback(text: Seq<char>) -> Seq<char> {
    "Received message: "@ + text
}

/// The text of the notification for a message: the chosen answer, or the
/// fallback.
pub open spec fn decision(mappings: Seq<MappingView>, topic: Seq<char>, text: Seq<char>) -> Seq<
    char,
> {
    match chosen_response(mappings, topic, text) {
        Some(say) => say,
        None => fallback(text),
    }
}

/// No rule is found exactly when none of the rules applies.
pub proof fn lemma_first_applicable_none(actions: Seq<ActionView>, text: Seq<char>)
    ensures
        first_applicable(actions, text) is None <==> forall|j: int|
            0 <= j < actions.len() ==> !(#[trigger] actions[j]).is_applicable(text),
    decreases actions.len(),
{
    if actions.len() > 0 {
        let rest = actions.drop_first();
        lemma_first_applicable_none(rest, text);
        if first_applicable(actions, text) is None {
            assert forall|j: int| 0 <= j < actions.len() implies !(#[trigger] actions[j]).is_applicable(
                text,
            ) by {
                if j > 0 {
                    assert(actions[j] == rest[j - 1]);
                }
            }
        } else if !actions[0].is_applicable(text) {
            let j = choose|j: int| 0 <= j < rest.len() && (#[trigger] rest[j]).is_applicable(text);
            assert(actions[j + 1] == rest[j]);
        }
    }
}

/// The first rule wins: a rule that applies, after rules that do not, is the
/// one found.
pub proof fn lemma_first_applicable_at(actions: Seq<ActionView>, text: Seq<char>, j: int)
    requires
        0 <= j < actions.len(),
        actions[j].is_applicable(text),
        forall|k: int| 0 <= k < j ==> !(#[trigger] actions[k]).is_applicable(text),
    ensures
        first_applicable(actions, text) == Some(actions[j]),
    decreases j,
{
    if j > 0 {
        let rest = actions.drop_first();
        assert(!actions[0].is_applicable(text));
        assert(rest[j - 1] == actions[j]);
        assert forall|k: int| 0 <= k < j - 1 implies !(#[trigger] rest[k]).is_applicable(text) by {
            assert(rest[k] == actions[k + 1]);
        }
        lemma_first_applicable_at(rest, text, j - 1);
    }
}

/// No answer is chosen exactly when no mapping has one.
pub proof fn lemma_chosen_response_none(
    mappings: Seq<MappingView>,
    topic: Seq<char>,
    text: Seq<char>,
)
    ensures
        chosen_response(mappings, topic, text) is None <==> forall|i: int|
            0 <= i < mappings.len() ==> mapping_response(#[trigger] mappings[i], topic, text)
                is None,
    decreases mappings.len(),
{
    if mappings.len() > 0 {
        let rest = mappings.drop_first();
        lemma_chosen_response_none(rest, topic, text);
        if chosen_response(mappings, topic, text) is None {
            assert forall|i: int| 0 <= i < mappings.len() implies mapping_response(
                #[trigger] mappings[i],
                topic,
                text,
            ) is None by {
                if i > 0 {
                    assert(mappings[i] == rest[i - 1]);
                }
            }
        } else if mapping_response(mappings[0], topic, text) is None {
            let i = choose|i: int|
                0 <= i < rest.len() && mapping_response(#[trigger] rest[i], topic, text) is Some;
            assert(mappings[i + 1] == rest[i]);
        }
    }
}

/// The first mapping wins: a mapping that has an answer, after mappings that
/// have none, gives the chosen answer.
pub proof fn lemma_chosen_response_at(
    mappings: Seq<MappingView>,
    topic: Seq<char>,
    text: Seq<char>,
    i: int,
)
    requires
        0 <= i < mappings.len(),
        mapping_response(mappings[i], topic, text) is Some,
        forall|k: int| 0 <= k < i ==> mapping_response(#[trigger] mappings[k], topic, text) is None,
    ensures
        chosen_response(mappings, topic, text) == mapping_response(mappings[i], topic, text),
    decreases i,
{
    if i > 0 {
        let rest = mappings.drop_first();
        assert(mapping_response(mappings[0], topic, text) is None);
        assert(rest[i - 1] == mappings[i]);
        assert forall|k: int| 0 <= k < i - 1 implies mapping_response(
            #[trigger] rest[k],
            topic,
            text,
        ) is None by {
            assert(rest[k] == mappings[k + 1]);
        }
        lemma_chosen_response_at(rest, topic, text, i - 1);
    }
}

/// A message on a topic that no mapping names gets the fallback text,
/// whatever its text is.
pub proof fn lemma_unmapped_topic_gets_fallback(
    mappings: Seq<MappingView>,
    topic: Seq<char>,
    text: Seq<char>,
)
    requires
        forall|i: int| 0 <= i < mappings.len() ==> (#[trigger] mappings[i]).topic != topic,
    ensures
        decision(mappings, topic, text) == fallback(text),
{
    lemma_chosen_response_none(mappings, topic, text);
}

/// Where one mapping alone names the topic, its answer is the chosen one.
pub proof fn lemma_only_mapping_decides(
    mappings: Seq<MappingView>,
    topic: Seq<char>,
    text: Seq<char>,
    i: int,
)
    requires
        0 <= i < mappings.len(),
        forall|k: int| 0 <= k < mappings.len() && k != i ==> (#[trigger] mappings[k]).topic != topic,
    ensures
        chosen_response(mappings, topic, text) == mapping_response(mappings[i], topic, text),
{
    if mapping_response(mappings[i], topic, text) is Some {
        lemma_chosen_response_at(mappings, topic, text, i);
    } else {
        lemma_chosen_response_none(mappings, topic, text);
    }
}

/// A topic whose only mapping holds the single rule "on `value` say `say`":
/// the message `value` gets `say`, and every other message gets the fallback
/// text.
pub proof fn lemma_single_equals_rule(
    mappings: Seq<MappingView>,
    topic: Seq<char>,
    text: Seq<char>,
    i: int,
    value: Seq<char>,
    say: Seq<char>,
)
    requires
        0 <= i < mappings.len(),
        mappings[i].topic == topic,
        mappings[i].actions == seq![ActionView::OnValueEqSay { value, say }],
        forall|k: int| 0 <= k < mappings.len() && k != i ==> (#[trigger] mappings[k]).topic != topic,
    ensures
        text == value ==> decision(mappings, topic, text) == say,
        text != value ==> decision(mappings, topic, text) == fallback(text),
{
    lemma_only_mapping_decides(mappings, topic, text, i);
    reveal_with_fuel(first_applicable, 2);
}

/// A topic whose only mapping holds the single rule "unless `value` say
/// `say`": every message but `value` gets `say`, and the message `value` gets
/// the fallback text.
pub proof fn lemma_single_not_equals_rule(
    mappings: Seq<MappingView>,
    topic: Seq<char>,
    text: Seq<char>,
    i: int,
    value: Seq<char>,
    say: Seq<char>,
)
    requires
        0 <= i < mappings.len(),
        mappings[i].topic == topic,
        mappings[i].actions == seq![ActionView::OnValueNeSay { value, say }],
        forall|k: int| 0 <= k < mappings.len() && k != i ==> (#[trigger] mappings[k]).topic != topic,
    ensures
        text != value ==> decision(mappings, topic, text) == say,
        text == value ==> decision(mappings, topic, text) == fallback(text),
{
    lemma_only_mapping_decides(mappings, topic, text, i);
    reveal_with_fuel(first_applicable, 2);
}

impl Mapping {
    /// The first rule of this mapping, in order, that applies to
    /// `message_text`.
    pub fn first_applicable(&self, message_text: &str) -> (found: Option<&Action>)
        ensures
            match found {
                Some(action) => first_applicable(self@.actions, message_text@) == Some(action@),
                None => first_applicable(self@.actions, message_text@) is None,
            },
    {
        let ghost actions = self@.actions;
        let mut i: usize = 0;
        assert(actions.skip(0) =~= actions);
        while i < self.actions.len()
            invariant
                i <= self.actions.len(),
                actions == self@.actions,
                first_applicable(actions, message_text@) == first_applicable(
                    actions.skip(i as int),
                    message_text@,
                ),
            decreases self.actions.len() - i,
        {
            let action = &self.actions[i];
            proof {
                let rest = actions.skip(i as int);
                assert(rest[0] == action@);
                assert(rest.drop_first() =~= actions.skip(i + 1));
            }
            if action.is_applicable(message_text) {
                return Some(action);
            }
            i += 1;
        }
        None
    }
}

/// The text of the notification for a message with text `message_text` that
/// arrived on `topic`.
pub fn decide(config: &Config, topic: &str, message_text: &str) -> (response: String)
    ensures
        response@ == decision(config@.mappings, topic@, message_text@),
{
    let ghost mappings = config@.mappings;
    let mut i: usize = 0;
    assert(mappings.skip(0) =~= mappings);
    while i < config.mappings.len()
        invariant
            i <= config.mappings.len(),
            mappings == config@.mappings,
            chosen_response(mappings, topic@, message_text@) == chosen_response(
                mappings.skip(i as int),
                topic@,
                message_text@,
            ),
        decreases config.mappings.len() - i,
    {
        let mapping = &config.mappings[i];
        proof {
            let rest = mappings.skip(i as int);
            assert(rest[0] == mapping@);
            assert(rest.drop_first() =~= mappings.skip(i + 1));
        }
        if *mapping.topic.as_str() == *topic {
            if let Some(action) = mapping.first_applicable(message_text) {
                return action.say().to_owned();
            }
        }
        i += 1;
    }
    String::from_str("Received message: ").concat(message_text)
}

} // verus!
