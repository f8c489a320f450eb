//! What is recorded of a response to a prompt, and what is refused.

use vstd::prelude::*;
use crate::agent_proto::events::{CliEventView, SubmittedValue, SubmittedValueView, UiErrorReason};
use crate::agent_proto::validate::{
    bound_entries, coerced, deduped, default_text, first_unknown, recorded, refusal_event,
    regex_verdict, texts_of, validated, ValidationErrorView,
};
use crate::assoc;
use crate::assoc::{lookup, with_value};
use crate::double::{double_less, finite};
use crate::engine::model::{KeyText, KeyTextView};
use crate::json::{json_text, JsonFieldView, JsonView};
use crate::text::{decimal, joined, split_on, trimmed};
use crate::ui::{ComponentType, ComponentValueView, UiComponentView, UiOptionView};

verus! {

/// Whether a value is refused as not fit, with what was expected.
pub open spec fn refuses(
    out: Result<Seq<char>, ValidationErrorView>,
    c: UiComponentView,
    value: JsonView,
    expected: Seq<char>,
) -> bool {
    out matches Err(e) && e.reason == UiErrorReason::InvalidValue && e.field == Some(c.key)
        && e.got == Some(value) && e.expected == Some(expected)
}

/// Whether a text names the type of a component, and its choices where it has
/// any.
pub open spec fn describes(text: Seq<char>, c: UiComponentView) -> bool {
    &&& c.options is None ==> text == c.wire_type
    &&& c.options matches Some(options) ==> text == c.wire_type + " (one of: "@ + joined(
        options.map_values(|o: UiOptionView| o.value),
        ", "@,
    ) + ")"@
}

/// A switch takes a truth value, or one of the words `true` and `false`, and
/// records the word; it takes nothing else.
pub proof fn law_switches_record_their_state(c: UiComponentView, v: SubmittedValueView)
    requires
        c.component_type == ComponentType::Switch,
    ensures
        coerced(c, v) == Ok::<Seq<char>, ValidationErrorView>("true"@) <==> (v.value
            == JsonView::Bool(true) || v.value == JsonView::Text("true"@)),
        coerced(c, v) == Ok::<Seq<char>, ValidationErrorView>("false"@) <==> (v.value
            == JsonView::Bool(false) || v.value == JsonView::Text("false"@)),
        coerced(c, v) is Ok <==> (v.value is Bool || v.value == JsonView::Text("true"@) || v.value
            == JsonView::Text("false"@)),
        coerced(c, v) is Err ==> refuses(
            coerced(c, v),
            c,
            v.value,
            "switch: bool or \"true\"/\"false\" (lowercase)"@,
        ),
{
    lemma_truth_words();
}

proof fn lemma_truth_words()
    ensures
        "true"@ != "false"@,
{
    reveal_strlit("true");
    reveal_strlit("false");
    assert("true"@[0] == 't' && "false"@[0] == 'f');
}

/// Whether a value reads as a double of some pattern: a number does, and a text
/// that was read as one.
pub open spec fn reads_as(v: SubmittedValueView, bits: u64) -> bool {
    ||| v.value matches JsonView::Number(n) && n.bits == Some(bits)
    ||| v.value is Text && v.numeric == Some(bits)
}

/// A number field takes what reads as a finite number within its bounds, and
/// records it in the form it came in.
pub proof fn law_numbers_are_recorded(c: UiComponentView, v: SubmittedValueView)
    requires
        c.component_type == ComponentType::NumberInput || c.component_type == ComponentType::Slider,
    ensures
        coerced(c, v) is Ok <==> exists|bits: u64|
            #![trigger reads_as(v, bits)]
            reads_as(v, bits) && finite(bits) && (c.min is Some ==> !double_less(
                bits,
                c.min->0.bits,
            )) && (c.max is Some ==> !double_less(c.max->0.bits, bits)),
        coerced(c, v) matches Ok(s) ==> (v.value matches JsonView::Number(n) && s == n.text)
            || v.value == JsonView::Text(s),
        forall|bits: u64|
            #![trigger reads_as(v, bits)]
            reads_as(v, bits) ==> {
                &&& !finite(bits) ==> refuses(
                    coerced(c, v),
                    c,
                    v.value,
                    "finite number (not NaN/Infinity)"@,
                )
                &&& finite(bits) && c.min is Some && double_less(bits, c.min->0.bits) ==> refuses(
                    coerced(c, v),
                    c,
                    v.value,
                    ">= "@ + c.min->0.display,
                )
                &&& finite(bits) && !(c.min is Some && double_less(bits, c.min->0.bits)) && c.max
                    is Some && double_less(c.max->0.bits, bits) ==> refuses(
                    coerced(c, v),
                    c,
                    v.value,
                    "<= "@ + c.max->0.display,
                )
            },
        (forall|bits: u64| !#[trigger] reads_as(v, bits)) ==> coerced(c, v) is Err && describes(
            coerced(c, v)->Err_0.expected->0,
            c,
        ) && refuses(coerced(c, v), c, v.value, coerced(c, v)->Err_0.expected->0),
{
    match v.value {
        JsonView::Number(n) => {
            if let Some(bits) = n.bits {
                assert(reads_as(v, bits));
            }
        },
        JsonView::Text(_) => {
            if let Some(bits) = v.numeric {
                assert(reads_as(v, bits));
            }
        },
        _ => {},
    }
}

proof fn lemma_texts(items: Seq<JsonView>)
    ensures
        texts_of(items) is Some <==> forall|i: int|
            0 <= i < items.len() ==> (#[trigger] items[i]) is Text,
        texts_of(items) matches Some(parts) ==> parts.len() == items.len() && forall|i: int|
            0 <= i < items.len() ==> #[trigger] items[i] == JsonView::Text(parts[i]),
    decreases items.len(),
{
    if items.len() > 0 {
        let rest = items.drop_last();
        lemma_texts(rest);
        if texts_of(rest) is Some && items.last() is Text {
            assert forall|i: int| 0 <= i < items.len() implies #[trigger] items[i]
                == JsonView::Text(texts_of(items)->0[i]) by {
                if i < rest.len() {
                    assert(rest[i] == items[i]);
                }
            }
        } else if texts_of(rest) is None {
            let i = choose|i: int| 0 <= i < rest.len() && !((#[trigger] rest[i]) is Text);
            assert(!(items[i] is Text));
        } else {
            assert(!(items[items.len() - 1] is Text));
        }
    }
}

/// Whether every part of a list that is not empty is among the choices.
pub open spec fn all_offered(list: Seq<char>, options: Seq<UiOptionView>) -> bool {
    forall|i: int|
        0 <= i < split_on(list, ',').len() && (#[trigger] split_on(list, ',')[i]).len() > 0
            ==> exists|k: int|
            0 <= k < options.len() && (#[trigger] options[k]).value == split_on(list, ',')[i]
}

/// The choices of several are recorded each once, with commas between, where
/// all are texts and on offer; a text is recorded as it is where its parts are
/// on offer.
pub proof fn law_choices_are_recorded(c: UiComponentView, v: SubmittedValueView, list: Seq<char>)
    requires
        c.component_type == ComponentType::Multiselect || c.component_type
            == ComponentType::Checklist,
    ensures
        coerced(c, v) == Ok::<Seq<char>, ValidationErrorView>(list) ==> (c.options is Some
            ==> all_offered(list, c.options->0)) && (v.value == JsonView::Text(list) || (v.value
            matches JsonView::Array(items) && exists|parts: Seq<Seq<char>>|
            list == joined(#[trigger] deduped(parts), seq![',']) && parts.len() == items.len()
                && forall|i: int|
                0 <= i < items.len() ==> #[trigger] items[i] == JsonView::Text(parts[i]))),
        v.value == JsonView::Text(list) && (c.options is Some ==> all_offered(list, c.options->0))
            ==> coerced(c, v) == Ok::<Seq<char>, ValidationErrorView>(list),
        v.value matches JsonView::Array(items) ==> ((forall|i: int|
            0 <= i < items.len() ==> (#[trigger] items[i]) is Text) && c.options is None
            ==> coerced(c, v) is Ok),
        v.value matches JsonView::Array(items) ==> ((exists|i: int|
            0 <= i < items.len() && !((#[trigger] items[i]) is Text)) ==> coerced(c, v) is Err),
        !(v.value is Array) && !(v.value is Text) ==> coerced(c, v) is Err,
        coerced(c, v) matches Err(e) ==> e.reason == UiErrorReason::InvalidValue && e.field == Some(
            c.key,
        ) && e.got == Some(v.value) && e.expected is Some && (describes(e.expected->0, c) || (
        c.options is Some && e.expected->0 == "subset of: "@ + joined(
            c.options->0.map_values(|o: UiOptionView| o.value),
            ", "@,
        ))),
{
    reveal_strlit(",");
    assert(","@ =~= seq![',']);
    if let JsonView::Array(items) = v.value {
        lemma_texts(items);
        if let Some(parts) = texts_of(items) {
            assert(joined(deduped(parts), ","@) == joined(deduped(parts), seq![',']));
        }
    }
    if let Some(options) = c.options {
        match crate::agent_proto::validate::list_text(c, v.value) {
            Ok(s) => {
                lemma_offered(s, options);
            },
            Err(_) => {},
        }
        lemma_offered(list, options);
    }
}

proof fn lemma_offered(list: Seq<char>, options: Seq<UiOptionView>)
    ensures
        all_offered(list, options) <==> crate::agent_proto::validate::all_allowed(
            list,
            crate::agent_proto::validate::allowed(options),
        ),
{
    let values = crate::agent_proto::validate::allowed(options);
    let parts = split_on(list, ',');
    if all_offered(list, options) {
        assert forall|i: int| 0 <= i < parts.len() && (#[trigger] parts[i]).len() > 0 implies values.contains(
            parts[i],
        ) by {
            let k = choose|k: int|
                0 <= k < options.len() && (#[trigger] options[k]).value == parts[i];
            assert(values[k] == parts[i]);
        }
    }
    if crate::agent_proto::validate::all_allowed(list, values) {
        assert forall|i: int| 0 <= i < parts.len() && (#[trigger] parts[i]).len() > 0 implies exists|
            k: int,
        |
            0 <= k < options.len() && (#[trigger] options[k]).value == parts[i] by {
            assert(values.contains(parts[i]));
            let k = choose|k: int| 0 <= k < values.len() && values[k] == parts[i];
            assert(options[k].value == parts[i]);
        }
    }
}

/// A list of texts that are all on offer is recorded.
pub proof fn law_offered_lists_are_recorded(
    c: UiComponentView,
    v: SubmittedValueView,
    parts: Seq<Seq<char>>,
)
    requires
        c.component_type == ComponentType::Multiselect || c.component_type
            == ComponentType::Checklist,
        v.value == JsonView::Array(parts.map_values(|s: Seq<char>| JsonView::Text(s))),
        c.options is Some ==> all_offered(joined(deduped(parts), seq![',']), c.options->0),
    ensures
        coerced(c, v) == Ok::<Seq<char>, ValidationErrorView>(joined(deduped(parts), seq![','])),
{
    reveal_strlit(",");
    assert(","@ =~= seq![',']);
    let items = v.value->Array_0;
    lemma_texts(items);
    assert forall|i: int| 0 <= i < items.len() implies (#[trigger] items[i]) is Text by {}
    assert forall|i: int| 0 <= i < parts.len() implies texts_of(items)->0[i] == parts[i] by {
        assert(items[i] == JsonView::Text(parts[i]));
    }
    assert(texts_of(items)->0 =~= parts);
    if let Some(options) = c.options {
        lemma_offered(joined(deduped(parts), seq![',']), options);
    }
}

/// What was submitted twice is recorded where it came first.
pub proof fn law_first_of_equals_stays(parts: Seq<Seq<char>>, s: Seq<char>)
    ensures
        deduped(Seq::empty()).len() == 0,
        parts.contains(s) ==> deduped(parts.push(s)) == deduped(parts),
        !parts.contains(s) ==> deduped(parts.push(s)) == deduped(parts).push(s),
{
    crate::agent_proto::validate::law_deduped(parts);
    assert(parts.push(s).drop_last() =~= parts);
}

/// A text field records its text, trimmed where the component says so. One
/// that is required is not empty; a text that is not empty keeps within the
/// bounds of its length and matches the pattern, where there is one that can
/// be read.
pub proof fn law_texts_are_recorded(c: UiComponentView, v: SubmittedValueView, s: Seq<char>)
    requires
        c.component_type == ComponentType::TextInput || c.component_type == ComponentType::Textarea,
        v.value == JsonView::Text(s),
    ensures
        ({
            let kept = if c.trim {
                trimmed(s)
            } else {
                s
            };
            let empty = kept.len() == 0;
            let short = !empty && c.min_length is Some && kept.len() < c.min_length->0;
            let long = !empty && c.max_length is Some && kept.len() > c.max_length->0;
            let off = !empty && c.pattern is Some && regex_verdict(c.pattern->0, kept) == Some(
                false,
            );
            &&& coerced(c, v) is Ok <==> !(c.required && empty) && !short && !long && !off
            &&& coerced(c, v) is Ok ==> coerced(c, v)->Ok_0 == kept
            &&& c.required && empty ==> refuses(coerced(c, v), c, v.value, "non-empty text"@)
            &&& short ==> refuses(
                coerced(c, v),
                c,
                v.value,
                "at least "@ + decimal(c.min_length->0 as nat) + " characters"@,
            )
            &&& long && !short ==> refuses(
                coerced(c, v),
                c,
                v.value,
                "at most "@ + decimal(c.max_length->0 as nat) + " characters"@,
            )
            &&& off && !short && !long ==> refuses(
                coerced(c, v),
                c,
                v.value,
                "match pattern: "@ + c.pattern->0,
            )
        }),
{
}

/// A text field takes nothing but texts.
pub proof fn law_text_fields_take_texts(c: UiComponentView, v: SubmittedValueView)
    requires
        c.component_type == ComponentType::TextInput || c.component_type == ComponentType::Textarea,
        !(v.value is Text),
    ensures
        coerced(c, v) matches Err(e) && e.expected is Some && describes(e.expected->0, c)
            && refuses(coerced(c, v), c, v.value, e.expected->0),
{
}

/// Any other component records a text as it is, a number as it is written and
/// a truth value as its word. A choice of one is on offer.
pub proof fn law_plain_values_are_recorded(c: UiComponentView, v: SubmittedValueView, s: Seq<char>)
    requires
        ({
            let t = c.component_type;
            t == ComponentType::Radio || t == ComponentType::Select || t == ComponentType::Image || t
                == ComponentType::Text || t == ComponentType::Other
        }),
    ensures
        ({
            let one = c.component_type == ComponentType::Radio || c.component_type
                == ComponentType::Select;
            let written = v.value == JsonView::Text(s) || (v.value matches JsonView::Number(n)
                && n.text == s) || (v.value == JsonView::Bool(true) && s == "true"@) || (v.value
                == JsonView::Bool(false) && s == "false"@);
            let offered = c.options matches Some(options) ==> exists|k: int|
                0 <= k < options.len() && (#[trigger] options[k]).value == s;
            &&& coerced(c, v) == Ok::<Seq<char>, ValidationErrorView>(s) <==> written && (one
                ==> offered)
            &&& written && one && !offered ==> refuses(
                coerced(c, v),
                c,
                v.value,
                "one of: "@ + joined(
                    c.options->0.map_values(|o: UiOptionView| o.value),
                    ", "@,
                ),
            )
        }),
        v.value is Null || v.value is Array || v.value is Object ==> (coerced(c, v) matches Err(e)
            && e.expected is Some && describes(e.expected->0, c) && refuses(
            coerced(c, v),
            c,
            v.value,
            e.expected->0,
        )),
{
    if let Some(options) = c.options {
        let values = options.map_values(|o: UiOptionView| o.value);
        assert(crate::agent_proto::validate::allowed(options) =~= values);
        if values.contains(s) {
            let k = choose|k: int| 0 <= k < values.len() && values[k] == s;
            assert(options[k].value == s);
        }
        if exists|k: int| 0 <= k < options.len() && (#[trigger] options[k]).value == s {
            let k = choose|k: int| 0 <= k < options.len() && (#[trigger] options[k]).value == s;
            assert(values[k] == s);
        }
    }
}

/// A declared default is recorded as what was submitted would be; an empty one
/// is none.
pub proof fn law_defaults_are_recorded(c: UiComponentView)
    ensures
        c.default_value matches Some(ComponentValueView::String(s)) ==> (s.len() > 0
            ==> default_text(c) == Some(s)) && (s.len() == 0 ==> default_text(c) is None),
        c.default_value matches Some(ComponentValueView::Number(n)) ==> default_text(c) == Some(n),
        c.default_value == Some(ComponentValueView::Boolean(true)) ==> default_text(c) == Some(
            "true"@,
        ),
        c.default_value == Some(ComponentValueView::Boolean(false)) ==> default_text(c) == Some(
            "false"@,
        ),
        c.default_value matches Some(ComponentValueView::Array(a)) ==> (a.len() > 0 ==> default_text(
            c,
        ) == Some(joined(a, seq![',']))) && (a.len() == 0 ==> default_text(c) is None),
        c.default_value is None ==> default_text(c) is None,
{
    reveal_strlit(",");
    assert(","@ =~= seq![',']);
}

/// A value that no component asks for refuses the response, the first such
/// value before anything else.
pub proof fn law_unknown_values_are_refused(
    components: Seq<UiComponentView>,
    values: Seq<SubmittedValueView>,
    k: int,
)
    requires
        0 <= k < values.len(),
        forall|i: int| 0 <= i < components.len() ==> (#[trigger] components[i]).key != values[k].key,
        forall|j: int|
            0 <= j < k ==> exists|i: int|
                0 <= i < components.len() && (#[trigger] components[i]).key == (
                #[trigger] values[j]).key,
    ensures
        validated(components, values) matches Err(e) && e.reason == UiErrorReason::UnknownField
            && e.field == Some(values[k].key) && e.got is None && e.expected is None,
{
    lemma_first_unknown(components, values, k);
}

proof fn lemma_first_unknown(
    components: Seq<UiComponentView>,
    values: Seq<SubmittedValueView>,
    k: int,
)
    requires
        0 <= k <= values.len(),
        k < values.len() ==> forall|i: int|
            0 <= i < components.len() ==> (#[trigger] components[i]).key != values[k].key,
        forall|j: int|
            0 <= j < k ==> exists|i: int|
                0 <= i < components.len() && (#[trigger] components[i]).key == (
                #[trigger] values[j]).key,
    ensures
        k < values.len() ==> first_unknown(components, values) == Some(values[k].key),
        k == values.len() ==> first_unknown(components, values) is None,
    decreases values.len(),
{
    if values.len() > 0 {
        let rest = values.drop_last();
        let at = if k < values.len() {
            k
        } else {
            k - 1
        };
        assert forall|j: int| 0 <= j < at implies exists|i: int|
            0 <= i < components.len() && (#[trigger] components[i]).key == (#[trigger] rest[j]).key by {
            assert(rest[j] == values[j]);
            assert(exists|i: int|
                0 <= i < components.len() && (#[trigger] components[i]).key == values[j].key);
        }
        if at < rest.len() {
            assert(rest[at] == values[at]);
            lemma_first_unknown(components, rest, at);
        } else {
            lemma_first_unknown(components, rest, at);
            if k == values.len() {
                assert(values[k - 1] == values.last());
            }
        }
    }
}

/// The components are looked at in order. A component that takes no input
/// records nothing; one whose value was submitted records it; one that is
/// required and was not submitted refuses the response; any other records
/// its default. The first refusal stands.
pub proof fn law_components_are_recorded_in_order(
    components: Seq<UiComponentView>,
    c: UiComponentView,
    values: Seq<SubmittedValueView>,
    k: int,
)
    requires
        0 <= k <= values.len(),
        k < values.len() ==> values[k].key == c.key,
        forall|j: int| 0 <= j < k ==> (#[trigger] values[j]).key != c.key,
    ensures
        recorded(Seq::empty(), values) matches Ok(out) && out.len() == 0,
        ({
            let before = recorded(components, values);
            let after = recorded(components.push(c), values);
            &&& before is Err ==> after == before
            &&& before matches Ok(out) ==> {
                &&& !c.is_input ==> after == before
                &&& c.is_input && k < values.len() ==> {
                    &&& coerced(c, values[k]) matches Err(e) ==> after == Err::<
                        Seq<KeyTextView>,
                        ValidationErrorView,
                    >(e)
                    &&& coerced(c, values[k]) matches Ok(s) ==> after is Ok && puts(
                        after->Ok_0,
                        out,
                        c.key,
                        s,
                    )
                }
                &&& c.is_input && k == values.len() && c.required ==> (after matches Err(e)
                    && e.reason == UiErrorReason::MissingRequired && e.field == Some(c.key) && e.got
                    is None && e.expected is Some && describes(e.expected->0, c))
                &&& c.is_input && k == values.len() && !c.required ==> {
                    &&& default_text(c) is None ==> after == before
                    &&& default_text(c) matches Some(s) ==> after is Ok && puts(
                        after->Ok_0,
                        out,
                        c.key,
                        s,
                    )
                }
            }
        }),
{
    assert(components.push(c).drop_last() =~= components);
    assoc::lemma_key_index_unique::<SubmittedValue>(values, c.key, k);
    if let Ok(out) = recorded(components, values) {
        if k < values.len() {
            if let Ok(s) = coerced(c, values[k]) {
                lemma_puts(out, c.key, s);
            }
        } else if let Some(s) = default_text(c) {
            lemma_puts(out, c.key, s);
        }
    }
}

/// Whether a list is another with a text under a key, and under every other
/// key what was there.
pub open spec fn puts(
    after: Seq<KeyTextView>,
    before: Seq<KeyTextView>,
    key: Seq<char>,
    text: Seq<char>,
) -> bool {
    &&& lookup::<KeyText>(after, key) == Some(KeyTextView { key, text })
    &&& forall|other: Seq<char>|
        other != key ==> #[trigger] lookup::<KeyText>(after, other) == lookup::<KeyText>(
            before,
            other,
        )
}

proof fn lemma_puts(before: Seq<KeyTextView>, key: Seq<char>, text: Seq<char>)
    ensures
        puts(with_value::<KeyText>(before, KeyTextView { key, text }), before, key, text),
{
    let value = KeyTextView { key, text };
    assoc::lemma_with_value::<KeyText>(before, value, key);
    assert forall|other: Seq<char>| other != key implies #[trigger] lookup::<KeyText>(
        with_value::<KeyText>(before, value),
        other,
    ) == lookup::<KeyText>(before, other) by {
        assoc::lemma_with_value::<KeyText>(before, value, other);
    }
}

/// A response whose values are all asked for is refused as its components
/// refuse it; one that is accepted is what they record, with the measurements
/// that components are bound to under a key of their own.
pub proof fn law_responses_are_recorded(
    components: Seq<UiComponentView>,
    values: Seq<SubmittedValueView>,
)
    requires
        forall|j: int|
            0 <= j < values.len() ==> exists|i: int|
                0 <= i < components.len() && (#[trigger] components[i]).key == (
                #[trigger] values[j]).key,
    ensures
        recorded(components, values) is Err ==> validated(components, values) == recorded(
            components,
            values,
        ),
        recorded(components, values) matches Ok(out) ==> {
            let bound = bound_entries(components, out);
            &&& validated(components, values) is Ok
            &&& bound.len() == 0 ==> validated(components, values)->Ok_0 == out
            &&& bound.len() > 0 ==> puts(
                validated(components, values)->Ok_0,
                out,
                "__bound_measurements__"@,
                json_text(JsonView::Object(bound)),
            )
        },
{
    lemma_first_unknown(components, values, values.len() as int);
    if let Ok(out) = recorded(components, values) {
        lemma_puts(
            out,
            "__bound_measurements__"@,
            json_text(JsonView::Object(bound_entries(components, out))),
        );
    }
}

/// A component that is bound to a measurement gives it the text that was
/// recorded; one that is bound to nothing, or to something else, gives none.
pub proof fn law_bound_measurements(
    components: Seq<UiComponentView>,
    c: UiComponentView,
    out: Seq<KeyTextView>,
    name: Seq<char>,
)
    ensures
        bound_entries(Seq::empty(), out).len() == 0,
        ({
            let before = bound_entries(components, out);
            let after = bound_entries(components.push(c), out);
            let entry = lookup::<KeyText>(out, c.key);
            &&& c.bind == Some("measurements."@ + name) && entry is Some ==> after == before.push(
                JsonFieldView { key: name, value: JsonView::Text(entry->0.text) },
            )
            &&& entry is None || c.bind is None ==> after == before
            &&& c.bind is Some && !"measurements."@.is_prefix_of(c.bind->0) ==> after == before
        }),
{
    assert(components.push(c).drop_last() =~= components);
    let bind = "measurements."@ + name;
    assert("measurements."@.is_prefix_of(bind));
    assert(bind.skip("measurements."@.len() as int) =~= name);
}

/// A refusal is sent as it is, for the prompt that was answered.
pub proof fn law_refusals_are_sent(e: ValidationErrorView, request_id: Seq<char>)
    ensures
        refusal_event(e, request_id) matches CliEventView::UiError {
            request_id: id,
            reason,
            field,
            got,
            expected,
        } && id == Some(request_id) && reason == e.reason && field == e.field && got == e.got
            && expected == e.expected,
{
}

} // verus!
