//! The check of operator responses against the components of a prompt.

use vstd::prelude::*;
use vstd::string::*;
use crate::agent_proto::events::{
    CliEvent, CliEventView, SubmittedValue, SubmittedValueView, UiErrorReason,
};
use crate::assoc;
use crate::assoc::{lookup, with_value};
use crate::double::{double_less, finite, is_finite, is_less};
use crate::dup::{push, Dup};
use crate::engine::model::{KeyText, KeyTextView};
use crate::json::{json_text, Json, JsonField, JsonFieldView, JsonView};
use crate::order::Keyed;
use crate::text;
use crate::text::{decimal, joined, split_on, trimmed};
use crate::ui::{
    ComponentType, ComponentValue, ComponentValueView, UiComponent, UiComponentView, UiOption,
    UiOptionView,
};

verus! {

/// Why a response was refused.
#[derive(Debug, PartialEq, Eq)]
pub struct ValidationError {
    pub reason: UiErrorReason,
    pub field: Option<String>,
    pub got: Option<Json>,
    pub expected: Option<String>,
}

/// View of [`ValidationError`].
pub struct ValidationErrorView {
    pub reason: UiErrorReason,
    pub field: Option<Seq<char>>,
    pub got: Option<JsonView>,
    pub expected: Option<Seq<char>>,
}

impl DeepView for ValidationError {
    type V = ValidationErrorView;

    open spec fn deep_view(&self) -> ValidationErrorView {
        ValidationErrorView {
            reason: self.reason.deep_view(),
            field: self.field.deep_view(),
            got: self.got.deep_view(),
            expected: self.expected.deep_view(),
        }
    }
}

impl Keyed for SubmittedValue {
    open spec fn sort_key(value: SubmittedValueView) -> Seq<char> {
        value.key
    }

    fn key_text(&self) -> (key: &str) {
        self.key.as_str()
    }
}

/// The key under which the engine looks for measurements bound to components.
pub const BOUND_MEASUREMENTS: &'static str = "__bound_measurements__";

/// The prefix of a binding to a measurement.
pub const MEASUREMENT_BIND: &'static str = "measurements.";

impl ValidationError {
    /// The refusal as an event for the agent.
    pub fn into_event(self, request_id: &str) -> (event: CliEvent)
        ensures
            event.deep_view() == refusal_event(self.deep_view(), request_id@),
    {
        CliEvent::UiError {
            request_id: Some(request_id.to_string()),
            reason: self.reason,
            field: self.field,
            got: self.got,
            expected: self.expected,
        }
    }
}

/// A refusal as an event for the agent.
pub open spec fn refusal_event(e: ValidationErrorView, request_id: Seq<char>) -> CliEventView {
    CliEventView::UiError {
        request_id: Some(request_id),
        reason: e.reason,
        field: e.field,
        got: e.got,
        expected: e.expected,
    }
}

// ---------------------------------------------------------------------------
// Patterns
// ---------------------------------------------------------------------------

/// What `regex` says of a pattern and a text: whether it matches anywhere, or
/// nothing where the pattern is not one.
pub uninterp spec fn regex_verdict(pattern: Seq<char>, text: Seq<char>) -> Option<bool>;

/// Whether a pattern matches a text; `None` where it is not a pattern.
///
/// Trusted: `regex::Regex::new` and `is_match` depend on the pattern and the
/// text alone.
#[verifier::external_body]
fn pattern_matches(pattern: &str, text: &str) -> (verdict: Option<bool>)
    ensures
        verdict == regex_verdict(pattern@, text@),
{
    regex::Regex::new(pattern).ok().map(|re| re.is_match(text))
}

// ---------------------------------------------------------------------------
// What is expected
// ---------------------------------------------------------------------------

/// The values that may be chosen.
pub open spec fn allowed(options: Seq<UiOptionView>) -> Seq<Seq<char>> {
    options.map_values(|o: UiOptionView| o.value)
}

fn allowed_values(options: &Vec<UiOption>) -> (out: Vec<String>)
    ensures
        out.deep_view() == allowed(options.deep_view()),
{
    let mut out: Vec<String> = Vec::new();
    let mut i: usize = 0;
    while i < options.len()
        invariant
            i <= options@.len(),
            out@.len() == i,
            forall|k: int| 0 <= k < i ==> (#[trigger] out@[k])@ == options@[k].value@,
        decreases options@.len() - i,
    {
        out.push(options[i].value.dup());
        i += 1;
    }
    assert(out.deep_view() =~= allowed(options.deep_view()));
    out
}

/// What a component expects, in words: its type, and its choices where it has
/// any.
pub open spec fn summary(c: UiComponentView) -> Seq<char> {
    match c.options {
        Some(options) => c.wire_type + " (one of: "@ + joined(allowed(options), ", "@) + ")"@,
        None => c.wire_type,
    }
}

/// What a component expects, in words.
pub fn expected_summary(c: &UiComponent) -> (s: String)
    ensures
        s@ == summary(c.deep_view()),
{
    match &c.options {
        Some(options) => {
            let values = allowed_values(options);
            let list = text::join(&values, ", ");
            let mut s = text::concat3(c.wire_type.as_str(), " (one of: ", list.as_str());
            s.append(")");
            s
        },
        None => c.wire_type.dup(),
    }
}

/// A refusal of a value.
pub open spec fn invalid(
    c: UiComponentView,
    value: JsonView,
    expected: Seq<char>,
) -> ValidationErrorView {
    ValidationErrorView {
        reason: UiErrorReason::InvalidValue,
        field: Some(c.key),
        got: Some(value),
        expected: Some(expected),
    }
}

fn refuse(c: &UiComponent, value: &Json, expected: String) -> (e: ValidationError)
    ensures
        e.deep_view() == invalid(c.deep_view(), value.deep_view(), expected@),
{
    ValidationError {
        reason: UiErrorReason::InvalidValue,
        field: Some(c.key.dup()),
        got: Some(value.dup()),
        expected: Some(expected),
    }
}

/// A result by the views of what it holds.
pub open spec fn view_of(r: Result<String, ValidationError>) -> Result<
    Seq<char>,
    ValidationErrorView,
> {
    match r {
        Ok(s) => Ok(s@),
        Err(e) => Err(e.deep_view()),
    }
}

// ---------------------------------------------------------------------------
// One value
// ---------------------------------------------------------------------------

/// The word of a truth value.
pub open spec fn bool_word(b: bool) -> Seq<char> {
    if b {
        "true"@
    } else {
        "false"@
    }
}

fn bool_text(b: bool) -> (s: String)
    ensures
        s@ == bool_word(b),
{
    if b {
        "true".to_string()
    } else {
        "false".to_string()
    }
}

/// The value of a switch.
pub open spec fn switch_text(c: UiComponentView, value: JsonView) -> Result<
    Seq<char>,
    ValidationErrorView,
> {
    match value {
        JsonView::Bool(b) => Ok(bool_word(b)),
        JsonView::Text(s) => if s == "true"@ || s == "false"@ {
            Ok(s)
        } else {
            Err(invalid(c, value, "switch: bool or \"true\"/\"false\" (lowercase)"@))
        },
        _ => Err(invalid(c, value, "switch: bool or \"true\"/\"false\" (lowercase)"@)),
    }
}

fn coerce_switch(c: &UiComponent, value: &Json) -> (r: Result<String, ValidationError>)
    ensures
        view_of(r) == switch_text(c.deep_view(), value.deep_view()),
{
    match value {
        Json::Bool(b) => Ok(bool_text(*b)),
        Json::Text(s) => if text::same(s.as_str(), "true") || text::same(s.as_str(), "false") {
            Ok(s.dup())
        } else {
            Err(
                refuse(
                    c,
                    value,
                    "switch: bool or \"true\"/\"false\" (lowercase)".to_string(),
                ),
            )
        },
        _ => Err(
            refuse(c, value, "switch: bool or \"true\"/\"false\" (lowercase)".to_string()),
        ),
    }
}

/// The double that a value reads as, by its bit pattern: the number itself, or
/// what was read of a text.
pub open spec fn reading(v: SubmittedValueView) -> Option<u64> {
    match v.value {
        JsonView::Number(n) => n.bits,
        JsonView::Text(_) => v.numeric,
        _ => None,
    }
}

/// The value of a number field or a slider: a number, or a text that reads as
/// one; finite, and within the bounds. It keeps the form it came in.
pub open spec fn number_text(c: UiComponentView, v: SubmittedValueView) -> Result<
    Seq<char>,
    ValidationErrorView,
> {
    match reading(v) {
        None => Err(invalid(c, v.value, summary(c))),
        Some(bits) => if !finite(bits) {
            Err(invalid(c, v.value, "finite number (not NaN/Infinity)"@))
        } else if c.min is Some && double_less(bits, c.min->0.bits) {
            Err(invalid(c, v.value, ">= "@ + c.min->0.display))
        } else if c.max is Some && double_less(c.max->0.bits, bits) {
            Err(invalid(c, v.value, "<= "@ + c.max->0.display))
        } else {
            match v.value {
                JsonView::Number(n) => Ok(n.text),
                JsonView::Text(s) => Ok(s),
                _ => arbitrary(),
            }
        },
    }
}

fn coerce_number(c: &UiComponent, v: &SubmittedValue) -> (r: Result<String, ValidationError>)
    ensures
        view_of(r) == number_text(c.deep_view(), v.deep_view()),
{
    let (shown, read) = match &v.value {
        Json::Number(n) => (n.text.dup(), n.bits),
        Json::Text(s) => (s.dup(), v.numeric),
        _ => {
            return Err(refuse(c, &v.value, expected_summary(c)));
        },
    };
    let bits: u64 = match read {
        Some(bits) => bits,
        None => {
            return Err(refuse(c, &v.value, expected_summary(c)));
        },
    };
    if !is_finite(bits) {
        return Err(refuse(c, &v.value, "finite number (not NaN/Infinity)".to_string()));
    }
    match &c.min {
        Some(min) => {
            if is_less(bits, min.bits) {
                return Err(refuse(c, &v.value, text::concat2(">= ", min.display.as_str())));
            }
        },
        None => {},
    }
    match &c.max {
        Some(max) => {
            if is_less(max.bits, bits) {
                return Err(refuse(c, &v.value, text::concat2("<= ", max.display.as_str())));
            }
        },
        None => {},
    }
    Ok(shown)
}

/// The texts of a list of values; `None` where one is not a text.
pub open spec fn texts_of(items: Seq<JsonView>) -> Option<Seq<Seq<char>>>
    decreases items.len(),
{
    if items.len() == 0 {
        Some(Seq::empty())
    } else {
        match (texts_of(items.drop_last()), items.last()) {
            (Some(rest), JsonView::Text(s)) => Some(rest.push(s)),
            _ => None,
        }
    }
}

/// The texts without those that came before, in order.
pub open spec fn deduped(parts: Seq<Seq<char>>) -> Seq<Seq<char>>
    decreases parts.len(),
{
    if parts.len() == 0 {
        Seq::empty()
    } else {
        let rest = deduped(parts.drop_last());
        if rest.contains(parts.last()) {
            rest
        } else {
            rest.push(parts.last())
        }
    }
}

/// The value of a choice of several: the chosen texts, each once, with commas
/// between.
pub open spec fn list_text(c: UiComponentView, value: JsonView) -> Result<
    Seq<char>,
    ValidationErrorView,
> {
    match value {
        JsonView::Array(items) => match texts_of(items) {
            Some(parts) => Ok(joined(deduped(parts), ","@)),
            None => Err(invalid(c, value, summary(c))),
        },
        JsonView::Text(s) => Ok(s),
        _ => Err(invalid(c, value, summary(c))),
    }
}

/// Whether a list holds a text.
pub fn contains_text(list: &Vec<String>, s: &str) -> (yes: bool)
    ensures
        yes == list.deep_view().contains(s@),
{
    let mut i: usize = 0;
    while i < list.len()
        invariant
            i <= list@.len(),
            forall|k: int| 0 <= k < i ==> (#[trigger] list.deep_view()[k]) != s@,
        decreases list@.len() - i,
    {
        assert(list.deep_view()[i as int] == list@[i as int]@);
        if text::same(list[i].as_str(), s) {
            return true;
        }
        i += 1;
    }
    false
}

proof fn lemma_texts_of_none(items: Seq<JsonView>, i: int)
    requires
        0 <= i < items.len(),
        !(items[i] is Text),
    ensures
        texts_of(items) is None,
    decreases items.len(),
{
    if i < items.len() - 1 {
        lemma_texts_of_none(items.drop_last(), i);
    }
}

fn dedup_texts(items: &Vec<Json>) -> (out: Option<Vec<String>>)
    ensures
        match out {
            Some(parts) => texts_of(items.deep_view()) is Some && parts.deep_view() == deduped(
                texts_of(items.deep_view())->0,
            ),
            None => texts_of(items.deep_view()) is None,
        },
{
    let mut out: Vec<String> = Vec::new();
    let mut i: usize = 0;
    assert(items.deep_view().take(0) =~= Seq::empty());
    assert(out.deep_view() =~= Seq::empty());
    while i < items.len()
        invariant
            i <= items@.len(),
            texts_of(items.deep_view().take(i as int)) is Some,
            out.deep_view() == deduped(texts_of(items.deep_view().take(i as int))->0),
        decreases items@.len() - i,
    {
        let ghost now = items.deep_view().take(i + 1);
        assert(now.drop_last() =~= items.deep_view().take(i as int));
        assert(now.last() == items@[i as int].deep_view());
        match &items[i] {
            Json::Text(s) => {
                let ghost before = texts_of(items.deep_view().take(i as int))->0;
                assert(before.push(s@).drop_last() =~= before);
                if !contains_text(&out, s.as_str()) {
                    push(&mut out, s.dup());
                }
            },
            _ => {
                proof {
                    assert(items.deep_view()[i as int] == items@[i as int].deep_view());
                    lemma_texts_of_none(items.deep_view(), i as int);
                }
                return None;
            },
        }
        i += 1;
    }
    assert(items.deep_view().take(items@.len() as int) =~= items.deep_view());
    Some(out)
}

fn coerce_list(c: &UiComponent, value: &Json) -> (r: Result<String, ValidationError>)
    ensures
        view_of(r) == list_text(c.deep_view(), value.deep_view()),
{
    match value {
        Json::Array(items) => {
            proof {
                assert(value.deep_view()->Array_0 =~= items.deep_view());
            }
            match dedup_texts(items) {
                Some(parts) => Ok(text::join(&parts, ",")),
                None => Err(refuse(c, value, expected_summary(c))),
            }
        },
        Json::Text(s) => Ok(s.dup()),
        _ => Err(refuse(c, value, expected_summary(c))),
    }
}

/// The text of a text field, as far as it is kept: trimmed where the
/// component says so.
pub open spec fn kept_text(c: UiComponentView, s: Seq<char>) -> Seq<char> {
    if c.trim {
        trimmed(s)
    } else {
        s
    }
}

/// The value of a text field: not empty where it is required; where it is not
/// empty, within the length bounds and matching the pattern. The verdict says
/// whether it matches; without one the pattern is passed over.
pub open spec fn checked_text(
    c: UiComponentView,
    value: JsonView,
    verdict: Option<bool>,
) -> Result<Seq<char>, ValidationErrorView> {
    match value {
        JsonView::Text(s) => {
            let kept = kept_text(c, s);
            if c.required && kept.len() == 0 {
                Err(invalid(c, value, "non-empty text"@))
            } else if kept.len() > 0 && c.min_length is Some && kept.len() < c.min_length->0 {
                Err(
                    invalid(
                        c,
                        value,
                        "at least "@ + decimal(c.min_length->0 as nat) + " characters"@,
                    ),
                )
            } else if kept.len() > 0 && c.max_length is Some && kept.len() > c.max_length->0 {
                Err(
                    invalid(
                        c,
                        value,
                        "at most "@ + decimal(c.max_length->0 as nat) + " characters"@,
                    ),
                )
            } else if kept.len() > 0 && c.pattern is Some && verdict == Some(false) {
                Err(invalid(c, value, "match pattern: "@ + c.pattern->0))
            } else {
                Ok(kept)
            }
        },
        _ => Err(invalid(c, value, summary(c))),
    }
}

/// What the pattern of a text field says of its value, where there are both.
pub open spec fn pattern_verdict(c: UiComponentView, value: JsonView) -> Option<bool> {
    match (c.pattern, value) {
        (Some(pattern), JsonView::Text(s)) => regex_verdict(pattern, kept_text(c, s)),
        _ => None,
    }
}

/// The value of a text field. A pattern that is not one is passed over.
pub open spec fn field_text(c: UiComponentView, value: JsonView) -> Result<
    Seq<char>,
    ValidationErrorView,
> {
    checked_text(c, value, pattern_verdict(c, value))
}

fn coerce_text(c: &UiComponent, value: &Json) -> (r: Result<String, ValidationError>)
    ensures
        view_of(r) == field_text(c.deep_view(), value.deep_view()),
{
    let verdict = match (&c.pattern, value) {
        (Some(pattern), Json::Text(s)) => {
            let kept = keep_text(c, s);
            pattern_matches(pattern.as_str(), kept.as_str())
        },
        _ => None,
    };
    check_text(c, value, verdict)
}

fn keep_text(c: &UiComponent, s: &String) -> (kept: String)
    ensures
        kept@ == kept_text(c.deep_view(), s@),
{
    if c.trim {
        text::trim(s.as_str())
    } else {
        s.dup()
    }
}

/// Checks the value of a text field, by what its pattern says of it.
pub fn check_text(c: &UiComponent, value: &Json, verdict: Option<bool>) -> (r: Result<
    String,
    ValidationError,
>)
    ensures
        view_of(r) == checked_text(c.deep_view(), value.deep_view(), verdict),
{
    let s = match value {
        Json::Text(s) => s,
        _ => {
            return Err(refuse(c, value, expected_summary(c)));
        },
    };
    let kept = keep_text(c, s);
    if kept.as_str().is_empty() {
        if c.required {
            return Err(refuse(c, value, "non-empty text".to_string()));
        }
        return Ok(kept);
    }
    let len: usize = text::chars_of(kept.as_str()).len();
    match c.min_length {
        Some(min) => {
            if len < min as usize {
                let n = text::decimal_text(min as u64);
                return Err(
                    refuse(c, value, text::concat3("at least ", n.as_str(), " characters")),
                );
            }
        },
        None => {},
    }
    match c.max_length {
        Some(max) => {
            if len > max as usize {
                let n = text::decimal_text(max as u64);
                return Err(
                    refuse(c, value, text::concat3("at most ", n.as_str(), " characters")),
                );
            }
        },
        None => {},
    }
    match &c.pattern {
        Some(pattern) => match verdict {
            Some(false) => {
                return Err(refuse(c, value, text::concat2("match pattern: ", pattern.as_str())));
            },
            _ => {},
        },
        None => {},
    }
    Ok(kept)
}

/// The value of any other component: a text, a number or a truth value.
pub open spec fn plain_text(c: UiComponentView, value: JsonView) -> Result<
    Seq<char>,
    ValidationErrorView,
> {
    match value {
        JsonView::Text(s) => Ok(s),
        JsonView::Number(n) => Ok(n.text),
        JsonView::Bool(b) => Ok(bool_word(b)),
        _ => Err(invalid(c, value, summary(c))),
    }
}

fn coerce_plain(c: &UiComponent, value: &Json) -> (r: Result<String, ValidationError>)
    ensures
        view_of(r) == plain_text(c.deep_view(), value.deep_view()),
{
    match value {
        Json::Text(s) => Ok(s.dup()),
        Json::Number(n) => Ok(n.text.dup()),
        Json::Bool(b) => Ok(bool_text(*b)),
        _ => Err(refuse(c, value, expected_summary(c))),
    }
}

/// The value of a component by its type, before the choices are looked at.
pub open spec fn typed_text(c: UiComponentView, v: SubmittedValueView) -> Result<
    Seq<char>,
    ValidationErrorView,
> {
    match c.component_type {
        ComponentType::Switch => switch_text(c, v.value),
        ComponentType::NumberInput | ComponentType::Slider => number_text(c, v),
        ComponentType::Multiselect | ComponentType::Checklist => list_text(c, v.value),
        ComponentType::TextInput | ComponentType::Textarea => field_text(c, v.value),
        _ => plain_text(c, v.value),
    }
}

/// Whether every part between commas that is not empty may be chosen.
pub open spec fn all_allowed(s: Seq<char>, values: Seq<Seq<char>>) -> bool {
    forall|i: int|
        0 <= i < split_on(s, ',').len() && (#[trigger] split_on(s, ',')[i]).len() > 0
            ==> values.contains(split_on(s, ',')[i])
}

/// The value of a component, checked against its choices.
pub open spec fn chosen(c: UiComponentView, value: JsonView, s: Seq<char>) -> Result<
    Seq<char>,
    ValidationErrorView,
> {
    match c.options {
        Some(options) => match c.component_type {
            ComponentType::Radio | ComponentType::Select => if allowed(options).contains(s) {
                Ok(s)
            } else {
                Err(invalid(c, value, "one of: "@ + joined(allowed(options), ", "@)))
            },
            ComponentType::Multiselect | ComponentType::Checklist => if all_allowed(
                s,
                allowed(options),
            ) {
                Ok(s)
            } else {
                Err(invalid(c, value, "subset of: "@ + joined(allowed(options), ", "@)))
            },
            _ => Ok(s),
        },
        None => Ok(s),
    }
}

/// The text that a submitted value is recorded as, or why it is refused.
pub open spec fn coerced(c: UiComponentView, v: SubmittedValueView) -> Result<
    Seq<char>,
    ValidationErrorView,
> {
    match typed_text(c, v) {
        Ok(s) => chosen(c, v.value, s),
        Err(e) => Err(e),
    }
}

fn parts_allowed(s: &str, values: &Vec<String>) -> (yes: bool)
    ensures
        yes == all_allowed(s@, values.deep_view()),
{
    let parts = text::split(s, ',');
    let mut i: usize = 0;
    while i < parts.len()
        invariant
            i <= parts@.len(),
            parts.deep_view() == split_on(s@, ','),
            forall|k: int|
                0 <= k < i && (#[trigger] split_on(s@, ',')[k]).len() > 0
                    ==> values.deep_view().contains(split_on(s@, ',')[k]),
        decreases parts@.len() - i,
    {
        assert(split_on(s@, ',')[i as int] == parts@[i as int]@);
        if !parts[i].as_str().is_empty() && !contains_text(values, parts[i].as_str()) {
            return false;
        }
        i += 1;
    }
    true
}

fn check_choice(c: &UiComponent, value: &Json, s: String) -> (r: Result<String, ValidationError>)
    ensures
        view_of(r) == chosen(c.deep_view(), value.deep_view(), s@),
{
    let options = match &c.options {
        Some(options) => options,
        None => {
            return Ok(s);
        },
    };
    let values = allowed_values(options);
    match c.component_type {
        ComponentType::Radio | ComponentType::Select => {
            if !contains_text(&values, s.as_str()) {
                let list = text::join(&values, ", ");
                return Err(refuse(c, value, text::concat2("one of: ", list.as_str())));
            }
        },
        ComponentType::Multiselect | ComponentType::Checklist => {
            if !parts_allowed(s.as_str(), &values) {
                let list = text::join(&values, ", ");
                return Err(refuse(c, value, text::concat2("subset of: ", list.as_str())));
            }
        },
        _ => {},
    }
    Ok(s)
}

/// Checks one submitted value against its component, and gives the text that
/// it is recorded as.
pub fn coerce_value(c: &UiComponent, v: &SubmittedValue) -> (r: Result<String, ValidationError>)
    ensures
        view_of(r) == coerced(c.deep_view(), v.deep_view()),
{
    let typed = match c.component_type {
        ComponentType::Switch => coerce_switch(c, &v.value),
        ComponentType::NumberInput | ComponentType::Slider => coerce_number(c, v),
        ComponentType::Multiselect | ComponentType::Checklist => coerce_list(c, &v.value),
        ComponentType::TextInput | ComponentType::Textarea => coerce_text(c, &v.value),
        _ => coerce_plain(c, &v.value),
    };
    match typed {
        Ok(s) => check_choice(c, &v.value, s),
        Err(e) => Err(e),
    }
}

// ---------------------------------------------------------------------------
// A whole response
// ---------------------------------------------------------------------------

/// The declared default of a component as it is recorded; `None` where there
/// is none or it is empty.
pub open spec fn default_text(c: UiComponentView) -> Option<Seq<char>> {
    match c.default_value {
        Some(ComponentValueView::String(s)) => if s.len() > 0 {
            Some(s)
        } else {
            None
        },
        Some(ComponentValueView::Number(n)) => Some(n),
        Some(ComponentValueView::Boolean(b)) => Some(bool_word(b)),
        Some(ComponentValueView::Array(a)) => if a.len() > 0 {
            Some(joined(a, ","@))
        } else {
            None
        },
        None => None,
    }
}

/// The declared default of a component as it is recorded.
pub fn default_value_string(c: &UiComponent) -> (s: Option<String>)
    ensures
        s.deep_view() == default_text(c.deep_view()),
{
    match &c.default_value {
        Some(ComponentValue::String(s)) => if s.as_str().is_empty() {
            None
        } else {
            Some(s.dup())
        },
        Some(ComponentValue::Number(n)) => Some(n.dup()),
        Some(ComponentValue::Boolean(b)) => Some(bool_text(*b)),
        Some(ComponentValue::Array(a)) => if a.len() > 0 {
            Some(text::join(a, ","))
        } else {
            None
        },
        None => None,
    }
}

/// Whether a key is that of a component.
pub open spec fn is_known(components: Seq<UiComponentView>, key: Seq<char>) -> bool {
    exists|i: int| 0 <= i < components.len() && (#[trigger] components[i]).key == key
}

fn known_key(components: &Vec<UiComponent>, key: &str) -> (yes: bool)
    ensures
        yes == is_known(components.deep_view(), key@),
{
    let mut i: usize = 0;
    while i < components.len()
        invariant
            i <= components@.len(),
            forall|k: int| 0 <= k < i ==> (#[trigger] components.deep_view()[k]).key != key@,
        decreases components@.len() - i,
    {
        assert(components.deep_view()[i as int] == components@[i as int].deep_view());
        if text::same(components[i].key.as_str(), key) {
            return true;
        }
        i += 1;
    }
    false
}

/// The first submitted value that no component asks for.
pub open spec fn first_unknown(
    components: Seq<UiComponentView>,
    values: Seq<SubmittedValueView>,
) -> Option<Seq<char>>
    decreases values.len(),
{
    if values.len() == 0 {
        None
    } else if first_unknown(components, values.drop_last()) is Some {
        first_unknown(components, values.drop_last())
    } else if !is_known(components, values.last().key) {
        Some(values.last().key)
    } else {
        None
    }
}

proof fn lemma_first_unknown(
    components: Seq<UiComponentView>,
    values: Seq<SubmittedValueView>,
    i: int,
)
    requires
        0 <= i < values.len(),
        !is_known(components, values[i].key),
        first_unknown(components, values.take(i)) is None,
    ensures
        first_unknown(components, values) == Some(values[i].key),
    decreases values.len(),
{
    if i == values.len() - 1 {
        assert(values.take(i) =~= values.drop_last());
    } else {
        assert(values.drop_last().take(i) =~= values.take(i));
        lemma_first_unknown(components, values.drop_last(), i);
    }
}

/// What is recorded after the first components have been looked at, or why
/// the response is refused.
pub open spec fn recorded(
    components: Seq<UiComponentView>,
    values: Seq<SubmittedValueView>,
) -> Result<Seq<KeyTextView>, ValidationErrorView>
    decreases components.len(),
{
    if components.len() == 0 {
        Ok(Seq::empty())
    } else {
        match recorded(components.drop_last(), values) {
            Err(e) => Err(e),
            Ok(out) => {
                let c = components.last();
                if !c.is_input {
                    Ok(out)
                } else {
                    match lookup::<SubmittedValue>(values, c.key) {
                        Some(v) => match coerced(c, v) {
                            Ok(s) => Ok(
                                with_value::<KeyText>(out, KeyTextView { key: c.key, text: s }),
                            ),
                            Err(e) => Err(e),
                        },
                        None => if c.required {
                            Err(
                                ValidationErrorView {
                                    reason: UiErrorReason::MissingRequired,
                                    field: Some(c.key),
                                    got: None,
                                    expected: Some(summary(c)),
                                },
                            )
                        } else {
                            match default_text(c) {
                                Some(s) => Ok(
                                    with_value::<KeyText>(out, KeyTextView { key: c.key, text: s }),
                                ),
                                None => Ok(out),
                            }
                        },
                    }
                }
            },
        }
    }
}

proof fn lemma_recorded_err(
    components: Seq<UiComponentView>,
    values: Seq<SubmittedValueView>,
    n: int,
)
    requires
        0 <= n <= components.len(),
        recorded(components.take(n), values) is Err,
    ensures
        recorded(components, values) == recorded(components.take(n), values),
    decreases components.len() - n,
{
    if n < components.len() {
        assert(components.take(n + 1).drop_last() =~= components.take(n));
        lemma_recorded_err(components, values, n + 1);
    } else {
        assert(components.take(n) =~= components);
    }
}

/// The measurement that a component is bound to.
pub open spec fn bound_measurement(c: UiComponentView) -> Option<Seq<char>> {
    match c.bind {
        Some(bind) => if MEASUREMENT_BIND@.is_prefix_of(bind) {
            Some(bind.skip(MEASUREMENT_BIND@.len() as int))
        } else {
            None
        },
        None => None,
    }
}

/// The measurements that the recorded values of bound components give.
pub open spec fn bound_entries(components: Seq<UiComponentView>, out: Seq<KeyTextView>) -> Seq<
    JsonFieldView,
>
    decreases components.len(),
{
    if components.len() == 0 {
        Seq::empty()
    } else {
        let rest = bound_entries(components.drop_last(), out);
        let c = components.last();
        match (bound_measurement(c), lookup::<KeyText>(out, c.key)) {
            (Some(name), Some(entry)) => rest.push(
                JsonFieldView { key: name, value: JsonView::Text(entry.text) },
            ),
            _ => rest,
        }
    }
}

/// The recorded values with the measurements of bound components packed under
/// the key where the engine looks for them, where there are any.
pub open spec fn packed(components: Seq<UiComponentView>, out: Seq<KeyTextView>) -> Seq<
    KeyTextView,
> {
    let entries = bound_entries(components, out);
    if entries.len() > 0 {
        with_value::<KeyText>(
            out,
            KeyTextView {
                key: BOUND_MEASUREMENTS@,
                text: json_text(JsonView::Object(entries)),
            },
        )
    } else {
        out
    }
}

/// What a response is recorded as, or why it is refused: first a value that no
/// component asks for, then the components in order.
pub open spec fn validated(
    components: Seq<UiComponentView>,
    values: Seq<SubmittedValueView>,
) -> Result<Seq<KeyTextView>, ValidationErrorView> {
    match first_unknown(components, values) {
        Some(key) => Err(
            ValidationErrorView {
                reason: UiErrorReason::UnknownField,
                field: Some(key),
                got: None,
                expected: None,
            },
        ),
        None => match recorded(components, values) {
            Ok(out) => Ok(packed(components, out)),
            Err(e) => Err(e),
        },
    }
}

/// A result by the views of what it holds.
pub open spec fn view_of_list(r: Result<Vec<KeyText>, ValidationError>) -> Result<
    Seq<KeyTextView>,
    ValidationErrorView,
> {
    match r {
        Ok(out) => Ok(out.deep_view()),
        Err(e) => Err(e.deep_view()),
    }
}

fn find_unknown(components: &Vec<UiComponent>, values: &Vec<SubmittedValue>) -> (key: Option<
    String,
>)
    ensures
        key.deep_view() == first_unknown(components.deep_view(), values.deep_view()),
{
    let mut i: usize = 0;
    assert(values.deep_view().take(0) =~= Seq::empty());
    while i < values.len()
        invariant
            i <= values@.len(),
            first_unknown(components.deep_view(), values.deep_view().take(i as int)) is None,
        decreases values@.len() - i,
    {
        let ghost now = values.deep_view().take(i + 1);
        assert(now.drop_last() =~= values.deep_view().take(i as int));
        assert(now.last() == values@[i as int].deep_view());
        if !known_key(components, values[i].key.as_str()) {
            proof {
                lemma_first_unknown(components.deep_view(), values.deep_view(), i as int);
            }
            return Some(values[i].key.dup());
        }
        i += 1;
    }
    assert(values.deep_view().take(values@.len() as int) =~= values.deep_view());
    None
}

fn record_one(
    c: &UiComponent,
    values: &Vec<SubmittedValue>,
    out: &mut Vec<KeyText>,
) -> (r: Result<(), ValidationError>)
    ensures
        ({
            let view = c.deep_view();
            let before = old(out).deep_view();
            if !view.is_input {
                r is Ok && final(out).deep_view() == before
            } else {
                match lookup::<SubmittedValue>(values.deep_view(), view.key) {
                    Some(v) => match coerced(view, v) {
                        Ok(s) => r is Ok && final(out).deep_view() == with_value::<KeyText>(
                            before,
                            KeyTextView { key: view.key, text: s },
                        ),
                        Err(e) => r is Err && r->Err_0.deep_view() == e,
                    },
                    None => if view.required {
                        r is Err && r->Err_0.deep_view() == (ValidationErrorView {
                            reason: UiErrorReason::MissingRequired,
                            field: Some(view.key),
                            got: None,
                            expected: Some(summary(view)),
                        })
                    } else {
                        match default_text(view) {
                            Some(s) => r is Ok && final(out).deep_view() == with_value::<KeyText>(
                                before,
                                KeyTextView { key: view.key, text: s },
                            ),
                            None => r is Ok && final(out).deep_view() == before,
                        }
                    },
                }
            }
        }),
{
    if !c.is_input {
        return Ok(());
    }
    match assoc::get(values, c.key.as_str()) {
        Some(v) => match coerce_value(c, v) {
            Ok(s) => {
                assoc::put(out, KeyText { key: c.key.dup(), text: s });
                Ok(())
            },
            Err(e) => Err(e),
        },
        None => {
            if c.required {
                return Err(
                    ValidationError {
                        reason: UiErrorReason::MissingRequired,
                        field: Some(c.key.dup()),
                        got: None,
                        expected: Some(expected_summary(c)),
                    },
                );
            }
            match default_value_string(c) {
                Some(s) => {
                    assoc::put(out, KeyText { key: c.key.dup(), text: s });
                },
                None => {},
            }
            Ok(())
        },
    }
}

fn record_all(components: &Vec<UiComponent>, values: &Vec<SubmittedValue>) -> (r: Result<
    Vec<KeyText>,
    ValidationError,
>)
    ensures
        view_of_list(r) == recorded(components.deep_view(), values.deep_view()),
{
    let mut out: Vec<KeyText> = Vec::new();
    let mut i: usize = 0;
    assert(components.deep_view().take(0) =~= Seq::empty());
    assert(out.deep_view() =~= Seq::empty());
    while i < components.len()
        invariant
            i <= components@.len(),
            recorded(components.deep_view().take(i as int), values.deep_view()) == Ok::<
                Seq<KeyTextView>,
                ValidationErrorView,
            >(out.deep_view()),
        decreases components@.len() - i,
    {
        let ghost now = components.deep_view().take(i + 1);
        assert(now.drop_last() =~= components.deep_view().take(i as int));
        assert(now.last() == components@[i as int].deep_view());
        match record_one(&components[i], values, &mut out) {
            Ok(()) => {},
            Err(e) => {
                proof {
                    lemma_recorded_err(components.deep_view(), values.deep_view(), i + 1);
                }
                return Err(e);
            },
        }
        i += 1;
    }
    assert(components.deep_view().take(components@.len() as int) =~= components.deep_view());
    Ok(out)
}

fn measurement_bind(c: &UiComponent) -> (name: Option<String>)
    ensures
        name.deep_view() == bound_measurement(c.deep_view()),
{
    match &c.bind {
        Some(bind) => {
            if text::starts_with(bind.as_str(), MEASUREMENT_BIND) {
                let chars = text::chars_of(bind.as_str());
                let prefix = text::chars_of(MEASUREMENT_BIND);
                Some(text::string_between(&chars, prefix.len(), chars.len()))
            } else {
                None
            }
        },
        None => None,
    }
}

fn bound_fields(components: &Vec<UiComponent>, out: &Vec<KeyText>) -> (fields: Vec<JsonField>)
    ensures
        fields.deep_view() == bound_entries(components.deep_view(), out.deep_view()),
{
    let mut fields: Vec<JsonField> = Vec::new();
    let mut i: usize = 0;
    assert(fields.deep_view() =~= bound_entries(components.deep_view().take(0), out.deep_view()));
    while i < components.len()
        invariant
            i <= components@.len(),
            fields.deep_view() == bound_entries(
                components.deep_view().take(i as int),
                out.deep_view(),
            ),
        decreases components@.len() - i,
    {
        let ghost now = components.deep_view().take(i + 1);
        assert(now.drop_last() =~= components.deep_view().take(i as int));
        assert(now.last() == components@[i as int].deep_view());
        match (
            measurement_bind(&components[i]),
            assoc::get(out, components[i].key.as_str()),
        ) {
            (Some(name), Some(entry)) => {
                push(&mut fields, JsonField { key: name, value: Json::Text(entry.text.dup()) });
            },
            _ => {},
        }
        i += 1;
    }
    assert(components.deep_view().take(components@.len() as int) =~= components.deep_view());
    fields
}

/// Checks a response against the components of its prompt, and gives the
/// texts that it is recorded as. An input that is left out is recorded as its
/// declared default; bound inputs are packed as measurements.
pub fn validate_and_coerce(components: &Vec<UiComponent>, values: &Vec<SubmittedValue>) -> (r:
    Result<Vec<KeyText>, ValidationError>)
    ensures
        view_of_list(r) == validated(components.deep_view(), values.deep_view()),
{
    match find_unknown(components, values) {
        Some(key) => {
            return Err(
                ValidationError {
                    reason: UiErrorReason::UnknownField,
                    field: Some(key),
                    got: None,
                    expected: None,
                },
            );
        },
        None => {},
    }
    match record_all(components, values) {
        Ok(mut out) => {
            let fields = bound_fields(components, &out);
            if fields.len() > 0 {
                let payload = Json::object(fields).render();
                assoc::put(
                    &mut out,
                    KeyText { key: BOUND_MEASUREMENTS.to_string(), text: payload },
                );
            }
            Ok(out)
        },
        Err(e) => Err(e),
    }
}

// ---------------------------------------------------------------------------
// Laws
// ---------------------------------------------------------------------------

/// A choice of one is recorded only where it is among the choices.
pub proof fn law_choice_is_offered(c: UiComponentView, v: SubmittedValueView)
    requires
        c.component_type == ComponentType::Radio || c.component_type == ComponentType::Select,
        c.options is Some,
        coerced(c, v) is Ok,
    ensures
        allowed(c.options->0).contains(coerced(c, v)->Ok_0),
{
}

/// A number is recorded only where it is finite and within its bounds.
pub proof fn law_number_within_bounds(c: UiComponentView, v: SubmittedValueView)
    requires
        c.component_type == ComponentType::NumberInput || c.component_type == ComponentType::Slider,
        coerced(c, v) is Ok,
    ensures
        reading(v) matches Some(bits) && {
            &&& finite(bits)
            &&& c.min is Some ==> !double_less(bits, c.min->0.bits)
            &&& c.max is Some ==> !double_less(c.max->0.bits, bits)
        },
{
}

/// Every required input of an accepted response was submitted and is
/// recorded, and no value was submitted that no component asks for.
pub proof fn law_accepted_is_complete(
    components: Seq<UiComponentView>,
    values: Seq<SubmittedValueView>,
    i: int,
)
    requires
        validated(components, values) is Ok,
        0 <= i < components.len(),
        components[i].is_input,
        components[i].required,
    ensures
        lookup::<SubmittedValue>(values, components[i].key) is Some,
        lookup::<KeyText>(recorded(components, values)->Ok_0, components[i].key) is Some,
    decreases components.len(),
{
    lemma_required_recorded(components, values, i);
}

proof fn lemma_required_recorded(
    components: Seq<UiComponentView>,
    values: Seq<SubmittedValueView>,
    i: int,
)
    requires
        recorded(components, values) is Ok,
        0 <= i < components.len(),
        components[i].is_input,
        components[i].required,
    ensures
        lookup::<SubmittedValue>(values, components[i].key) is Some,
        lookup::<KeyText>(recorded(components, values)->Ok_0, components[i].key) is Some,
    decreases components.len(),
{
    let c = components.last();
    let before = recorded(components.drop_last(), values)->Ok_0;
    if i < components.len() - 1 {
        assert(components.drop_last()[i] == components[i]);
        lemma_required_recorded(components.drop_last(), values, i);
        if c.is_input {
            match lookup::<SubmittedValue>(values, c.key) {
                Some(v) => {
                    assoc::lemma_with_value::<KeyText>(
                        before,
                        KeyTextView { key: c.key, text: coerced(c, v)->Ok_0 },
                        components[i].key,
                    );
                },
                None => {
                    if default_text(c) is Some {
                        assoc::lemma_with_value::<KeyText>(
                            before,
                            KeyTextView { key: c.key, text: default_text(c)->0 },
                            components[i].key,
                        );
                    }
                },
            }
        }
    } else {
        let v = lookup::<SubmittedValue>(values, c.key)->0;
        assoc::lemma_with_value::<KeyText>(
            before,
            KeyTextView { key: c.key, text: coerced(c, v)->Ok_0 },
            c.key,
        );
    }
}

/// Choices that are submitted twice are recorded once.
pub proof fn law_deduped(parts: Seq<Seq<char>>)
    ensures
        deduped(parts).no_duplicates(),
        forall|s: Seq<char>| parts.contains(s) <==> #[trigger] deduped(parts).contains(s),
    decreases parts.len(),
{
    if parts.len() > 0 {
        law_deduped(parts.drop_last());
        let rest = deduped(parts.drop_last());
        assert forall|s: Seq<char>| parts.contains(s) <==> #[trigger] deduped(parts).contains(
            s,
        ) by {
            if parts.contains(s) {
                let k = choose|k: int| 0 <= k < parts.len() && parts[k] == s;
                if k < parts.len() - 1 {
                    assert(parts.drop_last()[k] == s);
                    assert(rest.contains(s));
                    let j = choose|j: int| 0 <= j < rest.len() && rest[j] == s;
                    assert(deduped(parts)[j] == s);
                } else if !rest.contains(s) {
                    assert(deduped(parts)[deduped(parts).len() - 1] == s);
                }
            }
            if deduped(parts).contains(s) {
                let j = choose|j: int| 0 <= j < deduped(parts).len() && deduped(parts)[j] == s;
                if j < rest.len() {
                    assert(rest[j] == s);
                    assert(rest.contains(s));
                    let k = choose|k: int|
                        0 <= k < parts.drop_last().len() && parts.drop_last()[k] == s;
                    assert(parts[k] == s);
                } else {
                    assert(parts[parts.len() - 1] == s);
                }
            }
        }
    }
}

} // verus!
