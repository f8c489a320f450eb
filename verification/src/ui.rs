//! Operator prompts.

use vstd::prelude::*;
use vstd::string::*;
use crate::dup::Dup;
use crate::json::{Json, JsonView};

verus! {

/// What a component is, as far as its value depends on it.
#[derive(Debug, Clone, Copy, PartialEq, Eq, Structural)]
pub enum ComponentType {
    Switch,
    NumberInput,
    Slider,
    Multiselect,
    Checklist,
    TextInput,
    Textarea,
    Radio,
    Select,
    Image,
    Text,
    /// Any other type.
    Other,
}

impl DeepView for ComponentType {
    type V = ComponentType;

    open spec fn deep_view(&self) -> ComponentType {
        *self
    }
}

impl Dup for ComponentType {
    fn dup(&self) -> (copy: Self) {
        *self
    }
}

/// A declared default value.
#[derive(Debug, PartialEq, Eq)]
pub enum ComponentValue {
    String(String),
    /// A number, by its display text.
    Number(String),
    Boolean(bool),
    Array(Vec<String>),
}

/// View of [`ComponentValue`].
pub enum ComponentValueView {
    String(Seq<char>),
    Number(Seq<char>),
    Boolean(bool),
    Array(Seq<Seq<char>>),
}

impl DeepView for ComponentValue {
    type V = ComponentValueView;

    open spec fn deep_view(&self) -> ComponentValueView {
        match self {
            ComponentValue::String(v) => ComponentValueView::String(v.deep_view()),
            ComponentValue::Number(v) => ComponentValueView::Number(v.deep_view()),
            ComponentValue::Boolean(v) => ComponentValueView::Boolean(v.deep_view()),
            ComponentValue::Array(v) => ComponentValueView::Array(v.deep_view()),
        }
    }
}

impl Dup for ComponentValue {
    fn dup(&self) -> (copy: Self) {
        match self {
            ComponentValue::String(v) => ComponentValue::String(v.dup()),
            ComponentValue::Number(v) => ComponentValue::Number(v.dup()),
            ComponentValue::Boolean(v) => ComponentValue::Boolean(v.dup()),
            ComponentValue::Array(v) => ComponentValue::Array(v.dup()),
        }
    }
}

/// A choice of a component.
#[derive(Debug, PartialEq, Eq)]
pub struct UiOption {
    pub label: String,
    pub value: String,
    pub image: Option<String>,
}

/// View of [`UiOption`].
pub struct UiOptionView {
    pub label: Seq<char>,
    pub value: Seq<char>,
    pub image: Option<Seq<char>>,
}

impl DeepView for UiOption {
    type V = UiOptionView;

    open spec fn deep_view(&self) -> UiOptionView {
        UiOptionView {
            label: self.label.deep_view(),
            value: self.value.deep_view(),
            image: self.image.deep_view(),
        }
    }
}

impl Dup for UiOption {
    fn dup(&self) -> (copy: Self) {
        UiOption {
            label: self.label.dup(),
            value: self.value.dup(),
            image: self.image.dup(),
        }
    }
}

/// A bound on a number.
#[derive(Debug, PartialEq, Eq)]
pub struct Bound {
    /// The bit pattern of the double.
    pub bits: u64,
    pub display: String,
}

/// View of [`Bound`].
pub struct BoundView {
    pub bits: u64,
    pub display: Seq<char>,
}

impl DeepView for Bound {
    type V = BoundView;

    open spec fn deep_view(&self) -> BoundView {
        BoundView {
            bits: self.bits.deep_view(),
            display: self.display.deep_view(),
        }
    }
}

impl Dup for Bound {
    fn dup(&self) -> (copy: Self) {
        Bound {
            bits: self.bits.dup(),
            display: self.display.dup(),
        }
    }
}

/// A component of an operator prompt.
#[derive(Debug, PartialEq, Eq)]
pub struct UiComponent {
    pub key: String,
    pub component_type: ComponentType,
    /// The name of the type on the wire.
    pub wire_type: String,
    pub label: Option<String>,
    pub description: Option<String>,
    pub required: bool,
    pub is_input: bool,
    pub default_value: Option<ComponentValue>,
    pub placeholder: Option<String>,
    pub options: Option<Vec<UiOption>>,
    pub min: Option<Bound>,
    pub max: Option<Bound>,
    pub step: Option<Bound>,
    pub min_length: Option<u32>,
    pub max_length: Option<u32>,
    pub pattern: Option<String>,
    pub trim: bool,
    pub bind: Option<String>,
    pub value: Option<String>,
    /// How the component is shown: its size, color, font, width, height,
    /// aspect, fit, prefix, suffix, rows and columns, as declared.
    pub style: Option<Json>,
}

/// View of [`UiComponent`].
pub struct UiComponentView {
    pub key: Seq<char>,
    pub component_type: ComponentType,
    pub wire_type: Seq<char>,
    pub label: Option<Seq<char>>,
    pub description: Option<Seq<char>>,
    pub required: bool,
    pub is_input: bool,
    pub default_value: Option<ComponentValueView>,
    pub placeholder: Option<Seq<char>>,
    pub options: Option<Seq<UiOptionView>>,
    pub min: Option<BoundView>,
    pub max: Option<BoundView>,
    pub step: Option<BoundView>,
    pub min_length: Option<u32>,
    pub max_length: Option<u32>,
    pub pattern: Option<Seq<char>>,
    pub trim: bool,
    pub bind: Option<Seq<char>>,
    pub value: Option<Seq<char>>,
    pub style: Option<JsonView>,
}

impl DeepView for UiComponent {
    type V = UiComponentView;

    open spec fn deep_view(&self) -> UiComponentView {
        UiComponentView {
            key: self.key.deep_view(),
            component_type: self.component_type.deep_view(),
            wire_type: self.wire_type.deep_view(),
            label: self.label.deep_view(),
            description: self.description.deep_view(),
            required: self.required.deep_view(),
            is_input: self.is_input.deep_view(),
            default_value: self.default_value.deep_view(),
            placeholder: self.placeholder.deep_view(),
            options: self.options.deep_view(),
            min: self.min.deep_view(),
            max: self.max.deep_view(),
            step: self.step.deep_view(),
            min_length: self.min_length.deep_view(),
            max_length: self.max_length.deep_view(),
            pattern: self.pattern.deep_view(),
            trim: self.trim.deep_view(),
            bind: self.bind.deep_view(),
            value: self.value.deep_view(),
            style: self.style.deep_view(),
        }
    }
}

impl Dup for UiComponent {
    fn dup(&self) -> (copy: Self) {
        UiComponent {
            key: self.key.dup(),
            component_type: self.component_type.dup(),
            wire_type: self.wire_type.dup(),
            label: self.label.dup(),
            description: self.description.dup(),
            required: self.required.dup(),
            is_input: self.is_input.dup(),
            default_value: self.default_value.dup(),
            placeholder: self.placeholder.dup(),
            options: self.options.dup(),
            min: self.min.dup(),
            max: self.max.dup(),
            step: self.step.dup(),
            min_length: self.min_length.dup(),
            max_length: self.max_length.dup(),
            pattern: self.pattern.dup(),
            trim: self.trim.dup(),
            bind: self.bind.dup(),
            value: self.value.dup(),
            style: self.style.dup(),
        }
    }
}

/// The name of a component type on the wire; empty where the type is not
/// known here.
pub open spec fn wire_name(t: ComponentType) -> Seq<char> {
    match t {
        ComponentType::Switch => "switch"@,
        ComponentType::NumberInput => "number_input"@,
        ComponentType::Slider => "slider"@,
        ComponentType::Multiselect => "multiselect"@,
        ComponentType::Checklist => "checklist"@,
        ComponentType::TextInput => "text_input"@,
        ComponentType::Textarea => "textarea"@,
        ComponentType::Radio => "radio"@,
        ComponentType::Select => "select"@,
        ComponentType::Image => "image"@,
        ComponentType::Text => "text"@,
        ComponentType::Other => ""@,
    }
}

/// Whether a component of the type takes a value from the operator.
pub open spec fn takes_input(t: ComponentType) -> bool {
    !(t is Image) && !(t is Text) && !(t is Other)
}

/// A component with nothing declared but its type.
pub open spec fn bare_component(t: ComponentType) -> UiComponentView {
    UiComponentView {
        key: Seq::empty(),
        component_type: t,
        wire_type: wire_name(t),
        label: None,
        description: None,
        required: true,
        is_input: takes_input(t),
        default_value: None,
        placeholder: None,
        options: None,
        min: None,
        max: None,
        step: None,
        min_length: None,
        max_length: None,
        pattern: None,
        trim: true,
        bind: None,
        value: None,
        style: None,
    }
}

impl UiComponent {
    /// A component with nothing declared but its type. Texts are trimmed.
    pub fn new(component_type: ComponentType) -> (component: Self)
        ensures
            component.deep_view() == bare_component(component_type),
    {
        let wire_type = match component_type {
            ComponentType::Switch => "switch",
            ComponentType::NumberInput => "number_input",
            ComponentType::Slider => "slider",
            ComponentType::Multiselect => "multiselect",
            ComponentType::Checklist => "checklist",
            ComponentType::TextInput => "text_input",
            ComponentType::Textarea => "textarea",
            ComponentType::Radio => "radio",
            ComponentType::Select => "select",
            ComponentType::Image => "image",
            ComponentType::Text => "text",
            ComponentType::Other => "",
        };
        let is_input = match component_type {
            ComponentType::Image | ComponentType::Text | ComponentType::Other => false,
            _ => true,
        };
        UiComponent {
            key: String::new(),
            component_type,
            wire_type: wire_type.to_string(),
            label: None,
            description: None,
            required: true,
            is_input,
            default_value: None,
            placeholder: None,
            options: None,
            min: None,
            max: None,
            step: None,
            min_length: None,
            max_length: None,
            pattern: None,
            trim: true,
            bind: None,
            value: None,
            style: None,
        }
    }
}

/// An operator prompt of a phase.
#[derive(Debug, PartialEq, Eq)]
pub struct UiRequestData {
    pub request_id: String,
    pub job_id: String,
    pub pipe_path: String,
    pub components: Vec<UiComponent>,
    pub requires_input: Option<bool>,
    /// Whether the prompt waits for the operator.
    pub requires_user_input: bool,
    pub phase_key: String,
    pub slot_id: Option<String>,
}

/// View of [`UiRequestData`].
pub struct UiRequestDataView {
    pub request_id: Seq<char>,
    pub job_id: Seq<char>,
    pub pipe_path: Seq<char>,
    pub components: Seq<UiComponentView>,
    pub requires_input: Option<bool>,
    pub requires_user_input: bool,
    pub phase_key: Seq<char>,
    pub slot_id: Option<Seq<char>>,
}

impl DeepView for UiRequestData {
    type V = UiRequestDataView;

    open spec fn deep_view(&self) -> UiRequestDataView {
        UiRequestDataView {
            request_id: self.request_id.deep_view(),
            job_id: self.job_id.deep_view(),
            pipe_path: self.pipe_path.deep_view(),
            components: self.components.deep_view(),
            requires_input: self.requires_input.deep_view(),
            requires_user_input: self.requires_user_input.deep_view(),
            phase_key: self.phase_key.deep_view(),
            slot_id: self.slot_id.deep_view(),
        }
    }
}

impl Dup for UiRequestData {
    fn dup(&self) -> (copy: Self) {
        UiRequestData {
            request_id: self.request_id.dup(),
            job_id: self.job_id.dup(),
            pipe_path: self.pipe_path.dup(),
            components: self.components.dup(),
            requires_input: self.requires_input.dup(),
            requires_user_input: self.requires_user_input.dup(),
            phase_key: self.phase_key.dup(),
            slot_id: self.slot_id.dup(),
        }
    }
}

/// A component with nothing declared is required, trimmed, and takes a value
/// unless it only shows something; its type has its name on the wire.
pub proof fn law_bare_components(t: ComponentType)
    ensures
        ({
            let c = bare_component(t);
            &&& c.component_type == t
            &&& c.required
            &&& c.trim
            &&& c.is_input <==> t == ComponentType::Switch || t == ComponentType::NumberInput || t
                == ComponentType::Slider || t == ComponentType::Multiselect || t
                == ComponentType::Checklist || t == ComponentType::TextInput || t
                == ComponentType::Textarea || t == ComponentType::Radio || t
                == ComponentType::Select
            &&& t == ComponentType::Switch ==> c.wire_type == "switch"@
            &&& t == ComponentType::NumberInput ==> c.wire_type == "number_input"@
            &&& t == ComponentType::Slider ==> c.wire_type == "slider"@
            &&& t == ComponentType::Multiselect ==> c.wire_type == "multiselect"@
            &&& t == ComponentType::Checklist ==> c.wire_type == "checklist"@
            &&& t == ComponentType::TextInput ==> c.wire_type == "text_input"@
            &&& t == ComponentType::Textarea ==> c.wire_type == "textarea"@
            &&& t == ComponentType::Radio ==> c.wire_type == "radio"@
            &&& t == ComponentType::Select ==> c.wire_type == "select"@
            &&& t == ComponentType::Image ==> c.wire_type == "image"@
            &&& t == ComponentType::Text ==> c.wire_type == "text"@
            &&& c.key.len() == 0
            &&& c.label is None
            &&& c.default_value is None
            &&& c.options is None
            &&& c.min is None
            &&& c.max is None
            &&& c.min_length is None
            &&& c.max_length is None
            &&& c.pattern is None
            &&& c.bind is None
        }),
{
}

} // verus!
