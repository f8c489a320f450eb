//! What a test declares of its unit.

use vstd::prelude::*;
use vstd::string::*;
use crate::assoc;
use crate::assoc::lookup;
use crate::dup::Dup;
use crate::engine::model::{KeyText, KeyTextView};
use crate::json::{Json, JsonView};
use crate::text;
use crate::text::trimmed;

verus! {

/// What a procedure declares of one field of the unit.
#[derive(Debug, PartialEq, Eq)]
pub struct UnitFieldConfig {
    pub default_value: Option<String>,
    /// What else is declared of the field, as it is declared.
    pub settings: Option<Json>,
}

/// View of [`UnitFieldConfig`].
pub struct UnitFieldConfigView {
    pub default_value: Option<Seq<char>>,
    pub settings: Option<JsonView>,
}

impl DeepView for UnitFieldConfig {
    type V = UnitFieldConfigView;

    open spec fn deep_view(&self) -> UnitFieldConfigView {
        UnitFieldConfigView {
            default_value: self.default_value.deep_view(),
            settings: self.settings.deep_view(),
        }
    }
}

impl Dup for UnitFieldConfig {
    fn dup(&self) -> (copy: Self) {
        UnitFieldConfig {
            default_value: self.default_value.dup(),
            settings: self.settings.dup(),
        }
    }
}

/// What a procedure declares of the unit under test.
#[derive(Debug, PartialEq, Eq)]
pub struct UnitConfig {
    /// Whether the defaults stand in for the operator.
    pub auto_identify: bool,
    pub serial_number: Option<UnitFieldConfig>,
    pub part_number: Option<UnitFieldConfig>,
    pub revision_number: Option<UnitFieldConfig>,
    pub batch_number: Option<UnitFieldConfig>,
    /// The units that the unit is made of, as they are declared.
    pub sub_units: Option<Json>,
}

/// View of [`UnitConfig`].
pub struct UnitConfigView {
    pub auto_identify: bool,
    pub serial_number: Option<UnitFieldConfigView>,
    pub part_number: Option<UnitFieldConfigView>,
    pub revision_number: Option<UnitFieldConfigView>,
    pub batch_number: Option<UnitFieldConfigView>,
    pub sub_units: Option<JsonView>,
}

impl DeepView for UnitConfig {
    type V = UnitConfigView;

    open spec fn deep_view(&self) -> UnitConfigView {
        UnitConfigView {
            auto_identify: self.auto_identify.deep_view(),
            serial_number: self.serial_number.deep_view(),
            part_number: self.part_number.deep_view(),
            revision_number: self.revision_number.deep_view(),
            batch_number: self.batch_number.deep_view(),
            sub_units: self.sub_units.deep_view(),
        }
    }
}

impl Dup for UnitConfig {
    fn dup(&self) -> (copy: Self) {
        UnitConfig {
            auto_identify: self.auto_identify.dup(),
            serial_number: self.serial_number.dup(),
            part_number: self.part_number.dup(),
            revision_number: self.revision_number.dup(),
            batch_number: self.batch_number.dup(),
            sub_units: self.sub_units.dup(),
        }
    }
}

/// A field of which nothing is declared but, perhaps, a default.
pub open spec fn field_of(default_value: Option<Seq<char>>) -> UnitFieldConfigView {
    UnitFieldConfigView { default_value, settings: None }
}

/// A unit of which nothing is declared.
pub open spec fn undeclared_unit() -> UnitConfigView {
    UnitConfigView {
        auto_identify: false,
        serial_number: None,
        part_number: None,
        revision_number: None,
        batch_number: None,
        sub_units: None,
    }
}

impl UnitFieldConfig {
    /// A field of which nothing is declared but, perhaps, a default.
    pub fn new(default_value: Option<String>) -> (field: Self)
        ensures
            field.deep_view() == field_of(default_value.deep_view()),
    {
        UnitFieldConfig { default_value, settings: None }
    }
}

impl UnitConfig {
    /// A unit of which nothing is declared.
    pub fn undeclared() -> (config: Self)
        ensures
            config.deep_view() == undeclared_unit(),
    {
        UnitConfig {
            auto_identify: false,
            serial_number: None,
            part_number: None,
            revision_number: None,
            batch_number: None,
            sub_units: None,
        }
    }
}

/// A declared field: the value of its keyword, where it is not blank.
pub open spec fn declared(kwargs: Seq<KeyTextView>, key: Seq<char>) -> Option<UnitFieldConfigView> {
    match lookup::<KeyText>(kwargs, key) {
        Some(entry) => if trimmed(entry.text).len() > 0 {
            Some(field_of(Some(entry.text)))
        } else {
            None
        },
        None => None,
    }
}

/// A field that is there even where it is not declared.
pub open spec fn always(field: Option<UnitFieldConfigView>) -> UnitFieldConfigView {
    match field {
        Some(f) => f,
        None => field_of(None),
    }
}

/// What the keywords of a test declare of its unit.
pub open spec fn config_of(kwargs: Seq<KeyTextView>, auto_identify: bool) -> UnitConfigView {
    UnitConfigView {
        auto_identify,
        serial_number: Some(always(declared(kwargs, "serial_number"@))),
        part_number: Some(always(declared(kwargs, "part_number"@))),
        revision_number: declared(kwargs, "revision_number"@),
        batch_number: declared(kwargs, "batch_number"@),
        sub_units: None,
    }
}

fn field(kwargs: &Vec<KeyText>, key: &str) -> (f: Option<UnitFieldConfig>)
    ensures
        f.deep_view() == declared(kwargs.deep_view(), key@),
{
    match assoc::get(kwargs, key) {
        Some(entry) => {
            let kept = text::trim(entry.text.as_str());
            if kept.as_str().is_empty() {
                None
            } else {
                Some(UnitFieldConfig::new(Some(entry.text.dup())))
            }
        },
        None => None,
    }
}

fn or_empty(f: Option<UnitFieldConfig>) -> (out: UnitFieldConfig)
    ensures
        out.deep_view() == always(f.deep_view()),
{
    match f {
        Some(f) => f,
        None => UnitFieldConfig::new(None),
    }
}

/// What the keywords of a test declare of its unit. A blank keyword declares
/// nothing; serial and part number are always asked for.
pub fn build_unit_config_from_kwargs(kwargs: &Vec<KeyText>, auto_identify: bool) -> (config:
    UnitConfig)
    ensures
        config.deep_view() == config_of(kwargs.deep_view(), auto_identify),
{
    UnitConfig {
        auto_identify,
        serial_number: Some(or_empty(field(kwargs, "serial_number"))),
        part_number: Some(or_empty(field(kwargs, "part_number"))),
        revision_number: field(kwargs, "revision_number"),
        batch_number: field(kwargs, "batch_number"),
        sub_units: None,
    }
}

/// A default is never blank, and the operator is always asked for serial and
/// part number.
pub proof fn law_defaults_are_not_blank(kwargs: Seq<KeyTextView>, auto_identify: bool)
    ensures
        ({
            let config = config_of(kwargs, auto_identify);
            &&& config.serial_number is Some
            &&& config.part_number is Some
            &&& forall|key: Seq<char>| #[trigger]
                declared(kwargs, key) matches Some(f) ==> f.default_value is Some && trimmed(
                    f.default_value->0,
                ).len() > 0
        }),
{
}

/// Whether a field is declared with a text as its default, and nothing else.
pub open spec fn declares(field: Option<UnitFieldConfigView>, text: Seq<char>) -> bool {
    field matches Some(f) && f.default_value == Some(text) && f.settings is None
}

/// A keyword declares the field of its name: the first of that name, where it
/// is not blank.
pub proof fn law_keywords_declare_fields(
    kwargs: Seq<KeyTextView>,
    auto_identify: bool,
    key: Seq<char>,
    k: int,
)
    requires
        0 <= k <= kwargs.len(),
        k < kwargs.len() ==> kwargs[k].key == key,
        forall|j: int| 0 <= j < k ==> (#[trigger] kwargs[j]).key != key,
    ensures
        ({
            let config = config_of(kwargs, auto_identify);
            let filled = k < kwargs.len() && trimmed(kwargs[k].text).len() > 0;
            &&& config.auto_identify == auto_identify
            &&& config.sub_units is None
            &&& key == "serial_number"@ && filled ==> declares(config.serial_number, kwargs[k].text)
            &&& key == "part_number"@ && filled ==> declares(config.part_number, kwargs[k].text)
            &&& key == "revision_number"@ && filled ==> declares(
                config.revision_number,
                kwargs[k].text,
            )
            &&& key == "batch_number"@ && filled ==> declares(config.batch_number, kwargs[k].text)
            &&& key == "serial_number"@ && !filled ==> config.serial_number is Some
                && config.serial_number->0.default_value is None
            &&& key == "part_number"@ && !filled ==> config.part_number is Some
                && config.part_number->0.default_value is None
            &&& key == "revision_number"@ && !filled ==> config.revision_number is None
            &&& key == "batch_number"@ && !filled ==> config.batch_number is None
        }),
{
    assoc::lemma_key_index_unique::<KeyText>(kwargs, key, k);
}

} // verus!
