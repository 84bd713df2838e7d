//! Labels attached to terms.

use vstd::prelude::*;
use vstd::string::StringExecFns;
use crate::error::DecodeError;
use crate::json::{Json, JsonV};
use crate::model::{field, field_spec, FromJson};

verus! {

/// Type-safe label id wrapper.
#[derive(PartialEq, Eq, Clone, Debug, Hash, PartialOrd, Ord)]
pub struct LabelId(pub String);

impl LabelId {
    /// Create a new id.
    pub fn new(id: &str) -> (r: Self)
        ensures
            r.0@ == id@,
    {
        LabelId(String::from_str(id))
    }

    /// The value of the id.
    pub fn value(&self) -> (r: &str)
        ensures
            r@ == self.0@,
    {
        self.0.as_str()
    }
}

impl DeepView for LabelId {
    type V = Seq<char>;

    open spec fn deep_view(&self) -> Seq<char> {
        self.0@
    }
}

impl FromJson for LabelId {
    open spec fn spec_decode(v: JsonV) -> Option<Seq<char>> {
        String::spec_decode(v)
    }

    open spec fn spec_model_name() -> Seq<char> {
        "LabelId"@
    }

    fn model_name() -> (r: &'static str) {
        "LabelId"
    }

    fn from_json(v: &Json) -> (r: Result<LabelId, DecodeError>) {
        let s = String::from_json(v)?;
        Ok(LabelId(s))
    }
}

/// A label.
#[derive(Clone, Debug, PartialEq, Eq, Hash, PartialOrd, Ord)]
pub struct Label {
    pub id: LabelId,
    pub value: String,
    pub color: String,
}

/// The mathematical value of a [`Label`].
pub struct LabelView {
    pub id: Seq<char>,
    pub value: Seq<char>,
    pub color: Seq<char>,
}

impl DeepView for Label {
    type V = LabelView;

    open spec fn deep_view(&self) -> LabelView {
        LabelView {
            id: self.id.deep_view(),
            value: self.value.deep_view(),
            color: self.color.deep_view(),
        }
    }
}

impl FromJson for Label {
    open spec fn spec_decode(v: JsonV) -> Option<LabelView> {
        match (
            field_spec::<LabelId>(v, "id"@),
            field_spec::<String>(v, "value"@),
            field_spec::<String>(v, "color"@),
        ) {
            (Some(id), Some(value), Some(color)) => Some(
                LabelView { id, value, color },
            ),
            _ => None,
        }
    }

    open spec fn spec_model_name() -> Seq<char> {
        "Label"@
    }

    fn model_name() -> (r: &'static str) {
        "Label"
    }

    fn from_json(v: &Json) -> (r: Result<Label, DecodeError>) {
        let id = field::<LabelId>(v, "id")?;
        let value = field::<String>(v, "value")?;
        let color = field::<String>(v, "color")?;
        Ok(Label { id, value, color })
    }
}

} // verus!
