//! The serialized parameter bag: an ordered sequence of named values.
//!
//! Every operation builder serializes its present fields into a bag of
//! `(name, value)` pairs. A field that was never set contributes no pair
//! at all, so the remote service can tell "omitted" from "explicitly
//! empty". The bag is the value handed to the transport, which encodes
//! it as query parameters or as a request body.

use vstd::prelude::*;

verus! {

/// The value of one request parameter.
#[derive(Debug)]
pub enum ParamValue {
    /// A string-valued field, such as a tag name.
    Text(String),
    /// An unsigned integer field, such as a page number.
    UInt(u64),
    /// A boolean field, such as a draft marker.
    Flag(bool),
}

/// The mathematical value of a [`ParamValue`].
pub ghost enum ParamValueView {
    Text(Seq<char>),
    UInt(u64),
    Flag(bool),
}

impl View for ParamValue {
    type V = ParamValueView;

    open spec fn view(&self) -> ParamValueView {
        match self {
            ParamValue::Text(s) => ParamValueView::Text(s@),
            ParamValue::UInt(n) => ParamValueView::UInt(*n),
            ParamValue::Flag(b) => ParamValueView::Flag(*b),
        }
    }
}

/// One named parameter of a request.
#[derive(Debug)]
pub struct Param {
    pub name: String,
    pub value: ParamValue,
}

impl View for Param {
    type V = (Seq<char>, ParamValueView);

    open spec fn view(&self) -> (Seq<char>, ParamValueView) {
        (self.name@, self.value@)
    }
}

/// The mathematical value of a whole bag: the pairs, in order.
pub open spec fn bag_view(params: Seq<Param>) -> Seq<(Seq<char>, ParamValueView)> {
    params.map_values(|p: Param| p@)
}

/// Whether a bag holds an entry under `name`.
pub open spec fn bag_has_name(bag: Seq<(Seq<char>, ParamValueView)>, name: Seq<char>) -> bool {
    exists|i: int| 0 <= i < bag.len() && bag[i].0 == name
}

/// Appends `(name, value)` to a bag when the value is present; an absent
/// value leaves the bag unchanged.
pub open spec fn push_present(
    bag: Seq<(Seq<char>, ParamValueView)>,
    name: Seq<char>,
    value: Option<ParamValueView>,
) -> Seq<(Seq<char>, ParamValueView)> {
    match value {
        Option::Some(v) => bag.push((name, v)),
        Option::None => bag,
    }
}

/// The optional text field `v` as an optional parameter value.
pub open spec fn opt_text(v: Option<Seq<char>>) -> Option<ParamValueView> {
    match v {
        Option::Some(s) => Option::Some(ParamValueView::Text(s)),
        Option::None => Option::None,
    }
}

/// The optional integer field `v` as an optional parameter value.
pub open spec fn opt_uint(v: Option<u64>) -> Option<ParamValueView> {
    match v {
        Option::Some(n) => Option::Some(ParamValueView::UInt(n)),
        Option::None => Option::None,
    }
}

/// The optional boolean field `v` as an optional parameter value.
pub open spec fn opt_flag(v: Option<bool>) -> Option<ParamValueView> {
    match v {
        Option::Some(b) => Option::Some(ParamValueView::Flag(b)),
        Option::None => Option::None,
    }
}

} // verus!
