//! Identity and metadata of one parameter.
//!
//! A `ParameterInfo` carries the stable numeric id a host keys automation
//! and persisted state by, the display name, an optional hierarchical path
//! for grouped display, the default value in normalized form, and the step
//! count (0 for a continuous domain, `n` for `n + 1` discrete positions).
//! It is immutable after construction.

use vstd::prelude::*;

use crate::normalized::Normalized;

verus! {

/// The mathematical content of a `ParameterInfo`.
pub struct ParameterInfoView {
    pub id: u32,
    pub name: Seq<char>,
    pub path: Seq<char>,
    pub default_normalized_units: int,
    pub steps: int,
}

/// Identity and metadata for one parameter.
pub struct ParameterInfo {
    pub id: u32,
    pub name: String,
    pub path: String,
    pub default_normalized_value: Normalized,
    pub steps: u64,
}

impl View for ParameterInfo {
    type V = ParameterInfoView;

    open spec fn view(&self) -> ParameterInfoView {
        ParameterInfoView {
            id: self.id,
            name: self.name@,
            path: self.path@,
            default_normalized_units: self.default_normalized_value@,
            steps: self.steps as int,
        }
    }
}

impl ParameterInfo {
    /// The metadata is well formed when its default lies in the unit
    /// interval.
    pub open spec fn wf(self) -> bool {
        self.default_normalized_value.is_unit()
    }

    /// Metadata with the given id and name, no path, a default of 0.0 and
    /// no steps.
    pub fn new(id: u32, name: String) -> (r: ParameterInfo)
        ensures
            r@.id == id,
            r@.name == name@,
            r@.path == Seq::<char>::empty(),
            r@.default_normalized_units == 0,
            r@.steps == 0,
            r.wf(),
    {
        let r = ParameterInfo {
            id,
            name,
            path: String::new(),
            default_normalized_value: Normalized::zero(),
            steps: 0,
        };
        r
    }

    /// The same metadata with the given step count.
    pub fn with_steps(self, steps: u64) -> (r: ParameterInfo)
        ensures
            r@ == (ParameterInfoView { steps: steps as int, ..self@ }),
            r.wf() == self.wf(),
    {
        ParameterInfo { steps, ..self }
    }

    /// The same metadata with the given hierarchical path.
    pub fn with_path(self, path: String) -> (r: ParameterInfo)
        ensures
            r@ == (ParameterInfoView { path: path@, ..self@ }),
            r.wf() == self.wf(),
    {
        ParameterInfo { path, ..self }
    }

    /// The same metadata with the given default normalized value.
    pub fn with_default_normalized_value(self, value: Normalized) -> (r: ParameterInfo)
        requires
            value.is_unit(),
        ensures
            r@ == (ParameterInfoView { default_normalized_units: value@, ..self@ }),
            r.wf(),
    {
        ParameterInfo { default_normalized_value: value, ..self }
    }

    /// The stable numeric id.
    pub fn id(&self) -> (r: u32)
        ensures
            r == self@.id,
    {
        self.id
    }

    /// The display name.
    pub fn name(&self) -> (r: &String)
        ensures
            r@ == self@.name,
    {
        &self.name
    }

    /// The hierarchical path; empty when the parameter is not grouped.
    pub fn path(&self) -> (r: &String)
        ensures
            r@ == self@.path,
    {
        &self.path
    }

    /// The default value in normalized form.
    pub fn default_normalized_value(&self) -> (r: Normalized)
        ensures
            r@ == self@.default_normalized_units,
    {
        self.default_normalized_value
    }

    /// The step count: 0 for a continuous domain.
    pub fn steps(&self) -> (r: u64)
        ensures
            r == self@.steps,
    {
        self.steps
    }
}

impl Clone for ParameterInfo {
    /// An equal, independent copy of the metadata.
    fn clone(&self) -> (r: Self)
        ensures
            r@ == self@,
            r.wf() == self.wf(),
    {
        ParameterInfo {
            id: self.id,
            name: self.name.clone(),
            path: self.path.clone(),
            default_normalized_value: self.default_normalized_value,
            steps: self.steps,
        }
    }
}

} // verus!
