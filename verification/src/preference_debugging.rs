//! Whether the system's defaults are the devices that the policy prefers,
//! and what was changed to make them so.

use crate::priority::manager::text_of;
use vstd::prelude::*;

verus! {

/// The system's defaults held against the policy's preferences.
#[derive(Debug)]
pub struct PreferenceStatus {
    /// Whether the default output is the preferred output.
    pub output_matches: bool,
    /// Whether the default input is the preferred input.
    pub input_matches: bool,
    /// The name of the default output.
    pub current_output: Option<String>,
    /// The name of the default input.
    pub current_input: Option<String>,
    /// The name of the output that the policy prefers.
    pub preferred_output: Option<String>,
    /// The name of the input that the policy prefers.
    pub preferred_input: Option<String>,
    /// The name of the preferred output, once more.
    pub output_device_name: Option<String>,
    /// The name of the preferred input, once more.
    pub input_device_name: Option<String>,
}

/// The mathematical value of a [`PreferenceStatus`].
pub struct PreferenceStatusView {
    pub output_matches: bool,
    pub input_matches: bool,
    pub current_output: Option<Seq<char>>,
    pub current_input: Option<Seq<char>>,
    pub preferred_output: Option<Seq<char>>,
    pub preferred_input: Option<Seq<char>>,
    pub output_device_name: Option<Seq<char>>,
    pub input_device_name: Option<Seq<char>>,
}

impl View for PreferenceStatus {
    type V = PreferenceStatusView;

    open spec fn view(&self) -> PreferenceStatusView {
        PreferenceStatusView {
            output_matches: self.output_matches,
            input_matches: self.input_matches,
            current_output: text_of(self.current_output),
            current_input: text_of(self.current_input),
            preferred_output: text_of(self.preferred_output),
            preferred_input: text_of(self.preferred_input),
            output_device_name: text_of(self.output_device_name),
            input_device_name: text_of(self.input_device_name),
        }
    }
}

/// Whether a default is the preferred device: both are there and have the
/// same name, or neither is there.
pub open spec fn names_match(current: Option<Seq<char>>, preferred: Option<Seq<char>>) -> bool {
    match (current, preferred) {
        (Some(current), Some(preferred)) => current == preferred,
        (None, None) => true,
        _ => false,
    }
}

/// The status for the given default and preferred names.
pub open spec fn status_of(
    current_output: Option<Seq<char>>,
    current_input: Option<Seq<char>>,
    preferred_output: Option<Seq<char>>,
    preferred_input: Option<Seq<char>>,
) -> PreferenceStatusView {
    PreferenceStatusView {
        output_matches: names_match(current_output, preferred_output),
        input_matches: names_match(current_input, preferred_input),
        current_output,
        current_input,
        preferred_output,
        preferred_input,
        output_device_name: preferred_output,
        input_device_name: preferred_input,
    }
}

/// A copy of a name that may be absent.
pub fn clone_name(name: &Option<String>) -> (copy: Option<String>)
    ensures
        copy == *name,
{
    match name {
        Some(name) => Some(name.clone()),
        None => None,
    }
}

fn same_name(current: &Option<String>, preferred: &Option<String>) -> (same: bool)
    ensures
        same == names_match(text_of(*current), text_of(*preferred)),
{
    match (current, preferred) {
        (Some(current), Some(preferred)) => *current == *preferred,
        (None, None) => true,
        _ => false,
    }
}

impl Clone for PreferenceStatus {
    fn clone(&self) -> (copy: Self)
        ensures
            copy == *self,
    {
        PreferenceStatus {
            output_matches: self.output_matches,
            input_matches: self.input_matches,
            current_output: clone_name(&self.current_output),
            current_input: clone_name(&self.current_input),
            preferred_output: clone_name(&self.preferred_output),
            preferred_input: clone_name(&self.preferred_input),
            output_device_name: clone_name(&self.output_device_name),
            input_device_name: clone_name(&self.input_device_name),
        }
    }
}

impl PartialEq for PreferenceStatus {
    fn eq(&self, other: &Self) -> (same: bool) {
        self.output_matches == other.output_matches && self.input_matches == other.input_matches
            && same_name(&self.current_output, &other.current_output) && same_name(
            &self.current_input,
            &other.current_input,
        ) && same_name(&self.preferred_output, &other.preferred_output) && same_name(
            &self.preferred_input,
            &other.preferred_input,
        ) && same_name(&self.output_device_name, &other.output_device_name) && same_name(
            &self.input_device_name,
            &other.input_device_name,
        )
    }
}

impl vstd::std_specs::cmp::PartialEqSpecImpl for PreferenceStatus {
    open spec fn obeys_eq_spec() -> bool {
        true
    }

    open spec fn eq_spec(&self, other: &Self) -> bool {
        self@ == other@
    }
}

impl PreferenceStatus {
    /// The status where nothing is known and nothing matches.
    pub fn no_matches() -> (status: Self)
        ensures
            status@ == (PreferenceStatusView {
                output_matches: false,
                input_matches: false,
                current_output: None,
                current_input: None,
                preferred_output: None,
                preferred_input: None,
                output_device_name: None,
                input_device_name: None,
            }),
    {
        Self {
            output_matches: false,
            input_matches: false,
            current_output: None,
            current_input: None,
            preferred_output: None,
            preferred_input: None,
            output_device_name: None,
            input_device_name: None,
        }
    }

    /// The status where the defaults are the preferred devices of the
    /// given names.
    pub fn all_match(output_name: String, input_name: String) -> (status: Self)
        ensures
            status@ == status_of(
                Some(output_name@),
                Some(input_name@),
                Some(output_name@),
                Some(input_name@),
            ),
    {
        Self {
            output_matches: true,
            input_matches: true,
            current_output: Some(output_name.clone()),
            current_input: Some(input_name.clone()),
            preferred_output: Some(output_name.clone()),
            preferred_input: Some(input_name.clone()),
            output_device_name: Some(output_name),
            input_device_name: Some(input_name),
        }
    }

    /// The status for the given default and preferred names.
    pub fn evaluate(
        current_output: Option<String>,
        current_input: Option<String>,
        preferred_output: Option<String>,
        preferred_input: Option<String>,
    ) -> (status: Self)
        ensures
            status@ == status_of(
                text_of(current_output),
                text_of(current_input),
                text_of(preferred_output),
                text_of(preferred_input),
            ),
    {
        Self {
            output_matches: same_name(&current_output, &preferred_output),
            input_matches: same_name(&current_input, &preferred_input),
            output_device_name: clone_name(&preferred_output),
            input_device_name: clone_name(&preferred_input),
            current_output,
            current_input,
            preferred_output,
            preferred_input,
        }
    }
}

/// What applying the preferences changed.
#[derive(Debug)]
pub struct PreferenceChanges {
    /// Whether the default output was changed.
    pub output_changed: bool,
    /// Whether the default input was changed.
    pub input_changed: bool,
    /// The name of the new default output, if it was changed.
    pub new_output: Option<String>,
    /// The name of the new default input, if it was changed.
    pub new_input: Option<String>,
}

/// The mathematical value of a [`PreferenceChanges`].
pub struct PreferenceChangesView {
    pub output_changed: bool,
    pub input_changed: bool,
    pub new_output: Option<Seq<char>>,
    pub new_input: Option<Seq<char>>,
}

impl View for PreferenceChanges {
    type V = PreferenceChangesView;

    open spec fn view(&self) -> PreferenceChangesView {
        PreferenceChangesView {
            output_changed: self.output_changed,
            input_changed: self.input_changed,
            new_output: text_of(self.new_output),
            new_input: text_of(self.new_input),
        }
    }
}

/// The changes in which the outputs and inputs of these names, where
/// given, became the defaults.
pub open spec fn changes_of(
    new_output: Option<Seq<char>>,
    new_input: Option<Seq<char>>,
) -> PreferenceChangesView {
    PreferenceChangesView {
        output_changed: new_output is Some,
        input_changed: new_input is Some,
        new_output,
        new_input,
    }
}

impl Clone for PreferenceChanges {
    fn clone(&self) -> (copy: Self)
        ensures
            copy == *self,
    {
        PreferenceChanges {
            output_changed: self.output_changed,
            input_changed: self.input_changed,
            new_output: clone_name(&self.new_output),
            new_input: clone_name(&self.new_input),
        }
    }
}

impl PartialEq for PreferenceChanges {
    fn eq(&self, other: &Self) -> (same: bool) {
        self.output_changed == other.output_changed && self.input_changed == other.input_changed
            && same_name(&self.new_output, &other.new_output) && same_name(
            &self.new_input,
            &other.new_input,
        )
    }
}

impl vstd::std_specs::cmp::PartialEqSpecImpl for PreferenceChanges {
    open spec fn obeys_eq_spec() -> bool {
        true
    }

    open spec fn eq_spec(&self, other: &Self) -> bool {
        self@ == other@
    }
}

impl PreferenceChanges {
    /// Nothing was changed.
    pub fn no_changes() -> (changes: Self)
        ensures
            changes@ == changes_of(None, None),
    {
        Self { output_changed: false, input_changed: false, new_output: None, new_input: None }
    }

    /// Both defaults were changed.
    pub fn both_changed(new_output: String, new_input: String) -> (changes: Self)
        ensures
            changes@ == changes_of(Some(new_output@), Some(new_input@)),
    {
        Self {
            output_changed: true,
            input_changed: true,
            new_output: Some(new_output),
            new_input: Some(new_input),
        }
    }

    /// Only the default output was changed.
    pub fn output_only_changed(new_output: String) -> (changes: Self)
        ensures
            changes@ == changes_of(Some(new_output@), None),
    {
        Self {
            output_changed: true,
            input_changed: false,
            new_output: Some(new_output),
            new_input: None,
        }
    }

    /// Only the default input was changed.
    pub fn input_only_changed(new_input: String) -> (changes: Self)
        ensures
            changes@ == changes_of(None, Some(new_input@)),
    {
        Self {
            output_changed: false,
            input_changed: true,
            new_output: None,
            new_input: Some(new_input),
        }
    }
}

} // verus!
