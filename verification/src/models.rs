//! The fixed model list and the currently selected model identifier,
//! mutable between turns and never mid-turn.

use vstd::prelude::*;

use crate::text::str_eq;

verus! {

/// The selectable model identifiers, in their fixed menu order.
pub open spec fn spec_models() -> Seq<Seq<char>> {
    seq![
        "openai/gpt-oss-120b"@,
        "meta-llama/llama-4-maverick-17b-128e-instruct"@,
        "moonshotai/kimi-k2-instruct-0905"@,
    ]
}

/// How many models can be selected.
pub fn model_count() -> (n: usize)
    ensures
        n == spec_models().len(),
{
    3
}

/// The model identifier at menu index `i`.
pub fn model_name(i: usize) -> (r: &'static str)
    requires
        i < spec_models().len(),
    ensures
        r@ == spec_models()[i as int],
{
    if i == 0 {
        "openai/gpt-oss-120b"
    } else if i == 1 {
        "meta-llama/llama-4-maverick-17b-128e-instruct"
    } else {
        "moonshotai/kimi-k2-instruct-0905"
    }
}

/// The menu index selected by a line of user input: menu entries "1" to
/// "3", the empty line for the default, and anything else falling back to
/// the default.
pub open spec fn spec_parse_model_choice(choice: Seq<char>) -> int {
    if choice == "1"@ || choice == ""@ {
        0
    } else if choice == "2"@ {
        1
    } else if choice == "3"@ {
        2
    } else {
        0
    }
}

/// Whether a line of user input is a recognized menu choice; anything else
/// selects the default model after a corrective message.
pub open spec fn spec_model_choice_valid(choice: Seq<char>) -> bool {
    choice == ""@ || choice == "1"@ || choice == "2"@ || choice == "3"@
}

/// Decide the menu index for a line of user input, as
/// `spec_parse_model_choice` describes; the flag says whether the input was
/// a recognized choice.
pub fn parse_model_choice(choice: &str) -> (r: (usize, bool))
    ensures
        r.0 == spec_parse_model_choice(choice@),
        r.0 < spec_models().len(),
        r.1 == spec_model_choice_valid(choice@),
{
    if str_eq(choice, "1") || str_eq(choice, "") {
        (0, true)
    } else if str_eq(choice, "2") {
        (1, true)
    } else if str_eq(choice, "3") {
        (2, true)
    } else {
        (0, false)
    }
}

/// The single currently active model selection.
pub struct ModelManager {
    selected: usize,
}

impl ModelManager {
    /// The menu index of the active model.
    pub closed spec fn selected_spec(&self) -> int {
        self.selected as int
    }

    /// The selection always names one of the fixed models.
    pub open spec fn wf(&self) -> bool {
        0 <= self.selected_spec() < spec_models().len()
    }

    /// A fresh manager with the default model active.
    pub fn new() -> (m: ModelManager)
        ensures
            m.selected_spec() == 0,
            m.wf(),
    {
        ModelManager { selected: 0 }
    }

    /// Make the model a line of user input selects active.
    pub fn select(&mut self, choice: &str) -> (valid: bool)
        ensures
            final(self).selected_spec() == spec_parse_model_choice(choice@),
            final(self).wf(),
            valid == spec_model_choice_valid(choice@),
    {
        let (index, valid) = parse_model_choice(choice);
        self.selected = index;
        valid
    }

    /// The identifier of the active model.
    pub fn get_current_model(&self) -> (r: &'static str)
        requires
            self.wf(),
        ensures
            r@ == spec_models()[self.selected_spec()],
    {
        model_name(self.selected)
    }
}

} // verus!
