//! One source file and the file of accessors that is written for it.

use crate::error::GenerateError;
use crate::generate::{generate_from_items, items_text, text_view};
use crate::syntax::{declarations_view, items_within, parse_declarations, parsed_file};
use crate::text::{base_name, last_component};
use vstd::prelude::*;
use vstd::string::*;

verus! {

/// The text of one source file, and the name of the file that its accessors go to.
pub struct WrapperGen {
    input: String,
    name: String,
}

/// What a `WrapperGen` is to a contract.
pub struct WrapperGenView {
    pub input: Seq<char>,
    pub name: Seq<char>,
}

impl View for WrapperGen {
    type V = WrapperGenView;

    closed spec fn view(&self) -> WrapperGenView {
        WrapperGenView { input: self.input@, name: self.name@ }
    }
}

/// The name of the file of accessors for the source file at `path`: `wrapper_` and the
/// path's last component.
pub open spec fn wrapper_name(path: Seq<char>) -> Seq<char> {
    "wrapper_"@ + base_name(path)
}

/// The accessors for a source text: those of the declarations that the parser finds in
/// it, under the empty path. A text that the parser refuses gives `Syntax`.
pub open spec fn generated_text(input: Seq<char>) -> Result<Seq<char>, GenerateError> {
    match parsed_file(input) {
        None => Err(GenerateError::Syntax),
        Some(items) => if items_within(items, input.len()) {
            items_text(declarations_view(items), Seq::empty())
        } else {
            Err(GenerateError::NestingTooDeep)
        },
    }
}

impl WrapperGen {
    /// For the source file at `file_name`, which holds `input`.
    pub fn new(file_name: &str, input: String) -> (made: WrapperGen)
        ensures
            made@.input == input@,
            made@.name == wrapper_name(file_name@),
    {
        let mut name = String::from_str("wrapper_");
        name.append(last_component(file_name).as_str());
        WrapperGen { input, name }
    }

    /// The text of the source file.
    pub fn input(&self) -> (input: &str)
        ensures
            input@ == self@.input,
    {
        self.input.as_str()
    }

    /// The name of the file that the accessors go to.
    pub fn name(&self) -> (name: &str)
        ensures
            name@ == self@.name,
    {
        self.name.as_str()
    }

    /// The accessors of all messages that the source file declares, as text: what
    /// `generated_text` says for the text of the file.
    pub fn generate(&self) -> (outcome: Result<String, GenerateError>)
        ensures
            text_view(outcome) == generated_text(self@.input),
    {
        let items = match parse_declarations(self.input.as_str()) {
            Ok(items) => items,
            Err(error) => {
                return Err(error);
            },
        };
        proof {
            reveal_strlit("");
            assert(""@ =~= Seq::<char>::empty());
        }
        generate_from_items(&items, "")
    }
}

} // verus!
