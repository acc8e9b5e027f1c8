//! The error taxonomy of the parser. Every failure is one of these values;
//! parsing stops at the first failure and never returns a partial descriptor.

use vstd::prelude::*;

verus! {

use vstd::string::StringExecFns;

/// Names the mandatory Spell Core slot that was still unfilled when the
/// input ended; carried by [`LatError::MissingCoreComponent`].
#[derive(Debug, Clone, Copy, PartialEq, Eq, Structural)]
pub enum CoreComponent {
    /// Action (Verb)
    Action,
    /// Element (Noun)
    Element,
    /// Modifier (Adjective)
    Modifier,
}

/// Every error the parser can report.
#[derive(Debug, Clone, PartialEq, Eq)]
pub enum LatError {
    /// A word that is not in the dictionary under any category.
    /// Carries the offending word verbatim.
    UnknownWord(String),
    /// The input ended before a mandatory Spell Core slot was filled.
    MissingCoreComponent(CoreComponent),
    /// A word that the dictionary knows, but under no category permitted in
    /// the current state. Carries a description of what was expected and of
    /// the categories the word actually belongs to.
    UnexpectedComponent { expected: String, found: String },
    /// A preposition was consumed with no word following it.
    /// Carries the preposition word verbatim.
    IncompleteExtensionPhrase(String),
    /// Reserved for truncation conditions not covered by the kinds above;
    /// the current grammar never produces it.
    UnexpectedEof,
}

/// The mathematical value of a [`LatError`]: the same variants with each
/// `String` payload replaced by its view.
pub enum LatErrorModel {
    UnknownWord(Seq<char>),
    MissingCoreComponent(CoreComponent),
    UnexpectedComponent { expected: Seq<char>, found: Seq<char> },
    IncompleteExtensionPhrase(Seq<char>),
    UnexpectedEof,
}

/// The name under which a [`CoreComponent`] appears in diagnostics.
pub open spec fn spec_core_component_name(c: CoreComponent) -> Seq<char> {
    match c {
        CoreComponent::Action => "Action"@,
        CoreComponent::Element => "Element"@,
        CoreComponent::Modifier => "Modifier"@,
    }
}

/// The user-facing diagnostic line for each error value.
pub open spec fn spec_message(e: LatErrorModel) -> Seq<char> {
    match e {
        LatErrorModel::UnknownWord(w) => "Parse Error: Unknown word \""@ + w + "\"."@,
        LatErrorModel::MissingCoreComponent(c) => "Parse Error: Missing core spell component "@
            + spec_core_component_name(c) + "."@,
        LatErrorModel::UnexpectedComponent { expected, found } =>
            "Parse Error: Unexpected component. Expected "@ + expected + " but found "@ + found
            + "."@,
        LatErrorModel::IncompleteExtensionPhrase(w) =>
            "Parse Error: Incomplete extension phrase starting with \""@ + w + "\"."@,
        LatErrorModel::UnexpectedEof => "Parse Error: Unexpected end of input."@,
    }
}

impl LatError {
    /// Renders the error as the diagnostic line a caller can surface to the
    /// end user.
    pub fn message(&self) -> (r: String)
        ensures
            r@ == spec_message(self@),
    {
        match self {
            LatError::UnknownWord(w) => {
                let mut s = String::from_str("Parse Error: Unknown word \"");
                s.append(w.as_str());
                s.append("\".");
                s
            },
            LatError::MissingCoreComponent(c) => {
                let mut s = String::from_str("Parse Error: Missing core spell component ");
                match c {
                    CoreComponent::Action => s.append("Action"),
                    CoreComponent::Element => s.append("Element"),
                    CoreComponent::Modifier => s.append("Modifier"),
                }
                s.append(".");
                s
            },
            LatError::UnexpectedComponent { expected, found } => {
                let mut s = String::from_str("Parse Error: Unexpected component. Expected ");
                s.append(expected.as_str());
                s.append(" but found ");
                s.append(found.as_str());
                s.append(".");
                s
            },
            LatError::IncompleteExtensionPhrase(w) => {
                let mut s = String::from_str(
                    "Parse Error: Incomplete extension phrase starting with \"",
                );
                s.append(w.as_str());
                s.append("\".");
                s
            },
            LatError::UnexpectedEof => String::from_str("Parse Error: Unexpected end of input."),
        }
    }
}

impl View for LatError {
    type V = LatErrorModel;

    open spec fn view(&self) -> LatErrorModel {
        match self {
            LatError::UnknownWord(w) => LatErrorModel::UnknownWord(w@),
            LatError::MissingCoreComponent(c) => LatErrorModel::MissingCoreComponent(*c),
            LatError::UnexpectedComponent { expected, found } => LatErrorModel::UnexpectedComponent {
                expected: expected@,
                found: found@,
            },
            LatError::IncompleteExtensionPhrase(w) => LatErrorModel::IncompleteExtensionPhrase(w@),
            LatError::UnexpectedEof => LatErrorModel::UnexpectedEof,
        }
    }
}

} // verus!
