//! The grammar engine: a single-pass, left-to-right state machine over the
//! token list. It fills the mandatory Action/Element/Modifier triple, then
//! loops over extension phrases (a target clause, an origin clause, emphasis
//! words) until the input ends or a typed error is raised.
//!
//! The whole behaviour is pinned down by the pure function [`spec_parse`];
//! the executable [`parse`] returns exactly its value.

use vstd::prelude::*;

verus! {

use vstd::string::{StrSliceExecFns, StringExecFns};
use crate::dictionary::{
    action_of, element_of, emphasis_of, found_description, modifier_of, origin_of,
    preposition_of, spec_action_of, spec_element_of, spec_emphasis_of, spec_found_description,
    spec_modifier_of, spec_origin_of, spec_preposition_of, spec_target_of, spec_word_known,
    target_of, word_known,
};
use crate::tokenizer::{spec_tokens, tokenize};
use crate::types::errors::{CoreComponent, LatError, LatErrorModel};
use crate::types::{
    Action, Element, Emphasis, LatValue, LatValueModel, Modifier, Origin, Preposition, Target,
};

/// Resolves a word in a state that permits only the Action category.
pub open spec fn spec_expect_action(w: Seq<char>) -> Result<Action, LatErrorModel> {
    match spec_action_of(w) {
        Some(a) => Ok(a),
        None => if spec_word_known(w) {
            Err(
                LatErrorModel::UnexpectedComponent {
                    expected: "Action"@,
                    found: spec_found_description(w),
                },
            )
        } else {
            Err(LatErrorModel::UnknownWord(w))
        },
    }
}

/// Resolves a word in a state that permits only the Element category.
pub open spec fn spec_expect_element(w: Seq<char>) -> Result<Element, LatErrorModel> {
    match spec_element_of(w) {
        Some(e) => Ok(e),
        None => if spec_word_known(w) {
            Err(
                LatErrorModel::UnexpectedComponent {
                    expected: "Element"@,
                    found: spec_found_description(w),
                },
            )
        } else {
            Err(LatErrorModel::UnknownWord(w))
        },
    }
}

/// Resolves a word in a state that permits only the Modifier category.
pub open spec fn spec_expect_modifier(w: Seq<char>) -> Result<Modifier, LatErrorModel> {
    match spec_modifier_of(w) {
        Some(m) => Ok(m),
        None => if spec_word_known(w) {
            Err(
                LatErrorModel::UnexpectedComponent {
                    expected: "Modifier"@,
                    found: spec_found_description(w),
                },
            )
        } else {
            Err(LatErrorModel::UnknownWord(w))
        },
    }
}

/// Resolves the word after the to-target preposition, which must be a Target.
pub open spec fn spec_expect_target(w: Seq<char>) -> Result<Target, LatErrorModel> {
    match spec_target_of(w) {
        Some(t) => Ok(t),
        None => if spec_word_known(w) {
            Err(
                LatErrorModel::UnexpectedComponent {
                    expected: "Target"@,
                    found: spec_found_description(w),
                },
            )
        } else {
            Err(LatErrorModel::UnknownWord(w))
        },
    }
}

/// Resolves the word after the from-origin preposition, which must be an
/// Origin.
pub open spec fn spec_expect_origin(w: Seq<char>) -> Result<Origin, LatErrorModel> {
    match spec_origin_of(w) {
        Some(o) => Ok(o),
        None => if spec_word_known(w) {
            Err(
                LatErrorModel::UnexpectedComponent {
                    expected: "Origin"@,
                    found: spec_found_description(w),
                },
            )
        } else {
            Err(LatErrorModel::UnknownWord(w))
        },
    }
}

/// The extension loop over the tokens that follow the Spell Core, carrying
/// the target, origin and emphasis words gathered so far. A target and an
/// origin may each be set at most once; emphasis words accumulate in input
/// order with repeats kept.
pub open spec fn spec_extensions(
    toks: Seq<Seq<char>>,
    target: Option<Target>,
    origin: Option<Origin>,
    emphasis: Seq<Emphasis>,
) -> Result<(Option<Target>, Option<Origin>, Seq<Emphasis>), LatErrorModel>
    decreases toks.len(),
{
    if toks.len() == 0 {
        Ok((target, origin, emphasis))
    } else {
        let w = toks[0];
        match spec_preposition_of(w) {
            Some(Preposition::ToTarget) => if toks.len() == 1 {
                Err(LatErrorModel::IncompleteExtensionPhrase(w))
            } else {
                match spec_expect_target(toks[1]) {
                    Err(e) => Err(e),
                    Ok(t) => if target is Some {
                        Err(
                            LatErrorModel::UnexpectedComponent {
                                expected: "end of input or Origin/Emphasis"@,
                                found: "Target"@,
                            },
                        )
                    } else {
                        spec_extensions(toks.skip(2), Some(t), origin, emphasis)
                    },
                }
            },
            Some(Preposition::FromOrigin) => if toks.len() == 1 {
                Err(LatErrorModel::IncompleteExtensionPhrase(w))
            } else {
                match spec_expect_origin(toks[1]) {
                    Err(e) => Err(e),
                    Ok(o) => if origin is Some {
                        Err(
                            LatErrorModel::UnexpectedComponent {
                                expected: "end of input or Target/Emphasis"@,
                                found: "Origin"@,
                            },
                        )
                    } else {
                        spec_extensions(toks.skip(2), target, Some(o), emphasis)
                    },
                }
            },
            None => match spec_emphasis_of(w) {
                Some(e) => spec_extensions(toks.skip(1), target, origin, emphasis.push(e)),
                None => if spec_word_known(w) {
                    Err(
                        LatErrorModel::UnexpectedComponent {
                            expected: "Preposition or Emphasis"@,
                            found: spec_found_description(w),
                        },
                    )
                } else {
                    Err(LatErrorModel::UnknownWord(w))
                },
            },
        }
    }
}

/// The state machine over a whole token list: the mandatory triple in order,
/// then the extension loop; `src` is the verbatim input recorded on success.
pub open spec fn spec_parse_tokens(toks: Seq<Seq<char>>, src: Seq<char>) -> Result<
    LatValueModel,
    LatErrorModel,
> {
    if toks.len() == 0 {
        Err(LatErrorModel::MissingCoreComponent(CoreComponent::Action))
    } else {
        match spec_expect_action(toks[0]) {
            Err(e) => Err(e),
            Ok(action) => if toks.len() == 1 {
                Err(LatErrorModel::MissingCoreComponent(CoreComponent::Element))
            } else {
                match spec_expect_element(toks[1]) {
                    Err(e) => Err(e),
                    Ok(element) => if toks.len() == 2 {
                        Err(LatErrorModel::MissingCoreComponent(CoreComponent::Modifier))
                    } else {
                        match spec_expect_modifier(toks[2]) {
                            Err(e) => Err(e),
                            Ok(modifier) => match spec_extensions(
                                toks.skip(3),
                                None,
                                None,
                                Seq::empty(),
                            ) {
                                Err(e) => Err(e),
                                Ok(ext) => Ok(
                                    LatValueModel {
                                        action,
                                        element,
                                        modifier,
                                        target: ext.0,
                                        origin: ext.1,
                                        emphasis_phrases: ext.2,
                                        source_text: src,
                                    },
                                ),
                            },
                        }
                    },
                }
            },
        }
    }
}

/// What [`parse`] returns on the text `s`: the whole contract of the parser.
pub open spec fn spec_parse(s: Seq<char>) -> Result<LatValueModel, LatErrorModel> {
    spec_parse_tokens(spec_tokens(s), s)
}

/// The mathematical value of an executable parse result.
pub open spec fn result_model(r: Result<LatValue, LatError>) -> Result<
    LatValueModel,
    LatErrorModel,
> {
    match r {
        Ok(v) => Ok(v@),
        Err(e) => Err(e@),
    }
}

/// Resolves the mandatory first word; see [`spec_expect_action`].
fn expect_action(word: &String) -> (r: Result<Action, LatError>)
    ensures
        (match r {
            Ok(a) => Ok::<Action, LatErrorModel>(a),
            Err(e) => Err(e@),
        }) == spec_expect_action(word@),
{
    match action_of(word.as_str()) {
        Some(a) => Ok(a),
        None => if word_known(word.as_str()) {
            Err(
                LatError::UnexpectedComponent {
                    expected: String::from_str("Action"),
                    found: found_description(word.as_str()),
                },
            )
        } else {
            Err(LatError::UnknownWord(word.clone()))
        },
    }
}

/// Resolves the mandatory second word; see [`spec_expect_element`].
fn expect_element(word: &String) -> (r: Result<Element, LatError>)
    ensures
        (match r {
            Ok(a) => Ok::<Element, LatErrorModel>(a),
            Err(e) => Err(e@),
        }) == spec_expect_element(word@),
{
    match element_of(word.as_str()) {
        Some(e) => Ok(e),
        None => if word_known(word.as_str()) {
            Err(
                LatError::UnexpectedComponent {
                    expected: String::from_str("Element"),
                    found: found_description(word.as_str()),
                },
            )
        } else {
            Err(LatError::UnknownWord(word.clone()))
        },
    }
}

/// Resolves the mandatory third word; see [`spec_expect_modifier`].
fn expect_modifier(word: &String) -> (r: Result<Modifier, LatError>)
    ensures
        (match r {
            Ok(a) => Ok::<Modifier, LatErrorModel>(a),
            Err(e) => Err(e@),
        }) == spec_expect_modifier(word@),
{
    match modifier_of(word.as_str()) {
        Some(m) => Ok(m),
        None => if word_known(word.as_str()) {
            Err(
                LatError::UnexpectedComponent {
                    expected: String::from_str("Modifier"),
                    found: found_description(word.as_str()),
                },
            )
        } else {
            Err(LatError::UnknownWord(word.clone()))
        },
    }
}

/// Resolves the word after "ad"; see [`spec_expect_target`].
fn expect_target(word: &String) -> (r: Result<Target, LatError>)
    ensures
        (match r {
            Ok(a) => Ok::<Target, LatErrorModel>(a),
            Err(e) => Err(e@),
        }) == spec_expect_target(word@),
{
    match target_of(word.as_str()) {
        Some(t) => Ok(t),
        None => if word_known(word.as_str()) {
            Err(
                LatError::UnexpectedComponent {
                    expected: String::from_str("Target"),
                    found: found_description(word.as_str()),
                },
            )
        } else {
            Err(LatError::UnknownWord(word.clone()))
        },
    }
}

/// Resolves the word after "ex"; see [`spec_expect_origin`].
fn expect_origin(word: &String) -> (r: Result<Origin, LatError>)
    ensures
        (match r {
            Ok(a) => Ok::<Origin, LatErrorModel>(a),
            Err(e) => Err(e@),
        }) == spec_expect_origin(word@),
{
    match origin_of(word.as_str()) {
        Some(o) => Ok(o),
        None => if word_known(word.as_str()) {
            Err(
                LatError::UnexpectedComponent {
                    expected: String::from_str("Origin"),
                    found: found_description(word.as_str()),
                },
            )
        } else {
            Err(LatError::UnknownWord(word.clone()))
        },
    }
}

/// Parses a spell string into its descriptor, or reports the first error.
///
/// The returned value is exactly [`spec_parse`] applied to the input text:
/// on success the descriptor holds the resolved Spell Core, the optional
/// target and origin, the emphasis words in input order, and the verbatim
/// input as `source_text`; on failure the typed error says what was wrong
/// at the first offending position.
#[verifier::loop_isolation(false)]
pub fn parse(input: &str) -> (r: Result<LatValue, LatError>)
    ensures
        result_model(r) == spec_parse(input@),
{
    let toks = tokenize(input);
    let ghost toksv = toks@.map_values(|t: String| t@);
    if toks.len() == 0 {
        return Err(LatError::MissingCoreComponent(CoreComponent::Action));
    }
    let action = match expect_action(&toks[0]) {
        Ok(a) => a,
        Err(e) => {
            return Err(e);
        },
    };
    if toks.len() == 1 {
        return Err(LatError::MissingCoreComponent(CoreComponent::Element));
    }
    let element = match expect_element(&toks[1]) {
        Ok(e) => e,
        Err(e) => {
            return Err(e);
        },
    };
    if toks.len() == 2 {
        return Err(LatError::MissingCoreComponent(CoreComponent::Modifier));
    }
    let modifier = match expect_modifier(&toks[2]) {
        Ok(m) => m,
        Err(e) => {
            return Err(e);
        },
    };
    let mut target: Option<Target> = None;
    let mut origin: Option<Origin> = None;
    let mut emphasis: Vec<Emphasis> = Vec::new();
    let mut idx: usize = 3;
    proof {
        assert(emphasis@ =~= Seq::<Emphasis>::empty());
    }
    while idx < toks.len()
        invariant
            3 <= idx <= toks.len(),
            toksv == toks@.map_values(|t: String| t@),
            spec_extensions(toksv.skip(idx as int), target, origin, emphasis@) == spec_extensions(
                toksv.skip(3),
                None,
                None,
                Seq::empty(),
            ),
        decreases toks.len() - idx,
    {
        let ghost rest = toksv.skip(idx as int);
        proof {
            assert(rest[0] == toksv[idx as int]);
            assert(rest.len() == toksv.len() - idx);
        }
        match preposition_of(toks[idx].as_str()) {
            Some(Preposition::ToTarget) => {
                if idx + 1 == toks.len() {
                    return Err(LatError::IncompleteExtensionPhrase(toks[idx].clone()));
                }
                proof {
                    assert(rest[1] == toksv[idx as int + 1]);
                }
                let t = match expect_target(&toks[idx + 1]) {
                    Ok(t) => t,
                    Err(e) => {
                        return Err(e);
                    },
                };
                if target.is_some() {
                    return Err(
                        LatError::UnexpectedComponent {
                            expected: String::from_str("end of input or Origin/Emphasis"),
                            found: String::from_str("Target"),
                        },
                    );
                }
                target = Some(t);
                idx = idx + 2;
                proof {
                    assert(rest.skip(2) =~= toksv.skip(idx as int));
                }
            },
            Some(Preposition::FromOrigin) => {
                if idx + 1 == toks.len() {
                    return Err(LatError::IncompleteExtensionPhrase(toks[idx].clone()));
                }
                proof {
                    assert(rest[1] == toksv[idx as int + 1]);
                }
                let o = match expect_origin(&toks[idx + 1]) {
                    Ok(o) => o,
                    Err(e) => {
                        return Err(e);
                    },
                };
                if origin.is_some() {
                    return Err(
                        LatError::UnexpectedComponent {
                            expected: String::from_str("end of input or Target/Emphasis"),
                            found: String::from_str("Origin"),
                        },
                    );
                }
                origin = Some(o);
                idx = idx + 2;
                proof {
                    assert(rest.skip(2) =~= toksv.skip(idx as int));
                }
            },
            None => {
                match emphasis_of(toks[idx].as_str()) {
                    Some(e) => {
                        emphasis.push(e);
                        idx = idx + 1;
                        proof {
                            assert(rest.skip(1) =~= toksv.skip(idx as int));
                        }
                    },
                    None => {
                        if word_known(toks[idx].as_str()) {
                            return Err(
                                LatError::UnexpectedComponent {
                                    expected: String::from_str("Preposition or Emphasis"),
                                    found: found_description(toks[idx].as_str()),
                                },
                            );
                        } else {
                            return Err(LatError::UnknownWord(toks[idx].clone()));
                        }
                    },
                }
            },
        }
    }
    proof {
        assert(toksv.skip(idx as int) =~= Seq::<Seq<char>>::empty());
    }
    Ok(
        LatValue {
            action,
            element,
            modifier,
            target,
            origin,
            emphasis_phrases: emphasis,
            source_text: String::from_str(input),
        },
    )
}

} // verus!
