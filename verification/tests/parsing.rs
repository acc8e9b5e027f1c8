use lat::dictionary::{action_of, element_of, found_description, origin_of, preposition_of, word_known};
use lat::parser::parse;
use lat::tokenizer::tokenize;
use lat::types::errors::{CoreComponent, LatError};
use lat::types::{Action, Element, Emphasis, LatValue, Modifier, Origin, Preposition, Target};
use lat::{Lat, LatValue as HostValue};

#[test]
fn lat_parse() {
    let not_reset_str: String = "HELLO".to_string();
    assert_eq!(Lat::parse(not_reset_str.clone()), Ok(HostValue::new(false)));

    let reset_str: String = "reset".to_string();
    assert_eq!(Lat::parse(reset_str.clone()), Ok(HostValue::new(true)));
}

#[test]
fn test() {
    let input: &str = "Ure ignis magno";
    let parsed_result: LatValue = parse(input).unwrap();

    assert_eq!(
        parsed_result,
        LatValue {
            action: Action::Ure,
            element: Element::Ignis,
            modifier: Modifier::Magnus,
            target: None,
            origin: None,
            emphasis_phrases: vec![],
            source_text: String::from("Ure ignis magno"),
        }
    );
}

#[test]
fn quick_cast_is_verbatim() {
    let parsed = parse("Ure Ignis Magnus").unwrap();
    assert_eq!(
        parsed,
        LatValue {
            action: Action::Ure,
            element: Element::Ignis,
            modifier: Modifier::Magnus,
            target: None,
            origin: None,
            emphasis_phrases: vec![],
            source_text: String::from("Ure Ignis Magnus"),
        }
    );
}

#[test]
fn quick_cast_other_words() {
    let parsed = parse("Sana Aqua Parvus").unwrap();
    assert_eq!(parsed.action, Action::Sana);
    assert_eq!(parsed.element, Element::Aqua);
    assert_eq!(parsed.modifier, Modifier::Parvus);

    let parsed = parse("Defende Lumen Fortis").unwrap();
    assert_eq!(parsed.action, Action::Defende);
    assert_eq!(parsed.element, Element::Lumen);
    assert_eq!(parsed.modifier, Modifier::Fortis);

    let parsed = parse("Feri Umbra Celer").unwrap();
    assert_eq!(parsed.action, Action::Feri);
    assert_eq!(parsed.element, Element::Umbra);
    assert_eq!(parsed.modifier, Modifier::Celer);

    let parsed = parse("Feri Ventus Celer").unwrap();
    assert_eq!(parsed.element, Element::Ventus);
}

#[test]
fn case_insensitive_same_descriptor() {
    let upper = parse("URE IGNIS MAGNUS").unwrap();
    let lower = parse("ure ignis magnus").unwrap();
    assert_eq!(upper.action, lower.action);
    assert_eq!(upper.element, lower.element);
    assert_eq!(upper.modifier, lower.modifier);
    assert_eq!(upper.target, lower.target);
    assert_eq!(upper.origin, lower.origin);
    assert_eq!(upper.emphasis_phrases, lower.emphasis_phrases);
    assert_eq!(upper.source_text, "URE IGNIS MAGNUS");
    assert_eq!(lower.source_text, "ure ignis magnus");
}

#[test]
fn missing_core_components() {
    assert_eq!(
        parse(""),
        Err(LatError::MissingCoreComponent(CoreComponent::Action))
    );
    assert_eq!(
        parse("Ure"),
        Err(LatError::MissingCoreComponent(CoreComponent::Element))
    );
    assert_eq!(
        parse("Ure Ignis"),
        Err(LatError::MissingCoreComponent(CoreComponent::Modifier))
    );
}

#[test]
fn whitespace_only_input_is_missing_action() {
    assert_eq!(
        parse(" \t \n "),
        Err(LatError::MissingCoreComponent(CoreComponent::Action))
    );
}

#[test]
fn unknown_word() {
    assert_eq!(
        parse("Xyzzy Ignis Magnus"),
        Err(LatError::UnknownWord("Xyzzy".to_string()))
    );
}

#[test]
fn misordered_core() {
    assert_eq!(
        parse("Ignis Ure Magnus"),
        Err(LatError::UnexpectedComponent {
            expected: "Action".to_string(),
            found: "Element".to_string(),
        })
    );
}

#[test]
fn target_extension() {
    let parsed = parse("Ure Ignis Magnus ad Hostis").unwrap();
    assert_eq!(parsed.target, Some(Target::Hostis));
    assert_eq!(parsed.origin, None);
    assert_eq!(parsed.emphasis_phrases, vec![]);
}

#[test]
fn origin_extension_disambiguates_terra() {
    let parsed = parse("Ure Ignis Magnus ex Terra").unwrap();
    assert_eq!(parsed.origin, Some(Origin::Terra));
    assert_eq!(parsed.target, None);
}

#[test]
fn terra_as_element() {
    let parsed = parse("Ure Terra Magnus").unwrap();
    assert_eq!(parsed.element, Element::Terra);
}

#[test]
fn incomplete_extension_phrase() {
    assert_eq!(
        parse("Ure Ignis Magnus ad"),
        Err(LatError::IncompleteExtensionPhrase("ad".to_string()))
    );
    assert_eq!(
        parse("Ure Ignis Magnus ex"),
        Err(LatError::IncompleteExtensionPhrase("ex".to_string()))
    );
}

#[test]
fn emphasis_order_and_repeats() {
    let parsed = parse("Ure Ignis Magnus Nunc CumVi Nunc").unwrap();
    assert_eq!(
        parsed.emphasis_phrases,
        vec![Emphasis::Nunc, Emphasis::CumVi, Emphasis::Nunc]
    );
    assert_eq!(parsed.target, None);
    assert_eq!(parsed.origin, None);
}

#[test]
fn emphasis_tandem() {
    let parsed = parse("Sana Lumen Parvus Tandem").unwrap();
    assert_eq!(parsed.emphasis_phrases, vec![Emphasis::Tandem]);
}

#[test]
fn reparse_source_text_is_stable() {
    let first = parse("Ure Ignis Magnus ad Hostis ex Caelum Nunc").unwrap();
    let second = parse(&first.source_text).unwrap();
    assert_eq!(first, second);
}

#[test]
fn target_set_at_most_once() {
    assert_eq!(
        parse("Ure Ignis Magnus ad Hostis ad Me"),
        Err(LatError::UnexpectedComponent {
            expected: "end of input or Origin/Emphasis".to_string(),
            found: "Target".to_string(),
        })
    );
}

#[test]
fn origin_set_at_most_once() {
    assert_eq!(
        parse("Ure Ignis Magnus ex Caelum ex Terra"),
        Err(LatError::UnexpectedComponent {
            expected: "end of input or Target/Emphasis".to_string(),
            found: "Origin".to_string(),
        })
    );
}

#[test]
fn wrong_category_after_preposition() {
    assert_eq!(
        parse("Ure Ignis Magnus ad Ignis"),
        Err(LatError::UnexpectedComponent {
            expected: "Target".to_string(),
            found: "Element".to_string(),
        })
    );
    assert_eq!(
        parse("Ure Ignis Magnus ex Hostis"),
        Err(LatError::UnexpectedComponent {
            expected: "Origin".to_string(),
            found: "Target".to_string(),
        })
    );
}

#[test]
fn unknown_word_after_preposition() {
    assert_eq!(
        parse("Ure Ignis Magnus ad Xyzzy"),
        Err(LatError::UnknownWord("Xyzzy".to_string()))
    );
}

#[test]
fn misplaced_core_word_in_extension() {
    assert_eq!(
        parse("Ure Ignis Magnus Ure"),
        Err(LatError::UnexpectedComponent {
            expected: "Preposition or Emphasis".to_string(),
            found: "Action".to_string(),
        })
    );
}

#[test]
fn ambiguous_word_diagnostic_lists_both_categories() {
    assert_eq!(
        parse("Terra Ignis Magnus"),
        Err(LatError::UnexpectedComponent {
            expected: "Action".to_string(),
            found: "Element/Origin".to_string(),
        })
    );
}

#[test]
fn full_cast_with_target_and_origin() {
    let parsed = parse("Feri Ventus Fortis ad Amicus ex Caelum CumVi").unwrap();
    assert_eq!(parsed.action, Action::Feri);
    assert_eq!(parsed.element, Element::Ventus);
    assert_eq!(parsed.modifier, Modifier::Fortis);
    assert_eq!(parsed.target, Some(Target::Amicus));
    assert_eq!(parsed.origin, Some(Origin::Caelum));
    assert_eq!(parsed.emphasis_phrases, vec![Emphasis::CumVi]);
}

#[test]
fn emphasis_before_prepositional_phrase() {
    let parsed = parse("Ure Ignis Magnus Nunc ad Me").unwrap();
    assert_eq!(parsed.emphasis_phrases, vec![Emphasis::Nunc]);
    assert_eq!(parsed.target, Some(Target::Me));
}

#[test]
fn inflected_surface_forms() {
    let parsed = parse("Sana Aqua Magno ad Hostem ex Caelo").unwrap();
    assert_eq!(parsed.modifier, Modifier::Magnus);
    assert_eq!(parsed.target, Some(Target::Hostis));
    assert_eq!(parsed.origin, Some(Origin::Caelum));
}

#[test]
fn irregular_whitespace_is_tokenized() {
    let parsed = parse("  Ure\t Ignis \n Magnus ").unwrap();
    assert_eq!(parsed.action, Action::Ure);
    assert_eq!(parsed.element, Element::Ignis);
    assert_eq!(parsed.modifier, Modifier::Magnus);
    assert_eq!(parsed.source_text, "  Ure\t Ignis \n Magnus ");
}

#[test]
fn target_area_and_amicus() {
    let parsed = parse("Sana Aqua Parvus ad Area").unwrap();
    assert_eq!(parsed.target, Some(Target::Area));
    let parsed = parse("Sana Aqua Parvus ad Amicus").unwrap();
    assert_eq!(parsed.target, Some(Target::Amicus));
}

#[test]
fn dictionary_resolution_is_positional() {
    assert_eq!(element_of("Terra"), Some(Element::Terra));
    assert_eq!(origin_of("terra"), Some(Origin::Terra));
    assert_eq!(action_of("Terra"), None);
    assert_eq!(found_description("TERRA"), "Element/Origin");
    assert_eq!(found_description("nunc"), "Emphasis");
    assert_eq!(found_description("xyzzy"), "");
    assert_eq!(preposition_of("AD"), Some(Preposition::ToTarget));
    assert_eq!(preposition_of("Ex"), Some(Preposition::FromOrigin));
    assert!(word_known("ad"));
    assert!(!word_known("xyzzy"));
}

#[test]
fn tokenizer_splits_on_whitespace_runs() {
    assert_eq!(
        tokenize("  Ure\tignis \r\n magno "),
        vec!["Ure".to_string(), "ignis".to_string(), "magno".to_string()]
    );
    assert_eq!(tokenize(""), Vec::<String>::new());
    assert_eq!(tokenize(" \t"), Vec::<String>::new());
}

#[test]
fn error_messages() {
    assert_eq!(
        LatError::UnknownWord("Xyzzy".to_string()).message(),
        "Parse Error: Unknown word \"Xyzzy\"."
    );
    assert_eq!(
        LatError::MissingCoreComponent(CoreComponent::Element).message(),
        "Parse Error: Missing core spell component Element."
    );
    assert_eq!(
        LatError::UnexpectedComponent {
            expected: "Action".to_string(),
            found: "Element".to_string(),
        }
        .message(),
        "Parse Error: Unexpected component. Expected Action but found Element."
    );
    assert_eq!(
        LatError::IncompleteExtensionPhrase("ad".to_string()).message(),
        "Parse Error: Incomplete extension phrase starting with \"ad\"."
    );
    assert_eq!(
        LatError::UnexpectedEof.message(),
        "Parse Error: Unexpected end of input."
    );
}

#[test]
fn host_boundary_values() {
    assert!(!HostValue::new(false).resetting);
    assert!(HostValue::new(true).resetting);
    assert_eq!(Lat::parse("Reset".to_string()), Ok(HostValue::new(false)));
    assert_eq!(Lat::parse("".to_string()), Ok(HostValue::new(false)));
}
