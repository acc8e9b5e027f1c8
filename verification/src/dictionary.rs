//! The dictionary: a fixed, case-insensitive mapping from surface word forms
//! to grammatical categories and variants.
//!
//! Every lookup lower-cases the word first; the keys below are the canonical
//! lower-case forms. A word may belong to more than one category ("terra" is
//! both an Element and an Origin); the grammar engine always resolves a word
//! against the category set its current state permits, so such a word is
//! disambiguated purely by position. The full category set of a word is used
//! only as diagnostic data, never as the basis for acceptance.

use vstd::prelude::*;

verus! {

use vstd::string::{StrSliceExecFns, StringExecFns};
use crate::types::{Action, Element, Emphasis, Modifier, Origin, Preposition, Target};

/// ASCII upper-case letters map to their lower-case form; every other
/// character is left as it is.
pub open spec fn lower_char(c: char) -> char {
    if 'A' <= c && c <= 'Z' {
        ((c as u8) + 32) as char
    } else {
        c
    }
}

/// A word normalized to the dictionary's canonical lower case.
pub open spec fn lower(s: Seq<char>) -> Seq<char> {
    s.map_values(|c: char| lower_char(c))
}

/// Executable counterpart of [`lower_char`].
fn lower_char_x(c: char) -> (r: char)
    ensures
        r == lower_char(c),
{
    if 'A' <= c && c <= 'Z' {
        ((c as u8) + 32) as char
    } else {
        c
    }
}

/// True exactly when `w` lower-cases to `key`; this is how a word is held
/// against one canonical dictionary key.
fn matches_key(w: &str, key: &str) -> (r: bool)
    ensures
        r == (lower(w@) == key@),
{
    let wn = w.unicode_len();
    let kn = key.unicode_len();
    if wn != kn {
        proof {
            assert(lower(w@).len() == w@.len());
        }
        return false;
    }
    let mut i: usize = 0;
    while i < wn
        invariant
            0 <= i <= wn,
            wn == w@.len(),
            wn == key@.len(),
            forall|j: int| 0 <= j < i ==> lower_char(w@[j]) == key@[j],
        decreases wn - i,
    {
        let cw = lower_char_x(w.get_char(i));
        let ck = key.get_char(i);
        if cw != ck {
            proof {
                assert(lower(w@)[i as int] == lower_char(w@[i as int]));
            }
            return false;
        }
        i += 1;
    }
    proof {
        assert(lower(w@) =~= key@);
    }
    true
}

/// The Action words.
pub open spec fn spec_action_of(w: Seq<char>) -> Option<Action> {
    let l = lower(w);
    if l == "ure"@ {
        Some(Action::Ure)
    } else if l == "sana"@ {
        Some(Action::Sana)
    } else if l == "defende"@ {
        Some(Action::Defende)
    } else if l == "feri"@ {
        Some(Action::Feri)
    } else {
        None
    }
}

/// Resolves a word constrained to the Action category.
pub fn action_of(word: &str) -> (r: Option<Action>)
    ensures
        r == spec_action_of(word@),
{
    if matches_key(word, "ure") {
        Some(Action::Ure)
    } else if matches_key(word, "sana") {
        Some(Action::Sana)
    } else if matches_key(word, "defende") {
        Some(Action::Defende)
    } else if matches_key(word, "feri") {
        Some(Action::Feri)
    } else {
        None
    }
}

/// The Element words.
pub open spec fn spec_element_of(w: Seq<char>) -> Option<Element> {
    let l = lower(w);
    if l == "ignis"@ {
        Some(Element::Ignis)
    } else if l == "aqua"@ {
        Some(Element::Aqua)
    } else if l == "ventus"@ {
        Some(Element::Ventus)
    } else if l == "terra"@ {
        Some(Element::Terra)
    } else if l == "lumen"@ {
        Some(Element::Lumen)
    } else if l == "umbra"@ {
        Some(Element::Umbra)
    } else {
        None
    }
}

/// Resolves a word constrained to the Element category.
pub fn element_of(word: &str) -> (r: Option<Element>)
    ensures
        r == spec_element_of(word@),
{
    if matches_key(word, "ignis") {
        Some(Element::Ignis)
    } else if matches_key(word, "aqua") {
        Some(Element::Aqua)
    } else if matches_key(word, "ventus") {
        Some(Element::Ventus)
    } else if matches_key(word, "terra") {
        Some(Element::Terra)
    } else if matches_key(word, "lumen") {
        Some(Element::Lumen)
    } else if matches_key(word, "umbra") {
        Some(Element::Umbra)
    } else {
        None
    }
}

/// The Modifier words; "magno" is an accepted inflected surface form of
/// "magnus".
pub open spec fn spec_modifier_of(w: Seq<char>) -> Option<Modifier> {
    let l = lower(w);
    if l == "magnus"@ || l == "magno"@ {
        Some(Modifier::Magnus)
    } else if l == "parvus"@ {
        Some(Modifier::Parvus)
    } else if l == "celer"@ {
        Some(Modifier::Celer)
    } else if l == "fortis"@ {
        Some(Modifier::Fortis)
    } else {
        None
    }
}

/// Resolves a word constrained to the Modifier category.
pub fn modifier_of(word: &str) -> (r: Option<Modifier>)
    ensures
        r == spec_modifier_of(word@),
{
    if matches_key(word, "magnus") || matches_key(word, "magno") {
        Some(Modifier::Magnus)
    } else if matches_key(word, "parvus") {
        Some(Modifier::Parvus)
    } else if matches_key(word, "celer") {
        Some(Modifier::Celer)
    } else if matches_key(word, "fortis") {
        Some(Modifier::Fortis)
    } else {
        None
    }
}

/// The Target words; "hostem" is an accepted inflected surface form of
/// "hostis".
pub open spec fn spec_target_of(w: Seq<char>) -> Option<Target> {
    let l = lower(w);
    if l == "hostis"@ || l == "hostem"@ {
        Some(Target::Hostis)
    } else if l == "amicus"@ {
        Some(Target::Amicus)
    } else if l == "me"@ {
        Some(Target::Me)
    } else if l == "area"@ {
        Some(Target::Area)
    } else {
        None
    }
}

/// Resolves a word constrained to the Target category.
pub fn target_of(word: &str) -> (r: Option<Target>)
    ensures
        r == spec_target_of(word@),
{
    if matches_key(word, "hostis") || matches_key(word, "hostem") {
        Some(Target::Hostis)
    } else if matches_key(word, "amicus") {
        Some(Target::Amicus)
    } else if matches_key(word, "me") {
        Some(Target::Me)
    } else if matches_key(word, "area") {
        Some(Target::Area)
    } else {
        None
    }
}

/// The Origin words; "caelo" is an accepted inflected surface form of
/// "caelum", and "terra" is shared with the Element category.
pub open spec fn spec_origin_of(w: Seq<char>) -> Option<Origin> {
    let l = lower(w);
    if l == "caelum"@ || l == "caelo"@ {
        Some(Origin::Caelum)
    } else if l == "terra"@ {
        Some(Origin::Terra)
    } else {
        None
    }
}

/// Resolves a word constrained to the Origin category.
pub fn origin_of(word: &str) -> (r: Option<Origin>)
    ensures
        r == spec_origin_of(word@),
{
    if matches_key(word, "caelum") || matches_key(word, "caelo") {
        Some(Origin::Caelum)
    } else if matches_key(word, "terra") {
        Some(Origin::Terra)
    } else {
        None
    }
}

/// The Emphasis words.
pub open spec fn spec_emphasis_of(w: Seq<char>) -> Option<Emphasis> {
    let l = lower(w);
    if l == "nunc"@ {
        Some(Emphasis::Nunc)
    } else if l == "cumvi"@ {
        Some(Emphasis::CumVi)
    } else if l == "tandem"@ {
        Some(Emphasis::Tandem)
    } else {
        None
    }
}

/// Resolves a word constrained to the Emphasis category.
pub fn emphasis_of(word: &str) -> (r: Option<Emphasis>)
    ensures
        r == spec_emphasis_of(word@),
{
    if matches_key(word, "nunc") {
        Some(Emphasis::Nunc)
    } else if matches_key(word, "cumvi") {
        Some(Emphasis::CumVi)
    } else if matches_key(word, "tandem") {
        Some(Emphasis::Tandem)
    } else {
        None
    }
}

/// The two phrase-introducing prepositions.
pub open spec fn spec_preposition_of(w: Seq<char>) -> Option<Preposition> {
    let l = lower(w);
    if l == "ad"@ {
        Some(Preposition::ToTarget)
    } else if l == "ex"@ {
        Some(Preposition::FromOrigin)
    } else {
        None
    }
}

/// Resolves a word constrained to the Preposition category.
pub fn preposition_of(word: &str) -> (r: Option<Preposition>)
    ensures
        r == spec_preposition_of(word@),
{
    if matches_key(word, "ad") {
        Some(Preposition::ToTarget)
    } else if matches_key(word, "ex") {
        Some(Preposition::FromOrigin)
    } else {
        None
    }
}

/// True when the word is in the vocabulary under some category.
pub open spec fn spec_word_known(w: Seq<char>) -> bool {
    ||| spec_action_of(w) is Some
    ||| spec_element_of(w) is Some
    ||| spec_modifier_of(w) is Some
    ||| spec_target_of(w) is Some
    ||| spec_origin_of(w) is Some
    ||| spec_emphasis_of(w) is Some
    ||| spec_preposition_of(w) is Some
}

/// Reports whether the word is in the vocabulary at all.
pub fn word_known(word: &str) -> (r: bool)
    ensures
        r == spec_word_known(word@),
{
    action_of(word).is_some() || element_of(word).is_some() || modifier_of(word).is_some()
        || target_of(word).is_some() || origin_of(word).is_some() || emphasis_of(word).is_some()
        || preposition_of(word).is_some()
}

/// One step of the category-set description: appends a category name,
/// slash-separated, when the word is a member of that category.
pub open spec fn describe_step(acc: Seq<char>, name: Seq<char>, member: bool) -> Seq<char> {
    if member {
        if acc.len() == 0 {
            name
        } else {
            acc + "/"@ + name
        }
    } else {
        acc
    }
}

/// The names of the categories a word belongs to, slash-separated, in the
/// fixed order Action, Element, Modifier, Target, Origin, Emphasis,
/// Preposition; empty for a word outside the vocabulary. This is the
/// "found" half of an `UnexpectedComponent` diagnostic.
pub open spec fn spec_found_description(w: Seq<char>) -> Seq<char> {
    let d = Seq::<char>::empty();
    let d = describe_step(d, "Action"@, spec_action_of(w) is Some);
    let d = describe_step(d, "Element"@, spec_element_of(w) is Some);
    let d = describe_step(d, "Modifier"@, spec_modifier_of(w) is Some);
    let d = describe_step(d, "Target"@, spec_target_of(w) is Some);
    let d = describe_step(d, "Origin"@, spec_origin_of(w) is Some);
    let d = describe_step(d, "Emphasis"@, spec_emphasis_of(w) is Some);
    describe_step(d, "Preposition"@, spec_preposition_of(w) is Some)
}

/// Appends one category name to a description under construction.
fn push_name(d: &mut String, name: &str)
    ensures
        final(d)@ == describe_step(old(d)@, name@, true),
{
    if !d.as_str().is_empty() {
        d.append("/");
        d.append(name);
    } else {
        d.append(name);
        proof {
            assert(old(d)@ + name@ =~= name@);
        }
    }
}

/// Builds the description of the categories `word` belongs to; see
/// [`spec_found_description`].
pub fn found_description(word: &str) -> (r: String)
    ensures
        r@ == spec_found_description(word@),
{
    let mut d = String::new();
    if action_of(word).is_some() {
        push_name(&mut d, "Action");
    }
    if element_of(word).is_some() {
        push_name(&mut d, "Element");
    }
    if modifier_of(word).is_some() {
        push_name(&mut d, "Modifier");
    }
    if target_of(word).is_some() {
        push_name(&mut d, "Target");
    }
    if origin_of(word).is_some() {
        push_name(&mut d, "Origin");
    }
    if emphasis_of(word).is_some() {
        push_name(&mut d, "Emphasis");
    }
    if preposition_of(word).is_some() {
        push_name(&mut d, "Preposition");
    }
    d
}

} // verus!
