//! Value types of the spell language: the grammatical categories a word may
//! belong to and the descriptor a successful parse produces.

pub mod errors;

use vstd::prelude::*;

verus! {

/// The core action (verb) of the spell, mandatory first word of the Spell Core.
#[derive(Debug, PartialEq, Eq, Structural, Clone, Copy)]
pub enum Action {
    /// Burn
    Ure,
    /// Heal
    Sana,
    /// Defend
    Defende,
    /// Strike
    Feri,
}

/// The core element or medium (noun) of the spell, mandatory second word of
/// the Spell Core.
#[derive(Debug, PartialEq, Eq, Structural, Clone, Copy)]
pub enum Element {
    /// Fire
    Ignis,
    /// Water
    Aqua,
    /// Wind
    Ventus,
    /// Earth
    Terra,
    /// Light
    Lumen,
    /// Shadow
    Umbra,
}

/// The core modifier (adjective) describing the scale or form of the spell,
/// mandatory third word of the Spell Core.
#[derive(Debug, PartialEq, Eq, Structural, Clone, Copy)]
pub enum Modifier {
    /// Large / Great
    Magnus,
    /// Small
    Parvus,
    /// Fast / Quick
    Celer,
    /// Strong
    Fortis,
}

/// An optional target for the spell, introduced by the to-target preposition
/// (e.g., "ad Hostem").
#[derive(Debug, PartialEq, Eq, Structural, Clone, Copy)]
pub enum Target {
    /// Enemy
    Hostis,
    /// Ally / Friend
    Amicus,
    /// Self
    Me,
    /// Area
    Area,
}

/// An optional origin point for the spell, introduced by the from-origin
/// preposition (e.g., "ex Caelo").
#[derive(Debug, PartialEq, Eq, Structural, Clone, Copy)]
pub enum Origin {
    /// From the sky
    Caelum,
    /// From the earth
    Terra,
}

/// An optional emphasis word; zero or more may follow the Spell Core, in any
/// order and with repeats. The parser records them; the caller evaluates
/// their effect (e.g., increasing power).
#[derive(Debug, PartialEq, Eq, Structural, Clone, Copy)]
pub enum Emphasis {
    /// Now
    Nunc,
    /// With force
    CumVi,
    /// At last / Finally
    Tandem,
}

/// A phrase-introducing preposition. These two words open an extension
/// phrase and are never valid as Action/Element/Modifier/Emphasis.
#[derive(Debug, PartialEq, Eq, Structural, Clone, Copy)]
pub enum Preposition {
    /// Introduces a target clause ("ad ...").
    ToTarget,
    /// Introduces an origin clause ("ex ...").
    FromOrigin,
}

/// The parse result of an entire spell string: the mandatory Spell Core plus
/// the optional extensions, together with the verbatim input text.
#[derive(Debug, PartialEq, Eq, Clone)]
pub struct LatValue {
    /// The core action (verb) of the spell.
    pub action: Action,
    /// The core element or medium (noun) of the spell.
    pub element: Element,
    /// The core modifier (adjective) of the spell.
    pub modifier: Modifier,
    /// The optional target of the spell (e.g., "ad Hostem").
    pub target: Option<Target>,
    /// The optional origin of the spell (e.g., "ex Caelo").
    pub origin: Option<Origin>,
    /// The emphasis words, in input order, repeats kept.
    pub emphasis_phrases: Vec<Emphasis>,
    /// The original, unmodified source text of the parsed spell.
    pub source_text: String,
}

/// The mathematical value of a [`LatValue`]: the same fields with the
/// executable containers replaced by their views.
pub struct LatValueModel {
    pub action: Action,
    pub element: Element,
    pub modifier: Modifier,
    pub target: Option<Target>,
    pub origin: Option<Origin>,
    pub emphasis_phrases: Seq<Emphasis>,
    pub source_text: Seq<char>,
}

impl View for LatValue {
    type V = LatValueModel;

    open spec fn view(&self) -> LatValueModel {
        LatValueModel {
            action: self.action,
            element: self.element,
            modifier: self.modifier,
            target: self.target,
            origin: self.origin,
            emphasis_phrases: self.emphasis_phrases@,
            source_text: self.source_text@,
        }
    }
}

} // verus!
