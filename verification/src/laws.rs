//! Laws of the parser: properties that hold of every input, stated over the
//! pure model [`spec_parse`] and proved once and for all.

use vstd::prelude::*;

verus! {

use crate::dictionary::{
    lower, lower_char, spec_action_of, spec_element_of, spec_emphasis_of, spec_modifier_of,
    spec_origin_of, spec_preposition_of, spec_target_of,
};
use crate::parser::{spec_extensions, spec_parse};
use crate::tokenizer::{first_token_len, is_space_char, lemma_first_token_len_bounds, spec_tokens};
use crate::types::errors::LatErrorModel;
use crate::types::{Emphasis, Origin, Target};

/// A successful parse records the input verbatim, so re-parsing the
/// descriptor's `source_text` reproduces the identical result: parsing is
/// round-trip stable.
pub proof fn lemma_reparse_source_text(s: Seq<char>)
    requires
        spec_parse(s) is Ok,
    ensures
        spec_parse(s) matches Ok(v) && v.source_text == s,
        spec_parse(s) matches Ok(v) && spec_parse(v.source_text) == spec_parse(s),
{
}

/// A Quick Cast: an input whose tokens are exactly one Action word, one
/// Element word and one Modifier word, in that order, parses successfully
/// into those three variants with no target, no origin and no emphasis,
/// recording the input verbatim.
pub proof fn lemma_quick_cast(s: Seq<char>)
    requires
        spec_tokens(s).len() == 3,
        spec_action_of(spec_tokens(s)[0]) is Some,
        spec_element_of(spec_tokens(s)[1]) is Some,
        spec_modifier_of(spec_tokens(s)[2]) is Some,
    ensures
        spec_parse(s) matches Ok(v) && {
            &&& v.action == spec_action_of(spec_tokens(s)[0])->Some_0
            &&& v.element == spec_element_of(spec_tokens(s)[1])->Some_0
            &&& v.modifier == spec_modifier_of(spec_tokens(s)[2])->Some_0
            &&& v.target is None
            &&& v.origin is None
            &&& v.emphasis_phrases == Seq::<Emphasis>::empty()
            &&& v.source_text == s
        },
{
    assert(spec_tokens(s).skip(3) =~= Seq::<Seq<char>>::empty());
}

/// An emphasis word is never a preposition: the vocabularies of the two
/// categories are disjoint.
proof fn lemma_emphasis_not_preposition(w: Seq<char>)
    requires
        spec_emphasis_of(w) is Some,
    ensures
        spec_preposition_of(w) is None,
{
    reveal_strlit("nunc");
    reveal_strlit("cumvi");
    reveal_strlit("tandem");
    reveal_strlit("ad");
    reveal_strlit("ex");
    assert("nunc"@.len() == 4 && "cumvi"@.len() == 5 && "tandem"@.len() == 6);
    assert("ad"@.len() == 2 && "ex"@.len() == 2);
}

/// In the extension loop, a run of emphasis words is appended to the
/// emphasis list one by one: input order is preserved and duplicates are
/// kept, while the target and origin stay as they were.
proof fn lemma_extensions_all_emphasis(
    toks: Seq<Seq<char>>,
    target: Option<Target>,
    origin: Option<Origin>,
    emphasis: Seq<Emphasis>,
)
    requires
        forall|i: int| 0 <= i < toks.len() ==> spec_emphasis_of(#[trigger] toks[i]) is Some,
    ensures
        spec_extensions(toks, target, origin, emphasis) == Ok::<
            (Option<Target>, Option<Origin>, Seq<Emphasis>),
            LatErrorModel,
        >((target, origin, emphasis + toks.map_values(|w: Seq<char>| spec_emphasis_of(w)->Some_0))),
    decreases toks.len(),
{
    let variants = |w: Seq<char>| spec_emphasis_of(w)->Some_0;
    if toks.len() == 0 {
        assert(emphasis + toks.map_values(variants) =~= emphasis);
    } else {
        lemma_emphasis_not_preposition(toks[0]);
        let e = spec_emphasis_of(toks[0])->Some_0;
        assert(forall|i: int| 0 <= i < toks.skip(1).len() ==> spec_emphasis_of(
            #[trigger] toks.skip(1)[i],
        ) is Some);
        lemma_extensions_all_emphasis(toks.skip(1), target, origin, emphasis.push(e));
        assert(emphasis.push(e) + toks.skip(1).map_values(variants) =~= emphasis + toks.map_values(
            variants,
        ));
    }
}

/// A Full Cast whose extension words are all emphasis words: after a valid
/// Spell Core, the emphasis words are recorded in input order with repeats
/// kept, and neither a target nor an origin is set.
pub proof fn lemma_emphasis_order(s: Seq<char>)
    requires
        spec_tokens(s).len() >= 3,
        spec_action_of(spec_tokens(s)[0]) is Some,
        spec_element_of(spec_tokens(s)[1]) is Some,
        spec_modifier_of(spec_tokens(s)[2]) is Some,
        forall|i: int| 3 <= i < spec_tokens(s).len() ==> spec_emphasis_of(
            #[trigger] spec_tokens(s)[i],
        ) is Some,
    ensures
        spec_parse(s) matches Ok(v) && {
            &&& v.emphasis_phrases == spec_tokens(s).skip(3).map_values(
                |w: Seq<char>| spec_emphasis_of(w)->Some_0,
            )
            &&& v.target is None
            &&& v.origin is None
            &&& v.source_text == s
        },
{
    let rest = spec_tokens(s).skip(3);
    assert(forall|i: int| 0 <= i < rest.len() ==> spec_emphasis_of(#[trigger] rest[i]) is Some);
    lemma_extensions_all_emphasis(rest, None, None, Seq::empty());
    assert(Seq::<Emphasis>::empty() + rest.map_values(|w: Seq<char>| spec_emphasis_of(w)->Some_0)
        =~= rest.map_values(|w: Seq<char>| spec_emphasis_of(w)->Some_0));
}

/// Lower-casing never turns a whitespace character into a letter or a letter
/// into whitespace.
proof fn lemma_lower_space(c: char)
    ensures
        is_space_char(lower_char(c)) == is_space_char(c),
{
}

/// Two texts that agree up to case have maximal non-whitespace prefixes of
/// the same length.
proof fn lemma_first_token_len_lower(s1: Seq<char>, s2: Seq<char>)
    requires
        lower(s1) == lower(s2),
    ensures
        first_token_len(s1) == first_token_len(s2),
    decreases s1.len(),
{
    assert(lower(s1).len() == s1.len());
    assert(lower(s2).len() == s2.len());
    if s1.len() > 0 {
        assert(lower(s1)[0] == lower_char(s1[0]));
        assert(lower(s2)[0] == lower_char(s2[0]));
        lemma_lower_space(s1[0]);
        lemma_lower_space(s2[0]);
        if !is_space_char(s1[0]) {
            assert(lower(s1.drop_first()) =~= lower(s2.drop_first())) by {
                assert(forall|i: int| 0 <= i < s1.len() - 1 ==> #[trigger] lower(s1.drop_first())[i]
                    == lower(s1)[i + 1] && lower(s2.drop_first())[i] == lower(s2)[i + 1]);
            }
            lemma_first_token_len_lower(s1.drop_first(), s2.drop_first());
        }
    }
}

/// Two texts that agree up to case split into the same number of tokens, and
/// the tokens agree pairwise up to case.
proof fn lemma_tokens_lower(s1: Seq<char>, s2: Seq<char>)
    requires
        lower(s1) == lower(s2),
    ensures
        spec_tokens(s1).len() == spec_tokens(s2).len(),
        forall|i: int| 0 <= i < spec_tokens(s1).len() ==> lower(#[trigger] spec_tokens(s1)[i])
            == lower(spec_tokens(s2)[i]),
    decreases s1.len(),
{
    assert(lower(s1).len() == s1.len());
    assert(lower(s2).len() == s2.len());
    if s1.len() == 0 {
    } else {
        assert(lower(s1)[0] == lower_char(s1[0]));
        assert(lower(s2)[0] == lower_char(s2[0]));
        lemma_lower_space(s1[0]);
        lemma_lower_space(s2[0]);
        if is_space_char(s1[0]) {
            assert(lower(s1.drop_first()) =~= lower(s2.drop_first())) by {
                assert(forall|i: int| 0 <= i < s1.len() - 1 ==> #[trigger] lower(s1.drop_first())[i]
                    == lower(s1)[i + 1] && lower(s2.drop_first())[i] == lower(s2)[i + 1]);
            }
            lemma_tokens_lower(s1.drop_first(), s2.drop_first());
        } else {
            lemma_first_token_len_lower(s1, s2);
            let k = first_token_len(s1);
            lemma_first_token_len_bounds(s1);
            lemma_first_token_len_bounds(s1.drop_first());
            assert(1 <= k <= s1.len());
            assert(lower(s1.take(k)) =~= lower(s2.take(k))) by {
                assert(forall|i: int| 0 <= i < k ==> #[trigger] lower(s1.take(k))[i] == lower(
                    s1,
                )[i] && lower(s2.take(k))[i] == lower(s2)[i]);
            }
            assert(lower(s1.skip(k)) =~= lower(s2.skip(k))) by {
                assert(forall|i: int| 0 <= i < s1.len() - k ==> #[trigger] lower(s1.skip(k))[i]
                    == lower(s1)[i + k] && lower(s2.skip(k))[i] == lower(s2)[i + k]);
            }
            lemma_tokens_lower(s1.skip(k), s2.skip(k));
            assert(spec_tokens(s1) == seq![s1.take(k)] + spec_tokens(s1.skip(k)));
            assert(spec_tokens(s2) == seq![s2.take(k)] + spec_tokens(s2.skip(k)));
            assert(forall|i: int| 0 <= i < spec_tokens(s1).len() ==> lower(
                #[trigger] spec_tokens(s1)[i],
            ) == lower(spec_tokens(s2)[i])) by {
                assert(spec_tokens(s1)[0] == s1.take(k) && spec_tokens(s2)[0] == s2.take(k));
                assert(forall|i: int| 1 <= i < spec_tokens(s1).len() ==> #[trigger] spec_tokens(
                    s1,
                )[i] == spec_tokens(s1.skip(k))[i - 1] && spec_tokens(s2)[i] == spec_tokens(
                    s2.skip(k),
                )[i - 1]);
            }
        }
    }
}

/// The extension loop resolves every word through the dictionary's
/// lower-cased keys, so two token lists that agree up to case succeed or
/// fail together and succeed with the same target, origin and emphasis.
proof fn lemma_extensions_lower(
    toks1: Seq<Seq<char>>,
    toks2: Seq<Seq<char>>,
    target: Option<Target>,
    origin: Option<Origin>,
    emphasis: Seq<Emphasis>,
)
    requires
        toks1.len() == toks2.len(),
        forall|i: int| 0 <= i < toks1.len() ==> lower(#[trigger] toks1[i]) == lower(toks2[i]),
    ensures
        (spec_extensions(toks1, target, origin, emphasis) is Ok) == (spec_extensions(
            toks2,
            target,
            origin,
            emphasis,
        ) is Ok),
        spec_extensions(toks1, target, origin, emphasis) matches Ok(v) ==> spec_extensions(
            toks2,
            target,
            origin,
            emphasis,
        ) == Ok::<(Option<Target>, Option<Origin>, Seq<Emphasis>), LatErrorModel>(v),
    decreases toks1.len(),
{
    if toks1.len() > 0 {
        assert(lower(toks1[0]) == lower(toks2[0]));
        assert(spec_preposition_of(toks1[0]) == spec_preposition_of(toks2[0]));
        assert(spec_emphasis_of(toks1[0]) == spec_emphasis_of(toks2[0]));
        if toks1.len() > 1 {
            assert(lower(toks1[1]) == lower(toks2[1]));
            assert(spec_target_of(toks1[1]) == spec_target_of(toks2[1]));
            assert(spec_origin_of(toks1[1]) == spec_origin_of(toks2[1]));
            assert(forall|i: int| 0 <= i < toks1.len() - 2 ==> lower(#[trigger] toks1.skip(2)[i])
                == lower(toks2.skip(2)[i]));
            lemma_extensions_lower(toks1.skip(2), toks2.skip(2), Some(spec_target_of(toks1[1])->Some_0), origin, emphasis);
            lemma_extensions_lower(toks1.skip(2), toks2.skip(2), target, Some(spec_origin_of(toks1[1])->Some_0), emphasis);
        }
        assert(forall|i: int| 0 <= i < toks1.len() - 1 ==> lower(#[trigger] toks1.skip(1)[i])
            == lower(toks2.skip(1)[i]));
        lemma_extensions_lower(
            toks1.skip(1),
            toks2.skip(1),
            target,
            origin,
            emphasis.push(spec_emphasis_of(toks1[0])->Some_0),
        );
    }
}

/// Case-insensitivity: two inputs that agree up to ASCII case succeed or
/// fail together, and on success their descriptors agree on every field but
/// `source_text`, which records each input verbatim.
pub proof fn lemma_case_insensitive(s1: Seq<char>, s2: Seq<char>)
    requires
        lower(s1) == lower(s2),
    ensures
        (spec_parse(s1) is Ok) == (spec_parse(s2) is Ok),
        spec_parse(s1) matches Ok(v1) ==> spec_parse(s2) matches Ok(v2) && {
            &&& v1.action == v2.action
            &&& v1.element == v2.element
            &&& v1.modifier == v2.modifier
            &&& v1.target == v2.target
            &&& v1.origin == v2.origin
            &&& v1.emphasis_phrases == v2.emphasis_phrases
            &&& v1.source_text == s1
            &&& v2.source_text == s2
        },
{
    lemma_tokens_lower(s1, s2);
    let t1 = spec_tokens(s1);
    let t2 = spec_tokens(s2);
    if t1.len() >= 1 {
        assert(lower(t1[0]) == lower(t2[0]));
        assert(spec_action_of(t1[0]) == spec_action_of(t2[0]));
    }
    if t1.len() >= 2 {
        assert(lower(t1[1]) == lower(t2[1]));
        assert(spec_element_of(t1[1]) == spec_element_of(t2[1]));
    }
    if t1.len() >= 3 {
        assert(lower(t1[2]) == lower(t2[2]));
        assert(spec_modifier_of(t1[2]) == spec_modifier_of(t2[2]));
        assert(forall|i: int| 0 <= i < t1.len() - 3 ==> lower(#[trigger] t1.skip(3)[i]) == lower(
            t2.skip(3)[i],
        ));
        lemma_extensions_lower(t1.skip(3), t2.skip(3), None, None, Seq::empty());
    }
}

} // verus!
