//! The tokenizer: splits the input on runs of whitespace into an ordered
//! sequence of non-empty tokens. No quoting, no escaping, no punctuation
//! stripping; an empty or all-whitespace input yields zero tokens.

use vstd::prelude::*;

verus! {

use vstd::string::{StrSliceExecFns, StringExecFns};

/// The characters a token break is made of.
pub open spec fn is_space_char(c: char) -> bool {
    c == ' ' || c == '\t' || c == '\n' || c == '\r'
}

/// Length of the maximal non-whitespace prefix of `s`.
pub open spec fn first_token_len(s: Seq<char>) -> int
    decreases s.len(),
{
    if s.len() == 0 || is_space_char(s[0]) {
        0
    } else {
        1 + first_token_len(s.drop_first())
    }
}

/// The maximal non-whitespace prefix is never longer than the text.
pub proof fn lemma_first_token_len_bounds(s: Seq<char>)
    ensures
        0 <= first_token_len(s) <= s.len(),
    decreases s.len(),
{
    if s.len() == 0 || is_space_char(s[0]) {
    } else {
        lemma_first_token_len_bounds(s.drop_first());
    }
}

/// The tokens of `s`: the whitespace-separated maximal non-whitespace runs,
/// in order.
pub open spec fn spec_tokens(s: Seq<char>) -> Seq<Seq<char>>
    decreases s.len(),
{
    if s.len() == 0 {
        Seq::empty()
    } else if is_space_char(s[0]) {
        spec_tokens(s.drop_first())
    } else {
        let k = first_token_len(s);
        proof {
            lemma_first_token_len_bounds(s);
            lemma_first_token_len_bounds(s.drop_first());
            assert(1 <= k <= s.len());
        }
        seq![s.take(k)] + spec_tokens(s.skip(k))
    }
}

/// Skipping one whitespace character does not change the token list.
proof fn lemma_tokens_space_step(s: Seq<char>, i: int)
    requires
        0 <= i < s.len(),
        is_space_char(s[i]),
    ensures
        spec_tokens(s.skip(i)) == spec_tokens(s.skip(i + 1)),
{
    assert(s.skip(i).drop_first() =~= s.skip(i + 1));
}

/// `first_token_len` is pinned down by its defining properties: every
/// character before `m` is non-whitespace and the run stops at `m`.
proof fn lemma_first_token_len_eq(t: Seq<char>, m: int)
    requires
        0 <= m <= t.len(),
        forall|x: int| 0 <= x < m ==> !is_space_char(t[x]),
        m == t.len() || is_space_char(t[m]),
    ensures
        first_token_len(t) == m,
    decreases m,
{
    if m == 0 {
    } else {
        assert(!is_space_char(t[0]));
        assert(forall|x: int| 0 <= x < m - 1 ==> t.drop_first()[x] == t[x + 1]);
        lemma_first_token_len_eq(t.drop_first(), m - 1);
    }
}

/// Consuming one maximal non-whitespace run `[i, j)` peels exactly one token
/// off the token list.
proof fn lemma_tokens_token_step(s: Seq<char>, i: int, j: int)
    requires
        0 <= i < j <= s.len(),
        forall|x: int| i <= x < j ==> !is_space_char(s[x]),
        j == s.len() || is_space_char(s[j]),
    ensures
        spec_tokens(s.skip(i)) == seq![s.subrange(i, j)] + spec_tokens(s.skip(j)),
{
    let t = s.skip(i);
    assert(forall|x: int| 0 <= x < j - i ==> t[x] == s[x + i]);
    lemma_first_token_len_eq(t, j - i);
    assert(!is_space_char(t[0]));
    assert(t.take(j - i) =~= s.subrange(i, j));
    assert(t.skip(j - i) =~= s.skip(j));
}

/// Splits `input` into its whitespace-separated tokens.
pub fn tokenize(input: &str) -> (r: Vec<String>)
    ensures
        r@.map_values(|t: String| t@) == spec_tokens(input@),
{
    let n = input.unicode_len();
    let mut toks: Vec<String> = Vec::new();
    let mut i: usize = 0;
    proof {
        assert(input@.skip(0) =~= input@);
        assert(toks@.map_values(|t: String| t@) + spec_tokens(input@) =~= spec_tokens(input@));
    }
    while i < n
        invariant
            0 <= i <= n,
            n == input@.len(),
            toks@.map_values(|t: String| t@) + spec_tokens(input@.skip(i as int)) == spec_tokens(
                input@,
            ),
        decreases n - i,
    {
        let c = input.get_char(i);
        if c == ' ' || c == '\t' || c == '\n' || c == '\r' {
            proof {
                lemma_tokens_space_step(input@, i as int);
            }
            i = i + 1;
        } else {
            let start = i;
            i = i + 1;
            loop
                invariant
                    0 <= start < i <= n,
                    n == input@.len(),
                    forall|x: int| start <= x < i ==> !is_space_char(input@[x]),
                ensures
                    0 <= start < i <= n,
                    forall|x: int| start <= x < i ==> !is_space_char(input@[x]),
                    i == n || is_space_char(input@[i as int]),
                decreases n - i,
            {
                if i == n {
                    break ;
                }
                let c2 = input.get_char(i);
                if c2 == ' ' || c2 == '\t' || c2 == '\n' || c2 == '\r' {
                    break ;
                }
                i = i + 1;
            }
            let tok = input.substring_char(start, i);
            proof {
                lemma_tokens_token_step(input@, start as int, i as int);
            }
            let tok_string = String::from_str(tok);
            let ghost old_toks = toks@;
            toks.push(tok_string);
            proof {
                assert(toks@.map_values(|t: String| t@) =~= old_toks.map_values(|t: String| t@)
                    + seq![input@.subrange(start as int, i as int)]);
                assert(old_toks.map_values(|t: String| t@) + (seq![
                    input@.subrange(start as int, i as int),
                ] + spec_tokens(input@.skip(i as int))) =~= (old_toks.map_values(|t: String| t@)
                    + seq![input@.subrange(start as int, i as int)]) + spec_tokens(
                    input@.skip(i as int),
                ));
            }
        }
    }
    proof {
        assert(input@.skip(i as int) =~= Seq::<char>::empty());
        assert(toks@.map_values(|t: String| t@) + spec_tokens(input@.skip(i as int)) =~= toks@.map_values(
            |t: String| t@,
        ));
    }
    toks
}

} // verus!
