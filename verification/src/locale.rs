//! Locale-tag normalization: the pure string logic behind reading the
//! locale.
//!
//! The embedder reads the usual environment variables and hands the raw
//! value here as bytes; the core cuts everything from the first codeset
//! or modifier suffix, turns the underscore separator into a hyphen, and
//! falls back to a neutral tag when nothing is left.  The marks are
//! ASCII, so the cut always lands on a character boundary and valid
//! UTF-8 stays valid.

use vstd::prelude::*;

verus! {

/// The byte that starts a codeset suffix: '.'.
pub const LOCALE_CODESET_MARK: u8 = 46;

/// The byte that starts a modifier suffix: '@'.
pub const LOCALE_MODIFIER_MARK: u8 = 64;

/// The separator some platforms report: '_'.
pub const LOCALE_UNDERSCORE: u8 = 95;

/// The separator a language tag uses: '-'.
pub const LOCALE_HYPHEN: u8 = 45;

/// The fallback tag, "en-US", as bytes.
pub open spec fn spec_default_locale() -> Seq<u8> {
    seq![101u8, 110u8, 45u8, 85u8, 83u8]
}

/// One byte of the tag: the underscore separator becomes a hyphen.
pub open spec fn spec_locale_map_byte(c: u8) -> u8 {
    if c == LOCALE_UNDERSCORE {
        LOCALE_HYPHEN
    } else {
        c
    }
}

/// The tag before any codeset or modifier suffix, separator mapped.
pub open spec fn spec_locale_tag(s: Seq<u8>) -> Seq<u8>
    decreases s.len(),
{
    if s.len() == 0 {
        Seq::empty()
    } else if s.first() == LOCALE_CODESET_MARK || s.first() == LOCALE_MODIFIER_MARK {
        Seq::empty()
    } else {
        seq![spec_locale_map_byte(s.first())] + spec_locale_tag(s.drop_first())
    }
}

/// The normalized locale: the tag, or the fallback when the tag is empty.
pub open spec fn spec_normalize_locale(s: Seq<u8>) -> Seq<u8> {
    if spec_locale_tag(s).len() == 0 {
        spec_default_locale()
    } else {
        spec_locale_tag(s)
    }
}

/// When the first suffix mark, if any, stands at `i`, the tag is the
/// mapped prefix of length `i`.
proof fn lemma_locale_tag_prefix(s: Seq<u8>, i: int)
    requires
        0 <= i <= s.len(),
        forall|j: int|
            0 <= j < i ==> (#[trigger] s[j]) != LOCALE_CODESET_MARK && s[j]
                != LOCALE_MODIFIER_MARK,
        i < s.len() ==> (s[i] == LOCALE_CODESET_MARK || s[i] == LOCALE_MODIFIER_MARK),
    ensures
        spec_locale_tag(s) == Seq::new(i as nat, |j: int| spec_locale_map_byte(s[j])),
    decreases s.len(),
{
    if i == 0 {
        assert(spec_locale_tag(s) =~= Seq::new(0, |j: int| spec_locale_map_byte(s[j])));
    } else {
        assert(s[0] != LOCALE_CODESET_MARK && s[0] != LOCALE_MODIFIER_MARK);
        let rest = s.drop_first();
        assert forall|j: int|
            0 <= j < i - 1 implies (#[trigger] rest[j]) != LOCALE_CODESET_MARK && rest[j]
            != LOCALE_MODIFIER_MARK by {
            assert(rest[j] == s[j + 1]);
        }
        lemma_locale_tag_prefix(rest, i - 1);
        assert(spec_locale_tag(s) =~= Seq::new(i as nat, |j: int| spec_locale_map_byte(s[j])));
    }
}

/// Normalize a raw locale value: cut everything from the first codeset
/// or modifier mark, map the underscore separator to a hyphen, and fall
/// back to the neutral tag when nothing remains.
pub fn normalize_locale(raw: &Vec<u8>) -> (r: Vec<u8>)
    ensures
        r@ == spec_normalize_locale(raw@),
{
    let mut out: Vec<u8> = Vec::new();
    let mut i: usize = 0;
    while i < raw.len() && raw[i] != LOCALE_CODESET_MARK && raw[i] != LOCALE_MODIFIER_MARK
        invariant
            i <= raw@.len(),
            out@.len() == i,
            forall|j: int|
                0 <= j < i ==> (#[trigger] raw@[j]) != LOCALE_CODESET_MARK && raw@[j]
                    != LOCALE_MODIFIER_MARK,
            forall|j: int| 0 <= j < i ==> (#[trigger] out@[j]) == spec_locale_map_byte(raw@[j]),
        decreases raw@.len() - i,
    {
        let c = raw[i];
        if c == LOCALE_UNDERSCORE {
            out.push(LOCALE_HYPHEN);
        } else {
            out.push(c);
        }
        i = i + 1;
    }
    proof {
        lemma_locale_tag_prefix(raw@, i as int);
        assert(out@ =~= Seq::new(i as nat, |j: int| spec_locale_map_byte(raw@[j])));
    }
    if out.len() == 0 {
        let mut d: Vec<u8> = Vec::new();
        d.push(101);
        d.push(110);
        d.push(45);
        d.push(85);
        d.push(83);
        proof {
            assert(d@ =~= spec_default_locale());
        }
        d
    } else {
        out
    }
}

} // verus!
