//! White space around configured text.

use vstd::prelude::*;

verus! {

/// The characters with the Unicode property `White_Space`.
pub open spec fn is_white_space(c: char) -> bool {
    let code = c as int;
    ||| 0x9 <= code <= 0xd
    ||| code == 0x20
    ||| code == 0x85
    ||| code == 0xa0
    ||| code == 0x1680
    ||| 0x2000 <= code <= 0x200a
    ||| code == 0x2028
    ||| code == 0x2029
    ||| code == 0x202f
    ||| code == 0x205f
    ||| code == 0x3000
}

/// `text` without the white space at its start.
pub open spec fn trimmed_start(text: Seq<char>) -> Seq<char>
    decreases text.len(),
{
    if text.len() > 0 && is_white_space(text[0]) {
        trimmed_start(text.drop_first())
    } else {
        text
    }
}

/// `text` without the white space at its end.
pub open spec fn trimmed_end(text: Seq<char>) -> Seq<char>
    decreases text.len(),
{
    if text.len() > 0 && is_white_space(text.last()) {
        trimmed_end(text.drop_last())
    } else {
        text
    }
}

/// `text` without the white space around it.
pub open spec fn trimmed(text: Seq<char>) -> Seq<char> {
    trimmed_end(trimmed_start(text))
}

/// `str::trim`: the text without leading and trailing white space, as the
/// Unicode property `White_Space` defines it.
#[verifier::external_body]
pub(crate) fn trim(text: &str) -> (rest: &str)
    ensures
        rest@ == trimmed(text@),
{
    text.trim()
}

proof fn lemma_trimmed_start(text: Seq<char>) -> (from: int)
    ensures
        0 <= from <= text.len(),
        trimmed_start(text) == text.subrange(from, text.len() as int),
        forall|k: int| 0 <= k < from ==> is_white_space(#[trigger] text[k]),
        from < text.len() ==> !is_white_space(text[from]),
    decreases text.len(),
{
    if text.len() > 0 && is_white_space(text[0]) {
        let rest = text.drop_first();
        let from: int = lemma_trimmed_start(rest) + 1;
        assert(trimmed_start(text) =~= text.subrange(from, text.len() as int));
        assert forall|k: int| 0 <= k < from implies is_white_space(#[trigger] text[k]) by {
            if k > 0 {
                assert(rest[k - 1] == text[k]);
            }
        }
        from
    } else {
        assert(text =~= text.subrange(0, text.len() as int));
        0
    }
}

proof fn lemma_trimmed_end(text: Seq<char>) -> (to: int)
    ensures
        0 <= to <= text.len(),
        trimmed_end(text) == text.subrange(0, to),
        forall|k: int| to <= k < text.len() ==> is_white_space(#[trigger] text[k]),
        to > 0 ==> !is_white_space(text[to - 1]),
    decreases text.len(),
{
    if text.len() > 0 && is_white_space(text.last()) {
        let rest = text.drop_last();
        let to: int = lemma_trimmed_end(rest);
        assert(trimmed_end(text) =~= text.subrange(0, to));
        assert forall|k: int| to <= k < text.len() implies is_white_space(#[trigger] text[k]) by {
            if k < rest.len() {
                assert(rest[k] == text[k]);
            }
        }
        to
    } else {
        assert(text =~= text.subrange(0, text.len() as int));
        text.len() as int
    }
}

/// `core` is what is left of `text` once white space is cut off both its ends
/// and nothing else is: one piece of it, with only white space around, that
/// neither starts nor ends with any.
pub open spec fn is_core(text: Seq<char>, core: Seq<char>) -> bool {
    exists|from: int, to: int|
        {
            &&& 0 <= from <= to <= text.len()
            &&& core == #[trigger] text.subrange(from, to)
            &&& forall|k: int|
                0 <= k < from || to <= k < text.len() ==> is_white_space(#[trigger] text[k])
            &&& core.len() > 0 ==> !is_white_space(core[0]) && !is_white_space(core.last())
        }
}

/// The white space characters, one by one.
pub proof fn white_space_is_listed(c: char)
    ensures
        is_white_space(c) <==> "\u{9}\u{a}\u{b}\u{c}\u{d}\u{20}\u{85}\u{a0}\u{1680}\u{2000}\u{2001}\u{2002}\u{2003}\u{2004}\u{2005}\u{2006}\u{2007}\u{2008}\u{2009}\u{200a}\u{2028}\u{2029}\u{202f}\u{205f}\u{3000}"@.contains(
            c,
        ),
{
    reveal_strlit(
        "\u{9}\u{a}\u{b}\u{c}\u{d}\u{20}\u{85}\u{a0}\u{1680}\u{2000}\u{2001}\u{2002}\u{2003}\u{2004}\u{2005}\u{2006}\u{2007}\u{2008}\u{2009}\u{200a}\u{2028}\u{2029}\u{202f}\u{205f}\u{3000}",
    );
    let listed = "\u{9}\u{a}\u{b}\u{c}\u{d}\u{20}\u{85}\u{a0}\u{1680}\u{2000}\u{2001}\u{2002}\u{2003}\u{2004}\u{2005}\u{2006}\u{2007}\u{2008}\u{2009}\u{200a}\u{2028}\u{2029}\u{202f}\u{205f}\u{3000}"@;
    if is_white_space(c) {
        let code = c as int;
        let i: int = if code <= 0xd {
            code - 0x9
        } else if code == 0x20 {
            5
        } else if code == 0x85 {
            6
        } else if code == 0xa0 {
            7
        } else if code == 0x1680 {
            8
        } else if code <= 0x200a {
            code - 0x2000 + 9
        } else if code <= 0x2029 {
            code - 0x2028 + 20
        } else if code == 0x202f {
            22
        } else if code == 0x205f {
            23
        } else {
            24
        };
        assert(listed[i] == c);
    }
}

/// Trimming cuts white space off both ends, all of it and nothing else.
pub proof fn trimming_leaves_the_core(text: Seq<char>)
    ensures
        is_core(text, trimmed(text)),
        trimmed(trimmed(text)) == trimmed(text),
{
    let from: int = lemma_trimmed_start(text);
    let rest = trimmed_start(text);
    let width: int = lemma_trimmed_end(rest);
    let core = trimmed(text);
    let to = from + width;
    assert(core =~= text.subrange(from, to));
    assert forall|k: int| 0 <= k < from || to <= k < text.len() implies is_white_space(
        #[trigger] text[k],
    ) by {
        if k >= to {
            assert(rest[k - from] == text[k]);
        }
    }
    if core.len() > 0 {
        assert(core[0] == text[from]);
        assert(core.last() == rest[width - 1]);
    }
    assert(trimmed_start(core) == core);
    assert(trimmed_end(core) == core);
}

/// A text with no white space at either end is left as it is.
pub proof fn trimmed_text_is_left_alone(text: Seq<char>)
    requires
        text.len() > 0 ==> !is_white_space(text[0]) && !is_white_space(text.last()),
    ensures
        trimmed(text) == text,
{
}

} // verus!
