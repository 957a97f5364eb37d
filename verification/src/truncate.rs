use vstd::prelude::*;
use crate::text::{
    char_is_whitespace, chars_of, dots, is_white_space, push_chars, push_dots, string_of,
};

verus! {

/// `s` without its trailing white space.
pub open spec fn trim_end(s: Seq<char>) -> Seq<char>
    decreases s.len(),
{
    if s.len() > 0 && is_white_space(s.last()) {
        trim_end(s.drop_last())
    } else {
        s
    }
}

/// `s` without its leading white space.
pub open spec fn trim_start(s: Seq<char>) -> Seq<char>
    decreases s.len(),
{
    if s.len() > 0 && is_white_space(s[0]) {
        trim_start(s.drop_first())
    } else {
        s
    }
}

/// What `truncate_text` makes of `text`.
///
/// Without a width, or when the text fits, the text stays as it is. A width of at most
/// three leaves that many full stops. Otherwise the text keeps its first and last
/// characters (the end getting the extra one when the kept count is odd) around an
/// ellipsis `...`, with white space next to the ellipsis removed.
pub open spec fn truncated(text: Seq<char>, width: Option<usize>) -> Seq<char> {
    match width {
        None => text,
        Some(w) => {
            if text.len() <= w {
                text
            } else if w <= 3 {
                dots(w as nat)
            } else {
                let keep = w - 3;
                let left_keep = keep / 2;
                let right_keep = keep - left_keep;
                trim_end(text.take(left_keep)) + dots(3) + trim_start(
                    text.skip(text.len() - right_keep),
                )
            }
        },
    }
}

proof fn lemma_trim_end_len(s: Seq<char>)
    ensures
        trim_end(s).len() <= s.len(),
    decreases s.len(),
{
    if s.len() > 0 && is_white_space(s.last()) {
        lemma_trim_end_len(s.drop_last());
    }
}

proof fn lemma_trim_start_len(s: Seq<char>)
    ensures
        trim_start(s).len() <= s.len(),
    decreases s.len(),
{
    if s.len() > 0 && is_white_space(s[0]) {
        lemma_trim_start_len(s.drop_first());
    }
}

/// Shortens `text` to at most `width` characters, keeping its start and its end around
/// an ellipsis (`...`) in the middle.
pub fn truncate_text(text: &str, width: Option<usize>) -> (r: String)
    ensures
        r@ == truncated(text@, width),
{
    let width = match width {
        None => {
            return string_of(text);
        },
        Some(width) => width,
    };
    let chars = chars_of(text);
    let count = chars.len();
    if count <= width {
        return string_of(text);
    }
    if width <= 3 {
        let mut r = String::new();
        push_dots(&mut r, width);
        return r;
    }
    let keep = width - 3;
    let left_keep = keep / 2;
    let right_keep = keep - left_keep;

    // Drop the white space at the end of the kept start.
    let mut left_end = left_keep;
    while left_end > 0 && char_is_whitespace(chars[left_end - 1])
        invariant
            left_end <= left_keep < count == chars@.len(),
            trim_end(chars@.take(left_keep as int)) == trim_end(chars@.take(left_end as int)),
        decreases left_end,
    {
        assert(chars@.take(left_end as int).drop_last() == chars@.take(left_end - 1));
        left_end = left_end - 1;
    }
    // Drop the white space at the start of the kept end.
    let right_begin0 = count - right_keep;
    let mut right_begin = right_begin0;
    while right_begin < count && char_is_whitespace(chars[right_begin])
        invariant
            right_begin0 <= right_begin <= count == chars@.len(),
            trim_start(chars@.skip(right_begin0 as int)) == trim_start(
                chars@.subrange(right_begin as int, count as int),
            ),
        decreases count - right_begin,
    {
        assert(chars@.subrange(right_begin as int, count as int).drop_first() == chars@.subrange(
            right_begin + 1,
            count as int,
        ));
        right_begin = right_begin + 1;
    }
    assert(chars@.skip(right_begin0 as int) == chars@.subrange(right_begin0 as int, count as int));
    assert(chars@.take(left_end as int) == chars@.subrange(0, left_end as int));

    let mut r = String::new();
    push_chars(&mut r, &chars, 0, left_end);
    push_dots(&mut r, 3);
    push_chars(&mut r, &chars, right_begin, count);
    r
}

/// Law: a truncated text never has more characters than the width it was truncated to,
/// and a text that already fits is left as it is.
pub proof fn lemma_truncated_fits(text: Seq<char>, width: usize)
    ensures
        truncated(text, Some(width)).len() <= width,
        text.len() <= width ==> truncated(text, Some(width)) == text,
        truncated(text, None) == text,
{
    if text.len() > width && width > 3 {
        let keep = width - 3;
        let left_keep = keep / 2;
        let right_keep = keep - left_keep;
        lemma_trim_end_len(text.take(left_keep as int));
        lemma_trim_start_len(text.skip(text.len() - right_keep));
    }
}

} // verus!
