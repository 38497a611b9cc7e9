//! File names for exported notes: titles made safe for every file system,
//! and names that do not collide with files already there.

use crate::text::{chars_of, decimal, decimal_digits, join3, text_of};
use vstd::prelude::*;
use vstd::string::StringExecFns;

verus! {

/// Characters that file names may not hold on Windows.
pub open spec fn is_reserved(c: char) -> bool {
    c == '\\' || c == '/' || c == ':' || c == '*' || c == '?' || c == '"' || c == '<' || c == '>'
        || c == '|'
}

/// Control characters: the code points of Unicode's category Cc.
pub open spec fn is_control(c: char) -> bool {
    c <= '\u{1f}' || '\u{7f}' <= c <= '\u{9f}'
}

/// White space: the code points with Unicode's property White_Space.
pub open spec fn is_whitespace(c: char) -> bool {
    ||| '\u{9}' <= c <= '\u{d}'
    ||| c == ' '
    ||| c == '\u{85}'
    ||| c == '\u{a0}'
    ||| c == '\u{1680}'
    ||| '\u{2000}' <= c <= '\u{200a}'
    ||| c == '\u{2028}'
    ||| c == '\u{2029}'
    ||| c == '\u{202f}'
    ||| c == '\u{205f}'
    ||| c == '\u{3000}'
}

/// What is trimmed from the ends of a name.
#[derive(Debug, Clone, Copy, PartialEq, Eq, Structural)]
pub enum Trim {
    /// White space.
    Whitespace,
    /// Full stops.
    Dots,
}

/// Whether `c` is trimmed.
pub open spec fn is_trimmed(trim: Trim, c: char) -> bool {
    match trim {
        Trim::Whitespace => is_whitespace(c),
        Trim::Dots => c == '.',
    }
}

/// The character that stands for `c` in a file name: an underscore for a
/// reserved or control character, `c` itself otherwise.
pub open spec fn replaced(c: char) -> char {
    if is_reserved(c) || is_control(c) {
        '_'
    } else {
        c
    }
}

/// `text` without the trimmed characters at its start.
pub open spec fn trimmed_start(text: Seq<char>, trim: Trim) -> Seq<char>
    decreases text.len(),
{
    if text.len() > 0 && is_trimmed(trim, text.first()) {
        trimmed_start(text.drop_first(), trim)
    } else {
        text
    }
}

/// `text` without the trimmed characters at its end.
pub open spec fn trimmed_end(text: Seq<char>, trim: Trim) -> Seq<char>
    decreases text.len(),
{
    if text.len() > 0 && is_trimmed(trim, text.last()) {
        trimmed_end(text.drop_last(), trim)
    } else {
        text
    }
}

/// `text` without the trimmed characters at both ends.
pub open spec fn trimmed(text: Seq<char>, trim: Trim) -> Seq<char> {
    trimmed_end(trimmed_start(text, trim), trim)
}

/// The name that stands in when nothing of a title is left.
pub open spec fn untitled() -> Seq<char> {
    "Untitled"@
}

/// The file name made of a title: reserved and control characters become
/// underscores; white space, then full stops, then white space again are
/// trimmed from both ends; and an empty rest becomes `Untitled`.
pub open spec fn sanitized(name: Seq<char>) -> Seq<char> {
    let kept = trimmed(
        trimmed(trimmed(name.map_values(|c: char| replaced(c)), Trim::Whitespace), Trim::Dots),
        Trim::Whitespace,
    );
    if kept.len() == 0 {
        untitled()
    } else {
        kept
    }
}

/// A trimmed text neither starts nor ends with a trimmed character, and
/// nothing but such characters was removed: it is a part of the text it was
/// made of.
pub proof fn lemma_trimmed(text: Seq<char>, trim: Trim)
    ensures
        trimmed(text, trim).len() > 0 ==> !is_trimmed(trim, trimmed(text, trim).first())
            && !is_trimmed(trim, trimmed(text, trim).last()),
        exists|from: int, to: int|
            0 <= from <= to <= text.len() && trimmed(text, trim) == #[trigger] text.subrange(
                from,
                to,
            ),
{
    lemma_trimmed_start(text, trim);
    let (from, _) = choose|from: int, to: int|
        0 <= from <= to <= text.len() && to == text.len() && trimmed_start(text, trim)
            == #[trigger] text.subrange(from, to);
    let inner = trimmed_start(text, trim);
    lemma_trimmed_end(inner, trim);
    let (_, len) = choose|from: int, to: int|
        0 <= from <= to <= inner.len() && from == 0 && trimmed_end(inner, trim)
            == #[trigger] inner.subrange(from, to);
    assert(inner.subrange(0, len) =~= text.subrange(from, from + len));
}

/// What trimming the start leaves is a tail of the text that does not start
/// with a trimmed character.
pub proof fn lemma_trimmed_start(text: Seq<char>, trim: Trim)
    ensures
        trimmed_start(text, trim).len() > 0 ==> !is_trimmed(
            trim,
            trimmed_start(text, trim).first(),
        ),
        exists|from: int, to: int|
            0 <= from <= to <= text.len() && to == text.len() && trimmed_start(text, trim)
                == #[trigger] text.subrange(from, to),
    decreases text.len(),
{
    if text.len() > 0 && is_trimmed(trim, text.first()) {
        let rest = text.drop_first();
        lemma_trimmed_start(rest, trim);
        let (from, to) = choose|from: int, to: int|
            0 <= from <= to <= rest.len() && to == rest.len() && trimmed_start(rest, trim)
                == #[trigger] rest.subrange(from, to);
        assert(rest.subrange(from, to) =~= text.subrange(from + 1, to + 1));
    } else {
        assert(text =~= text.subrange(0, text.len() as int));
    }
}

/// What trimming the end leaves is a head of the text that does not end with
/// a trimmed character, and it starts as the text does.
pub proof fn lemma_trimmed_end(text: Seq<char>, trim: Trim)
    ensures
        trimmed_end(text, trim).len() > 0 ==> !is_trimmed(trim, trimmed_end(text, trim).last())
            && trimmed_end(text, trim).first() == text.first(),
        exists|from: int, to: int|
            0 <= from <= to <= text.len() && from == 0 && trimmed_end(text, trim)
                == #[trigger] text.subrange(from, to),
    decreases text.len(),
{
    if text.len() > 0 && is_trimmed(trim, text.last()) {
        let rest = text.drop_last();
        lemma_trimmed_end(rest, trim);
        let (from, to) = choose|from: int, to: int|
            0 <= from <= to <= rest.len() && from == 0 && trimmed_end(rest, trim)
                == #[trigger] rest.subrange(from, to);
        assert(rest.subrange(from, to) =~= text.subrange(from, to));
    } else {
        assert(text =~= text.subrange(0, text.len() as int));
    }
}

/// A sanitized name is never empty and holds no reserved and no control
/// character.
pub proof fn lemma_sanitized_is_safe(name: Seq<char>)
    ensures
        sanitized(name).len() > 0,
        forall|i: int|
            0 <= i < sanitized(name).len() ==> !is_reserved(#[trigger] sanitized(name)[i])
                && !is_control(sanitized(name)[i]),
{
    let mapped = name.map_values(|c: char| replaced(c));
    let first = trimmed(mapped, Trim::Whitespace);
    let second = trimmed(first, Trim::Dots);
    let third = trimmed(second, Trim::Whitespace);
    lemma_trimmed(mapped, Trim::Whitespace);
    lemma_trimmed(first, Trim::Dots);
    lemma_trimmed(second, Trim::Whitespace);
    if third.len() == 0 {
        reveal_strlit("Untitled");
    } else {
        let (a, b) = choose|from: int, to: int|
            0 <= from <= to <= mapped.len() && first == #[trigger] mapped.subrange(from, to);
        let (c, d) = choose|from: int, to: int|
            0 <= from <= to <= first.len() && second == #[trigger] first.subrange(from, to);
        let (e, f) = choose|from: int, to: int|
            0 <= from <= to <= second.len() && third == #[trigger] second.subrange(from, to);
        assert forall|i: int| 0 <= i < third.len() implies !is_reserved(#[trigger] third[i])
            && !is_control(third[i]) by {
            assert(third[i] == mapped[a + c + e + i]);
            assert(mapped[a + c + e + i] == replaced(name[a + c + e + i]));
        }
    }
}

/// An empty title becomes `Untitled`.
pub proof fn lemma_empty_title_is_untitled()
    ensures
        sanitized(Seq::<char>::empty()) == untitled(),
{
    let mapped = Seq::<char>::empty().map_values(|c: char| replaced(c));
    assert(mapped.len() == 0);
    assert(trimmed(mapped, Trim::Whitespace).len() == 0);
    assert(trimmed(trimmed(mapped, Trim::Whitespace), Trim::Dots).len() == 0);
}

/// Whether `c` has Unicode's property White_Space.
fn char_is_whitespace(c: char) -> (b: bool)
    ensures
        b == is_whitespace(c),
{
    ('\u{9}' <= c && c <= '\u{d}') || c == ' ' || c == '\u{85}' || c == '\u{a0}' || c
        == '\u{1680}' || ('\u{2000}' <= c && c <= '\u{200a}') || c == '\u{2028}' || c
        == '\u{2029}' || c == '\u{202f}' || c == '\u{205f}' || c == '\u{3000}'
}

/// The character that stands for `c` in a file name.
fn replace_char(c: char) -> (r: char)
    ensures
        r == replaced(c),
{
    let reserved = c == '\\' || c == '/' || c == ':' || c == '*' || c == '?' || c == '"' || c
        == '<' || c == '>' || c == '|';
    let control = c <= '\u{1f}' || ('\u{7f}' <= c && c <= '\u{9f}');
    if reserved || control {
        '_'
    } else {
        c
    }
}

/// Whether `c` is trimmed.
fn char_is_trimmed(trim: Trim, c: char) -> (b: bool)
    ensures
        b == is_trimmed(trim, c),
{
    match trim {
        Trim::Whitespace => char_is_whitespace(c),
        Trim::Dots => c == '.',
    }
}

/// Narrows the window `from..to` of `chars` to what trimming leaves of it.
fn trim_window(chars: &Vec<char>, from: usize, to: usize, trim: Trim) -> (window: (usize, usize))
    requires
        from <= to <= chars.len(),
    ensures
        from <= window.0 <= window.1 <= to,
        chars@.subrange(window.0 as int, window.1 as int) == trimmed(
            chars@.subrange(from as int, to as int),
            trim,
        ),
{
    let ghost whole = chars@.subrange(from as int, to as int);
    let mut start = from;
    while start < to && char_is_trimmed(trim, chars[start])
        invariant
            from <= start <= to <= chars.len(),
            trimmed_start(whole, trim) == trimmed_start(
                chars@.subrange(start as int, to as int),
                trim,
            ),
        decreases to - start,
    {
        proof {
            assert(chars@.subrange(start as int, to as int).drop_first() =~= chars@.subrange(
                start + 1,
                to as int,
            ));
        }
        start += 1;
    }
    let ghost inner = chars@.subrange(start as int, to as int);
    assert(trimmed_start(whole, trim) == inner);
    let mut end = to;
    while start < end && char_is_trimmed(trim, chars[end - 1])
        invariant
            start <= end <= to <= chars.len(),
            trimmed_end(inner, trim) == trimmed_end(
                chars@.subrange(start as int, end as int),
                trim,
            ),
        decreases end - start,
    {
        proof {
            assert(chars@.subrange(start as int, end as int).drop_last() =~= chars@.subrange(
                start as int,
                end - 1,
            ));
        }
        end -= 1;
    }
    (start, end)
}

/// Makes a title safe as a file name on every file system.
///
/// Reserved characters (`\ / : * ? " < > |`) and control characters become
/// underscores. White space and full stops are trimmed from both ends. A
/// title of which nothing is left becomes `Untitled`.
pub fn sanitize_filename(name: &str) -> (file_name: String)
    ensures
        file_name@ == sanitized(name@),
{
    let chars = chars_of(name);
    let mut mapped: Vec<char> = Vec::new();
    let mut i: usize = 0;
    while i < chars.len()
        invariant
            i <= chars.len(),
            mapped@.len() == i,
            forall|j: int| 0 <= j < i ==> mapped@[j] == replaced(chars@[j]),
        decreases chars.len() - i,
    {
        mapped.push(replace_char(chars[i]));
        i += 1;
    }
    proof {
        assert(mapped@ =~= name@.map_values(|c: char| replaced(c)));
        assert(mapped@.subrange(0, mapped@.len() as int) =~= mapped@);
    }
    let (from, to) = trim_window(&mapped, 0, mapped.len(), Trim::Whitespace);
    let (from, to) = trim_window(&mapped, from, to, Trim::Dots);
    let (from, to) = trim_window(&mapped, from, to, Trim::Whitespace);
    if from == to {
        return "Untitled".to_owned();
    }
    let mut kept: Vec<char> = Vec::new();
    let mut k: usize = from;
    while k < to
        invariant
            from <= k <= to <= mapped.len(),
            kept@ == mapped@.subrange(from as int, k as int),
        decreases to - k,
    {
        kept.push(mapped[k]);
        k += 1;
        proof {
            assert(kept@ =~= mapped@.subrange(from as int, k as int));
        }
    }
    text_of(&kept)
}

/// The `attempt`-th name tried for an exported file: `base.extension` first,
/// then `base (2).extension`, `base (3).extension` and so on.
pub open spec fn candidate_name(base: Seq<char>, extension: Seq<char>, attempt: nat) -> Seq<char> {
    if attempt <= 1 {
        base + "."@ + extension
    } else {
        base + " ("@ + decimal_digits(attempt) + ")."@ + extension
    }
}

/// Writes the `attempt`-th name tried for an exported file.
pub fn candidate(base_name: &str, extension: &str, attempt: u32) -> (name: String)
    ensures
        name@ == candidate_name(base_name@, extension@, attempt as nat),
{
    if attempt <= 1 {
        join3(base_name, ".", extension)
    } else {
        let number = decimal(attempt as u64);
        let mut name = join3(base_name, " (", number.as_str());
        name.append(").");
        name.append(extension);
        name
    }
}

/// `is_taken` has answered `answer` for the name `name`.
pub open spec fn answered<F: Fn(&str) -> bool>(is_taken: F, name: Seq<char>, answer: bool) -> bool {
    exists|asked: &str| asked@ == name && #[trigger] call_ensures(is_taken, (asked,), answer)
}

/// `is_taken` has found every name before the `attempt`-th taken.
pub open spec fn all_taken_before<F: Fn(&str) -> bool>(
    is_taken: F,
    base: Seq<char>,
    extension: Seq<char>,
    attempt: nat,
) -> bool {
    forall|earlier: nat|
        1 <= earlier < attempt ==> answered(
            is_taken,
            #[trigger] candidate_name(base, extension, earlier),
            true,
        )
}

/// Finds a file name that is not taken: the first of `base.extension`,
/// `base (2).extension`, `base (3).extension`, ... for which `is_taken` says
/// no, after it has said yes for every earlier one.
///
/// `None` means that every name up to the number `u32::MAX` is taken.
pub fn unique_file_path<F: Fn(&str) -> bool>(base_name: &str, extension: &str, is_taken: F) -> (path:
    Option<String>)
    requires
        forall|name: &str| call_requires(is_taken, (name,)),
    ensures
        match path {
            Some(name) => exists|attempt: nat|
                {
                    &&& 1 <= attempt <= u32::MAX
                    &&& name@ == #[trigger] candidate_name(base_name@, extension@, attempt)
                    &&& answered(is_taken, name@, false)
                    &&& all_taken_before(is_taken, base_name@, extension@, attempt)
                },
            None => all_taken_before(is_taken, base_name@, extension@, (u32::MAX + 1) as nat),
        },
{
    let mut attempt: u32 = 1;
    loop
        invariant
            1 <= attempt <= u32::MAX,
            forall|name: &str| call_requires(is_taken, (name,)),
            all_taken_before(is_taken, base_name@, extension@, attempt as nat),
        decreases u32::MAX - attempt,
    {
        let name = candidate(base_name, extension, attempt);
        let taken = is_taken(name.as_str());
        if !taken {
            return Some(name);
        }
        if attempt == u32::MAX {
            return None;
        }
        attempt += 1;
    }
}

} // verus!
