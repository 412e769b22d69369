//! Choosing the name of a key from a line of user input.

use vstd::prelude::*;

verus! {

/// The name a key gets when the user enters none.
pub const DEFAULT_KEY_NAME: &'static str = "github-actions";

/// Whether `c` is white space: a character with the Unicode property
/// `White_Space`.
pub open spec fn is_whitespace(c: char) -> bool {
    let n = c as u32;
    ||| 0x09 <= n <= 0x0D
    ||| n == 0x20
    ||| n == 0x85
    ||| n == 0xA0
    ||| n == 0x1680
    ||| 0x2000 <= n <= 0x200A
    ||| n == 0x2028
    ||| n == 0x2029
    ||| n == 0x202F
    ||| n == 0x205F
    ||| n == 0x3000
}

/// Whether every character of `s` is white space. The empty text is blank.
pub open spec fn blank(s: Seq<char>) -> bool {
    forall|i: int| 0 <= i < s.len() ==> is_whitespace(#[trigger] s[i])
}

/// `s` without the white space at its front.
pub open spec fn trim_start(s: Seq<char>) -> Seq<char>
    decreases s.len(),
{
    if s.len() > 0 && is_whitespace(s.first()) {
        trim_start(s.drop_first())
    } else {
        s
    }
}

/// `s` without the white space at its end.
pub open spec fn trim_end(s: Seq<char>) -> Seq<char>
    decreases s.len(),
{
    if s.len() > 0 && is_whitespace(s.last()) {
        trim_end(s.drop_last())
    } else {
        s
    }
}

/// `s` without the white space at either end.
pub open spec fn trimmed(s: Seq<char>) -> Seq<char> {
    trim_end(trim_start(s))
}

/// The name of the key for a line of input: the default for a blank line,
/// else the line without the white space around it.
pub open spec fn resolved_name(input: Seq<char>) -> Seq<char> {
    if blank(input) {
        DEFAULT_KEY_NAME@
    } else {
        trimmed(input)
    }
}

/// Tells whether a character is white space.
pub fn char_is_whitespace(c: char) -> (b: bool)
    ensures
        b == is_whitespace(c),
{
    let n: u32 = c as u32;
    (0x09 <= n && n <= 0x0D) || n == 0x20 || n == 0x85 || n == 0xA0 || n == 0x1680 || (0x2000 <= n
        && n <= 0x200A) || n == 0x2028 || n == 0x2029 || n == 0x202F || n == 0x205F || n == 0x3000
}

/// The characters of `s`, in order.
fn characters(s: &str) -> (v: Vec<char>)
    ensures
        v@ == s@,
{
    let mut v: Vec<char> = Vec::new();
    for c in it: s.chars()
        invariant
            v@ == it.seq().take(it.index() as int),
            it.seq() == s@,
    {
        v.push(c);
    }
    v
}

/// The index of the first character of `chars` that is not white space, or
/// the length of `chars` when there is none.
fn skip_blanks(chars: &Vec<char>) -> (start: usize)
    ensures
        start <= chars@.len(),
        trim_start(chars@) == chars@.skip(start as int),
{
    let n = chars.len();
    let mut start: usize = 0;
    assert(chars@.skip(0) == chars@);
    while start < n && char_is_whitespace(chars[start])
        invariant
            start <= n,
            n == chars@.len(),
            trim_start(chars@) == trim_start(chars@.skip(start as int)),
        decreases n - start,
    {
        assert(chars@.skip(start as int).drop_first() == chars@.skip(start + 1));
        start += 1;
    }
    start
}

/// Where the part of `chars` from `start` ends once the white space at its
/// end is dropped.
fn drop_blanks(chars: &Vec<char>, start: usize) -> (end: usize)
    requires
        start <= chars@.len(),
    ensures
        start <= end <= chars@.len(),
        trim_end(chars@.skip(start as int)) == chars@.subrange(start as int, end as int),
{
    let n = chars.len();
    let mut end: usize = n;
    while end > start && char_is_whitespace(chars[end - 1])
        invariant
            start <= end <= n,
            n == chars@.len(),
            trim_end(chars@.skip(start as int)) == trim_end(
                chars@.subrange(start as int, end as int),
            ),
        decreases end,
    {
        assert(chars@.subrange(start as int, end as int).drop_last() == chars@.subrange(
            start as int,
            end - 1,
        ));
        end -= 1;
    }
    end
}

/// Removes the white space at both ends of `s`.
pub fn trim<'a>(s: &'a str) -> (r: &'a str)
    ensures
        r@ == trimmed(s@),
{
    let chars = characters(s);
    let start = skip_blanks(&chars);
    let end = drop_blanks(&chars, start);
    s.substring_char(start, end)
}

/// Picks the name of the key from what the user entered.
pub fn resolve_key_name<'a>(input: &'a str) -> (name: &'a str)
    ensures
        name@ == resolved_name(input@),
        name@.len() > 0,
{
    proof {
        lemma_blank_iff_trimmed_empty(input@);
        reveal_strlit("github-actions");
    }
    let entered = trim(input);
    if entered.is_empty() {
        DEFAULT_KEY_NAME
    } else {
        entered
    }
}

/// What `trim_start` removes is a blank prefix, and what it leaves does not
/// begin with white space.
pub proof fn lemma_trim_start(s: Seq<char>)
    ensures
        trim_start(s).len() <= s.len(),
        trim_start(s) == s.skip(s.len() - trim_start(s).len()),
        blank(s.take(s.len() - trim_start(s).len())),
        trim_start(s).len() > 0 ==> !is_whitespace(trim_start(s).first()),
    decreases s.len(),
{
    if s.len() > 0 && is_whitespace(s.first()) {
        let rest = s.drop_first();
        lemma_trim_start(rest);
        let k = rest.len() - trim_start(rest).len();
        assert(rest.skip(k) == s.skip(k + 1));
        assert forall|i: int| 0 <= i < k + 1 implies is_whitespace(#[trigger] s.take(k + 1)[i]) by {
            if i > 0 {
                assert(s.take(k + 1)[i] == rest.take(k)[i - 1]);
            }
        }
    }
}

/// What `trim_end` removes is a blank suffix, and what it leaves does not
/// end with white space.
pub proof fn lemma_trim_end(s: Seq<char>)
    ensures
        trim_end(s).len() <= s.len(),
        trim_end(s) == s.take(trim_end(s).len() as int),
        blank(s.skip(trim_end(s).len() as int)),
        trim_end(s).len() > 0 ==> !is_whitespace(trim_end(s).last()),
    decreases s.len(),
{
    if s.len() > 0 && is_whitespace(s.last()) {
        let rest = s.drop_last();
        lemma_trim_end(rest);
        let k = trim_end(rest).len() as int;
        assert forall|i: int| 0 <= i < s.len() - k implies is_whitespace(#[trigger] s.skip(k)[i]) by {
            if i < rest.len() - k {
                assert(s.skip(k)[i] == rest.skip(k)[i]);
            }
        }
    }
}

/// Trimming leaves nothing exactly when the text is blank.
pub proof fn lemma_blank_iff_trimmed_empty(s: Seq<char>)
    ensures
        blank(s) <==> trimmed(s).len() == 0,
{
    let front = s.len() - trim_start(s).len();
    let rest = trim_start(s);
    let kept = trimmed(s).len() as int;
    lemma_trim_start(s);
    lemma_trim_end(rest);
    if kept == 0 {
        assert(rest.skip(0) == rest);
        assert forall|i: int| 0 <= i < s.len() implies is_whitespace(#[trigger] s[i]) by {
            if i < front {
                assert(s[i] == s.take(front)[i]);
            }
        }
    }
}

/// A text is its trimmed part between two blank runs, and its trimmed part
/// neither begins nor ends with white space.
pub proof fn lemma_trimmed_frames(s: Seq<char>) -> (ends: (Seq<char>, Seq<char>))
    ensures
        s == ends.0 + trimmed(s) + ends.1,
        blank(ends.0),
        blank(ends.1),
        trimmed(s).len() > 0 ==> !is_whitespace(trimmed(s).first()) && !is_whitespace(
            trimmed(s).last(),
        ),
{
    let front = s.len() - trim_start(s).len();
    let rest = trim_start(s);
    let kept = trimmed(s).len() as int;
    lemma_trim_start(s);
    lemma_trim_end(rest);
    (s.take(front), rest.skip(kept))
}

/// A blank run in front of a text that does not begin with white space is
/// what `trim_start` removes.
proof fn lemma_strip_front(lead: Seq<char>, rest: Seq<char>)
    requires
        blank(lead),
        rest.len() > 0,
        !is_whitespace(rest.first()),
    ensures
        trim_start(lead + rest) == rest,
    decreases lead.len(),
{
    if lead.len() > 0 {
        assert((lead + rest).drop_first() =~= lead.drop_first() + rest);
        lemma_strip_front(lead.drop_first(), rest);
    }
}

/// A blank run behind a text that does not end with white space is what
/// `trim_end` removes.
proof fn lemma_strip_back(core: Seq<char>, trail: Seq<char>)
    requires
        blank(trail),
        core.len() > 0,
        !is_whitespace(core.last()),
    ensures
        trim_end(core + trail) == core,
    decreases trail.len(),
{
    if trail.len() > 0 {
        assert((core + trail).drop_last() =~= core + trail.drop_last());
        lemma_strip_back(core, trail.drop_last());
    }
}

/// Only one part of a text lies between two blank runs without beginning or
/// ending with white space: the trimmed part.
pub proof fn lemma_trimmed_unique(s: Seq<char>, lead: Seq<char>, core: Seq<char>, trail: Seq<char>)
    requires
        s == lead + core + trail,
        blank(lead),
        blank(trail),
        core.len() > 0,
        !is_whitespace(core.first()),
        !is_whitespace(core.last()),
    ensures
        trimmed(s) == core,
{
    lemma_strip_front(lead, core + trail);
    assert(lead + core + trail =~= lead + (core + trail));
    lemma_strip_back(core, trail);
}

/// A resolved name is never empty, has no white space at either end, and
/// resolves to itself.
pub proof fn lemma_resolved_name_is_settled(input: Seq<char>)
    ensures
        resolved_name(input).len() > 0,
        !is_whitespace(resolved_name(input).first()),
        !is_whitespace(resolved_name(input).last()),
        resolved_name(resolved_name(input)) == resolved_name(input),
{
    let name = resolved_name(input);
    reveal_strlit("github-actions");
    if !blank(input) {
        lemma_blank_iff_trimmed_empty(input);
        lemma_trimmed_frames(input);
    }
    lemma_trimmed_unique(name, Seq::empty(), name, Seq::empty());
}

} // verus!
