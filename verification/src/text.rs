//! Text cleaning for transcript segments.
//!
//! Segment text arrives with noise markers the transcription service inserts
//! for silent or dropped audio. Cleaning removes the two known markers, one
//! after the other, and trims surrounding whitespace; joining appends a
//! cleaned fragment to a held sentence with exactly one separating space.

use vstd::prelude::*;
use vstd::string::StrSliceExecFns;

verus! {

/// Whitespace for trimming: the ASCII whitespace characters.
pub open spec fn is_space(c: char) -> bool {
    c == ' ' || c == '\t' || c == '\n' || c == '\r'
}

/// `s` with every leading whitespace character dropped.
pub open spec fn trim_start(s: Seq<char>) -> Seq<char>
    decreases s.len(),
{
    if s.len() == 0 {
        s
    } else if is_space(s[0]) {
        trim_start(s.skip(1))
    } else {
        s
    }
}

/// `s` with every trailing whitespace character dropped.
pub open spec fn trim_end(s: Seq<char>) -> Seq<char>
    decreases s.len(),
{
    if s.len() == 0 {
        s
    } else if is_space(s[s.len() - 1]) {
        trim_end(s.take(s.len() - 1))
    } else {
        s
    }
}

/// `s` with leading and trailing whitespace dropped.
pub open spec fn trimmed(s: Seq<char>) -> Seq<char> {
    trim_end(trim_start(s))
}

/// `s` with every occurrence of the marker `m` removed, scanning left to
/// right without overlap, as a string replace by the empty string does.
pub open spec fn with_marker_removed(s: Seq<char>, m: Seq<char>) -> Seq<char>
    decreases s.len(),
{
    if m.len() == 0 || s.len() < m.len() {
        s
    } else if s.take(m.len() as int) == m {
        with_marker_removed(s.skip(m.len() as int), m)
    } else {
        seq![s[0]] + with_marker_removed(s.skip(1), m)
    }
}

/// The marker the service emits for silent audio.
pub open spec fn blank_audio_marker() -> Seq<char> {
    seq!['[', 'B', 'L', 'A', 'N', 'K', '_', 'A', 'U', 'D', 'I', 'O', ']']
}

/// The marker the service emits for dropped audio.
pub open spec fn audio_out_marker() -> Seq<char> {
    seq!['[', 'A', 'U', 'D', 'I', 'O', ' ', 'O', 'U', 'T', ']']
}

/// A segment's text after cleaning: both noise markers removed, then the
/// whitespace around what remains trimmed away.
pub open spec fn cleaned_text(s: Seq<char>) -> Seq<char> {
    trimmed(
        with_marker_removed(with_marker_removed(s, blank_audio_marker()), audio_out_marker()),
    )
}

/// A held sentence extended by a cleaned fragment: one separating space is
/// inserted when the sentence is non-empty and does not already end in one.
pub open spec fn joined(current: Seq<char>, clean: Seq<char>) -> Seq<char> {
    if current.len() == 0 {
        clean
    } else if current[current.len() - 1] == ' ' {
        current + clean
    } else {
        current + seq![' '] + clean
    }
}

/// Whether a cleaned fragment closes a sentence: it ends in terminal
/// punctuation.
pub open spec fn ends_terminal(clean: Seq<char>) -> bool {
    clean.len() > 0 && (clean[clean.len() - 1] == '.' || clean[clean.len() - 1] == '?'
        || clean[clean.len() - 1] == '!')
}

/// Joining keeps a sentence presentable: extending a sentence that is empty
/// or free of whitespace at both ends by a fragment with the same shape
/// yields a non-empty sentence with that shape again.
pub proof fn lemma_joined_shape(current: Seq<char>, clean: Seq<char>)
    requires
        clean.len() > 0,
        !is_space(clean[0]),
        !is_space(clean[clean.len() - 1]),
        current.len() > 0 ==> !is_space(current[0]),
    ensures
        joined(current, clean).len() > 0,
        !is_space(joined(current, clean)[0]),
        !is_space(joined(current, clean)[joined(current, clean).len() - 1]),
{
    let j = joined(current, clean);
    if current.len() == 0 {
    } else {
        assert(j[0] == current[0]);
        assert(j[j.len() - 1] == clean[clean.len() - 1]);
    }
}

/// The characters of `s`, as a vector.
pub fn str_to_chars(s: &str) -> (out: Vec<char>)
    ensures
        out@ == s@,
{
    let n = s.unicode_len();
    let mut out: Vec<char> = Vec::new();
    let mut i: usize = 0;
    while i < n
        invariant
            i <= n,
            n == s@.len(),
            out@ == s@.take(i as int),
        decreases n - i,
    {
        out.push(s.get_char(i));
        i = i + 1;
        assert(out@ =~= s@.take(i as int));
    }
    proof {
        assert(s@.take(s@.len() as int) =~= s@);
    }
    out
}

/// Relies on `String: FromIterator<char>` (through `Iterator::collect`):
/// collecting characters yields the string of exactly those characters, in
/// order.
#[verifier::external_body]
pub fn chars_to_string(chars: &Vec<char>) -> (s: String)
    ensures
        s@ == chars@,
{
    chars.iter().collect()
}

/// Whether `m` occurs in `s` at position `i`.
fn matches_at(s: &Vec<char>, i: usize, m: &Vec<char>) -> (r: bool)
    requires
        i + m@.len() <= s@.len(),
    ensures
        r == (s@.subrange(i as int, i as int + m@.len() as int) == m@),
{
    proof {
        assert(s.len() == s@.len());
    }
    let mut j: usize = 0;
    while j < m.len()
        invariant
            j <= m@.len(),
            i + m@.len() <= s@.len(),
            s@.len() <= usize::MAX,
            forall|k: int| 0 <= k < j ==> s@[i + k] == m@[k],
        decreases m@.len() - j,
    {
        if s[i + j] != m[j] {
            proof {
                let seg = s@.subrange(i as int, i as int + m@.len() as int);
                assert(seg[j as int] == s@[i + j]);
            }
            return false;
        }
        j = j + 1;
    }
    proof {
        assert(s@.subrange(i as int, i as int + m@.len() as int) =~= m@);
    }
    true
}

/// Removes every occurrence of the marker `m` from `s`, scanning left to
/// right without overlap.
pub fn remove_marker(s: &Vec<char>, m: &Vec<char>) -> (out: Vec<char>)
    requires
        m@.len() >= 1,
    ensures
        out@ == with_marker_removed(s@, m@),
{
    let mut out: Vec<char> = Vec::new();
    let mut i: usize = 0;
    proof {
        assert(s.len() == s@.len());
        assert(s@.skip(0) =~= s@);
        assert(out@ + with_marker_removed(s@, m@) =~= with_marker_removed(s@, m@));
    }
    while i < s.len()
        invariant
            i <= s@.len(),
            s@.len() <= usize::MAX,
            m@.len() >= 1,
            out@.len() <= i,
            with_marker_removed(s@, m@) == out@ + with_marker_removed(s@.skip(i as int), m@),
        decreases s@.len() - i,
    {
        let ghost rest = s@.skip(i as int);
        if m.len() <= s.len() - i && matches_at(s, i, m) {
            proof {
                assert(rest.take(m@.len() as int) =~= s@.subrange(
                    i as int,
                    i as int + m@.len() as int,
                ));
                assert(rest.take(m@.len() as int) == m@);
                assert(with_marker_removed(rest, m@) == with_marker_removed(
                    rest.skip(m@.len() as int),
                    m@,
                ));
                assert(rest.skip(m@.len() as int) =~= s@.skip(i as int + m@.len() as int));
            }
            i = i + m.len();
        } else {
            proof {
                if i + m@.len() <= s@.len() {
                    assert(rest.take(m@.len() as int) =~= s@.subrange(
                        i as int,
                        i as int + m@.len() as int,
                    ));
                    assert(rest.take(m@.len() as int) != m@);
                    assert(with_marker_removed(rest, m@) == seq![rest[0]] + with_marker_removed(
                        rest.skip(1),
                        m@,
                    ));
                } else {
                    assert(rest.len() < m@.len());
                    assert(with_marker_removed(rest, m@) == rest);
                    assert(rest =~= seq![rest[0]] + rest.skip(1));
                    assert(rest.skip(1).len() < m@.len());
                    assert(with_marker_removed(rest.skip(1), m@) == rest.skip(1));
                }
                assert(rest[0] == s@[i as int]);
                assert(rest.skip(1) =~= s@.skip(i as int + 1));
            }
            out.push(s[i]);
            i = i + 1;
        }
        assert(with_marker_removed(s@, m@) == out@ + with_marker_removed(
            s@.skip(i as int),
            m@,
        ));
    }
    proof {
        let rest = s@.skip(i as int);
        assert(rest.len() == 0);
        assert(with_marker_removed(rest, m@) == rest);
        assert(out@ + rest =~= out@);
    }
    out
}

/// Where trimming from the front stops: dropping `i` leading spaces of `s`
/// yields `trim_start(s)` as long as everything before `i` is whitespace and
/// position `i`, if it exists, is not.
proof fn lemma_trim_start_at(s: Seq<char>, i: int)
    requires
        0 <= i <= s.len(),
        forall|j: int| 0 <= j < i ==> is_space(s[j]),
        i < s.len() ==> !is_space(s[i]),
    ensures
        trim_start(s) == s.skip(i),
    decreases i,
{
    if i == 0 {
        assert(s.skip(0) =~= s);
    } else {
        assert(is_space(s[0]));
        lemma_trim_start_at(s.skip(1), i - 1);
        assert(s.skip(1).skip(i - 1) =~= s.skip(i));
    }
}

/// Where trimming from the back stops: keeping the first `i` characters of
/// `s` yields `trim_end(s)` as long as everything from `i` on is whitespace
/// and position `i - 1`, if it exists, is not.
proof fn lemma_trim_end_at(s: Seq<char>, i: int)
    requires
        0 <= i <= s.len(),
        forall|j: int| i <= j < s.len() ==> is_space(s[j]),
        i > 0 ==> !is_space(s[i - 1]),
    ensures
        trim_end(s) == s.take(i),
    decreases s.len() - i,
{
    if i == s.len() {
        assert(s.take(i) =~= s);
    } else {
        assert(is_space(s[s.len() - 1]));
        lemma_trim_end_at(s.take(s.len() - 1), i);
        assert(s.take(s.len() - 1).take(i) =~= s.take(i));
    }
}

/// A trimmed, non-empty text starts and ends in non-whitespace, and trimming
/// it again changes nothing.
pub proof fn lemma_trimmed_shape(s: Seq<char>)
    ensures
        trimmed(s).len() > 0 ==> !is_space(trimmed(s)[0]),
        trimmed(s).len() > 0 ==> !is_space(trimmed(s)[trimmed(s).len() - 1]),
        trimmed(trimmed(s)) == trimmed(s),
    decreases s.len(),
{
    lemma_trim_start_shape(s);
    let t = trim_start(s);
    lemma_trim_end_shape(t);
    let u = trim_end(t);
    if u.len() > 0 {
        assert(!is_space(u[0]));
        assert(!is_space(u[u.len() - 1]));
        lemma_trim_start_at(u, 0);
        lemma_trim_end_at(u, u.len() as int);
        assert(trimmed(u) == u);
    } else {
        assert(trim_start(u) == u);
        assert(trim_end(u) == u);
    }
}

/// A text that is non-empty and free of whitespace at both ends is its own
/// trim.
pub proof fn lemma_trim_of_clean_id(s: Seq<char>)
    requires
        s.len() > 0,
        !is_space(s[0]),
        !is_space(s[s.len() - 1]),
    ensures
        trimmed(s) == s,
{
    lemma_trim_start_at(s, 0);
    lemma_trim_end_at(s, s.len() as int);
}

/// The front-trimmed text keeps no leading whitespace, and keeps the tail of
/// `s` (so its last character is the last of `s` when non-empty).
proof fn lemma_trim_start_shape(s: Seq<char>)
    ensures
        trim_start(s).len() > 0 ==> !is_space(trim_start(s)[0]),
        trim_start(s).len() > 0 ==> trim_start(s)[trim_start(s).len() - 1] == s[s.len() - 1],
        trim_start(s).len() <= s.len(),
    decreases s.len(),
{
    if s.len() == 0 {
    } else if is_space(s[0]) {
        lemma_trim_start_shape(s.skip(1));
    } else {
    }
}

/// The back-trimmed text keeps no trailing whitespace and keeps the head of
/// `s` (so its first character is the first of `s` when non-empty).
proof fn lemma_trim_end_shape(s: Seq<char>)
    ensures
        trim_end(s).len() > 0 ==> !is_space(trim_end(s)[trim_end(s).len() - 1]),
        trim_end(s).len() > 0 ==> trim_end(s)[0] == s[0],
        trim_end(s).len() <= s.len(),
    decreases s.len(),
{
    if s.len() == 0 {
    } else if is_space(s[s.len() - 1]) {
        lemma_trim_end_shape(s.take(s.len() - 1));
    } else {
    }
}

/// Trims ASCII whitespace from both ends of a character run.
pub fn trim_chars(s: &Vec<char>) -> (out: Vec<char>)
    ensures
        out@ == trimmed(s@),
{
    let n = s.len();
    let mut start: usize = 0;
    while start < n && is_space_char(s[start])
        invariant
            start <= n,
            n == s@.len(),
            forall|j: int| 0 <= j < start ==> is_space(s@[j]),
        decreases n - start,
    {
        start = start + 1;
    }
    if start == n {
        proof {
            lemma_trim_start_at(s@, n as int);
            assert(s@.skip(n as int).len() == 0);
            assert(trim_end(s@.skip(n as int)) == s@.skip(n as int));
        }
        let out: Vec<char> = Vec::new();
        proof {
            assert(out@ =~= trimmed(s@));
        }
        return out;
    }
    let mut end: usize = n;
    while end > start && is_space_char(s[end - 1])
        invariant
            start < end <= n,
            n == s@.len(),
            !is_space(s@[start as int]),
            forall|j: int| end <= j < n ==> is_space(s@[j]),
        decreases end,
    {
        end = end - 1;
    }
    proof {
        assert(!is_space(s@[end - 1]));
        lemma_trim_start_at(s@, start as int);
        let t = s@.skip(start as int);
        lemma_trim_end_at(t, end - start);
        assert forall|j: int| end - start <= j < t.len() implies is_space(t[j]) by {
            assert(t[j] == s@[j + start]);
        }
        assert(t[end - start - 1] == s@[end - 1]);
    }
    let mut out: Vec<char> = Vec::new();
    let mut i: usize = start;
    while i < end
        invariant
            start <= i <= end <= n,
            n == s@.len(),
            out@ == s@.subrange(start as int, i as int),
        decreases end - i,
    {
        out.push(s[i]);
        i = i + 1;
        assert(out@ =~= s@.subrange(start as int, i as int));
    }
    proof {
        let t = s@.skip(start as int);
        assert(out@ =~= t.take(end - start));
    }
    out
}

/// Whether `c` is ASCII whitespace.
fn is_space_char(c: char) -> (r: bool)
    ensures
        r == is_space(c),
{
    c == ' ' || c == '\t' || c == '\n' || c == '\r'
}

/// Cleans a segment's text: removes both noise markers, then trims.
pub fn clean_segment_text(text: &str) -> (out: Vec<char>)
    ensures
        out@ == cleaned_text(text@),
{
    let chars = str_to_chars(text);
    let blank = blank_marker_chars();
    let audio_out = audio_out_marker_chars();
    let without_blank = remove_marker(&chars, &blank);
    let without_both = remove_marker(&without_blank, &audio_out);
    trim_chars(&without_both)
}

/// The silent-audio marker, as characters.
fn blank_marker_chars() -> (m: Vec<char>)
    ensures
        m@ == blank_audio_marker(),
{
    let mut m: Vec<char> = Vec::new();
    m.push('[');
    m.push('B');
    m.push('L');
    m.push('A');
    m.push('N');
    m.push('K');
    m.push('_');
    m.push('A');
    m.push('U');
    m.push('D');
    m.push('I');
    m.push('O');
    m.push(']');
    proof {
        assert(m@ =~= blank_audio_marker());
    }
    m
}

/// The dropped-audio marker, as characters.
fn audio_out_marker_chars() -> (m: Vec<char>)
    ensures
        m@ == audio_out_marker(),
{
    let mut m: Vec<char> = Vec::new();
    m.push('[');
    m.push('A');
    m.push('U');
    m.push('D');
    m.push('I');
    m.push('O');
    m.push(' ');
    m.push('O');
    m.push('U');
    m.push('T');
    m.push(']');
    proof {
        assert(m@ =~= audio_out_marker());
    }
    m
}

} // verus!
