use vstd::prelude::*;
use vstd::string::*;

verus! {

/// `n` is where the first line of `s` ends: the first line feed, or the end
/// of `s` where it holds none.
pub open spec fn is_first_line_end(s: Seq<char>, n: int) -> bool {
    &&& 0 <= n <= s.len()
    &&& (n == s.len() || s[n] == '\n')
    &&& forall|j: int| 0 <= j < n ==> s[j] != '\n'
}

/// The first line of `s` without its line ending: a line feed ends it, and a
/// carriage return just before that line feed is dropped too.
pub open spec fn first_line(s: Seq<char>) -> Seq<char> {
    let n = choose|n: int| is_first_line_end(s, n);
    if 0 < n < s.len() && s[n - 1] == '\r' {
        s.subrange(0, n - 1)
    } else {
        s.subrange(0, n)
    }
}

/// The last character of the first line of `s`, if that line has one. An
/// empty `s` has no line at all.
pub open spec fn last_of_first_line(s: Seq<char>) -> Option<char> {
    let line = first_line(s);
    if line.len() == 0 {
        None
    } else {
        Some(line.last())
    }
}

/// The last character of the first line of `text`.
pub fn last_char_of_first_line(text: &str) -> (r: Option<char>)
    ensures
        r == last_of_first_line(text@),
{
    let len = text.unicode_len();
    let mut i: usize = 0;
    while i < len && text.get_char(i) != '\n'
        invariant
            i <= len,
            len == text@.len(),
            forall|j: int| 0 <= j < i ==> text@[j] != '\n',
        decreases len - i,
    {
        i = i + 1;
    }
    proof {
        let s = text@;
        assert(is_first_line_end(s, i as int));
        let m = choose|n: int| is_first_line_end(s, n);
        if m < i {
            assert(s[m] != '\n');
        }
        if m > i {
            assert(s[i as int] != '\n');
        }
        assert(m == i);
    }
    let mut end = i;
    if 0 < i && i < len && text.get_char(i - 1) == '\r' {
        end = i - 1;
    }
    if end == 0 {
        None
    } else {
        Some(text.get_char(end - 1))
    }
}

} // verus!
