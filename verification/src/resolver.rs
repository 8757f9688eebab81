//! The public address of this host, as an address-echo service reports it.

use vstd::prelude::*;
use vstd::string::*;

verus! {

/// The service that answers a GET with the caller's address in plain text.
pub const PUBLIC_IP_URL: &'static str = "https://www.icanhazip.com/";

/// `s` without the line feeds it starts with.
pub open spec fn strip_leading_newlines(s: Seq<char>) -> Seq<char>
    decreases s.len(),
{
    if s.len() > 0 && s.first() == '\n' {
        strip_leading_newlines(s.drop_first())
    } else {
        s
    }
}

/// `s` without the line feeds it ends with.
pub open spec fn strip_trailing_newlines(s: Seq<char>) -> Seq<char>
    decreases s.len(),
{
    if s.len() > 0 && s.last() == '\n' {
        strip_trailing_newlines(s.drop_last())
    } else {
        s
    }
}

/// `s` without the line feeds at either end.
pub open spec fn trim_newlines(s: Seq<char>) -> Seq<char> {
    strip_trailing_newlines(strip_leading_newlines(s))
}

/// Neither the first nor the last character of `s` is a line feed.
pub open spec fn is_trimmed(s: Seq<char>) -> bool {
    s.len() > 0 ==> s.first() != '\n' && s.last() != '\n'
}

/// Stripping leading line feeds drops a prefix made of line feeds only and
/// stops at the first other character. Returns the length of that prefix.
pub proof fn lemma_strip_leading_newlines(s: Seq<char>) -> (i: int)
    ensures
        0 <= i <= s.len(),
        strip_leading_newlines(s) == s.subrange(i, s.len() as int),
        forall|k: int| 0 <= k < i ==> s[k] == '\n',
        i < s.len() ==> s[i] != '\n',
    decreases s.len(),
{
    if s.len() > 0 && s.first() == '\n' {
        let rest = s.drop_first();
        let j = lemma_strip_leading_newlines(rest);
        assert(rest.subrange(j, rest.len() as int) =~= s.subrange(j + 1, s.len() as int));
        assert forall|k: int| 0 <= k < j + 1 implies s[k] == '\n' by {
            if k > 0 {
                assert(rest[k - 1] == s[k]);
            }
        }
        if j + 1 < s.len() {
            assert(rest[j] == s[j + 1]);
        }
        j + 1
    } else {
        assert(s.subrange(0, s.len() as int) =~= s);
        0
    }
}

/// Stripping trailing line feeds drops a suffix made of line feeds only and
/// stops at the last other character. Returns the length of what is kept.
pub proof fn lemma_strip_trailing_newlines(s: Seq<char>) -> (j: int)
    ensures
        0 <= j <= s.len(),
        strip_trailing_newlines(s) == s.subrange(0, j),
        forall|k: int| j <= k < s.len() ==> s[k] == '\n',
        0 < j ==> s[j - 1] != '\n',
    decreases s.len(),
{
    if s.len() > 0 && s.last() == '\n' {
        let rest = s.drop_last();
        let j = lemma_strip_trailing_newlines(rest);
        assert(rest.subrange(0, j) =~= s.subrange(0, j));
        assert forall|k: int| j <= k < s.len() implies s[k] == '\n' by {
            if k < s.len() - 1 {
                assert(rest[k] == s[k]);
            }
        }
        if 0 < j {
            assert(rest[j - 1] == s[j - 1]);
        }
        j
    } else {
        assert(s.subrange(0, s.len() as int) =~= s);
        s.len() as int
    }
}

/// Trimming keeps one contiguous piece of the text and alters nothing in
/// it: what is dropped before and after the piece is line feeds only, and
/// the piece neither starts nor ends with one. Returns the bounds of the
/// piece.
pub proof fn lemma_trim_newlines_is_slice(s: Seq<char>) -> (bounds: (int, int))
    ensures
        0 <= bounds.0 <= bounds.1 <= s.len(),
        trim_newlines(s) == s.subrange(bounds.0, bounds.1),
        forall|k: int| 0 <= k < bounds.0 ==> s[k] == '\n',
        forall|k: int| bounds.1 <= k < s.len() ==> s[k] == '\n',
        is_trimmed(trim_newlines(s)),
{
    let i = lemma_strip_leading_newlines(s);
    let t = s.subrange(i, s.len() as int);
    let j = lemma_strip_trailing_newlines(t);
    assert(t.subrange(0, j) =~= s.subrange(i, i + j));
    assert forall|k: int| i + j <= k < s.len() implies s[k] == '\n' by {
        assert(t[k - i] == s[k]);
    }
    if j > 0 {
        assert(t[j - 1] == s[i + j - 1]);
        assert(t[0] == s[i]);
    }
    (i, i + j)
}

/// A text that neither starts nor ends with a line feed is its own trimmed
/// form.
pub proof fn lemma_trim_newlines_identity(s: Seq<char>)
    requires
        is_trimmed(s),
    ensures
        trim_newlines(s) == s,
{
}

/// Trimming twice is trimming once.
pub proof fn lemma_trim_newlines_idempotent(s: Seq<char>)
    ensures
        trim_newlines(trim_newlines(s)) == trim_newlines(s),
{
    let _ = lemma_trim_newlines_is_slice(s);
    lemma_trim_newlines_identity(trim_newlines(s));
}

/// The address in the body of the echo service's reply: the body without
/// the line feeds around it. Nothing else is altered and nothing is
/// checked: whatever text remains is the address.
pub fn public_ip_from_body(body: &str) -> (ip: String)
    ensures
        ip@ == trim_newlines(body@),
{
    let n = body.unicode_len();
    let mut start: usize = 0;
    proof {
        assert(body@.subrange(0, n as int) =~= body@);
    }
    while start < n && body.get_char(start) == '\n'
        invariant
            n == body@.len(),
            start <= n,
            strip_leading_newlines(body@) == strip_leading_newlines(
                body@.subrange(start as int, n as int),
            ),
        decreases n - start,
    {
        proof {
            let rest = body@.subrange(start as int, n as int);
            assert(rest.first() == '\n');
            assert(rest.drop_first() =~= body@.subrange(start as int + 1, n as int));
        }
        start += 1;
    }
    let mut end: usize = n;
    while end > start && body.get_char(end - 1) == '\n'
        invariant
            n == body@.len(),
            start <= end <= n,
            strip_trailing_newlines(body@.subrange(start as int, n as int))
                == strip_trailing_newlines(body@.subrange(start as int, end as int)),
        decreases end - start,
    {
        proof {
            let rest = body@.subrange(start as int, end as int);
            assert(rest.last() == '\n');
            assert(rest.drop_last() =~= body@.subrange(start as int, end as int - 1));
        }
        end -= 1;
    }
    String::from_str(body.substring_char(start, end))
}

} // verus!
