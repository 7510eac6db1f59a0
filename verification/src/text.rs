//! Searching and cutting byte text: substring search, trailing-newline
//! trimming, separator-delimited pieces and whitespace-delimited tokens.

use vstd::prelude::*;

verus! {

/// The line feed byte.
pub const NEWLINE: u8 = 0x0a;

/// `needle` occurs in `hay` at index `at`.
pub open spec fn occurs_at(hay: Seq<u8>, needle: Seq<u8>, at: int) -> bool {
    &&& 0 <= at
    &&& at + needle.len() <= hay.len()
    &&& hay.subrange(at, at + needle.len()) == needle
}

/// `needle` occurs somewhere in `hay`.
pub open spec fn contains(hay: Seq<u8>, needle: Seq<u8>) -> bool {
    exists|at: int| occurs_at(hay, needle, at)
}

/// `at` is the leftmost index at which `needle` occurs in `hay`.
pub open spec fn is_first_occurrence(hay: Seq<u8>, needle: Seq<u8>, at: int) -> bool {
    &&& occurs_at(hay, needle, at)
    &&& forall|earlier: int| 0 <= earlier < at ==> !occurs_at(hay, needle, earlier)
}

/// The leftmost index at which `needle` occurs in `hay`; meaningful only
/// when `contains(hay, needle)`.
pub open spec fn first_occurrence(hay: Seq<u8>, needle: Seq<u8>) -> int {
    choose|at: int| is_first_occurrence(hay, needle, at)
}

/// `s` without its trailing line feeds.
pub open spec fn trim_newlines(s: Seq<u8>) -> Seq<u8>
    decreases s.len(),
{
    if s.len() > 0 && s.last() == NEWLINE {
        trim_newlines(s.drop_last())
    } else {
        s
    }
}

/// The bytes that separate tokens: space and the control bytes from
/// horizontal tab through carriage return.
pub open spec fn is_space(b: u8) -> bool {
    b == 0x20 || (0x09 <= b && b <= 0x0d)
}

/// The first index at or after `from` that holds `sep`, or the length of `s`
/// when there is none.
pub open spec fn piece_end(s: Seq<u8>, sep: u8, from: int) -> int
    decreases s.len() - from,
{
    if from >= s.len() {
        s.len() as int
    } else if s[from] == sep {
        from
    } else {
        piece_end(s, sep, from + 1)
    }
}

/// The pieces of `s` between occurrences of `sep`, starting at index `from`.
/// A piece may be empty, and a text of length `n` read from `n` is one empty
/// piece.
pub open spec fn split_from(s: Seq<u8>, sep: u8, from: int) -> Seq<Seq<u8>>
    decreases s.len() + 1 - from,
{
    if 0 <= from <= s.len() {
        let end = piece_end(s, sep, from);
        if from <= end <= s.len() {
            seq![s.subrange(from, end)] + split_from(s, sep, end + 1)
        } else {
            Seq::empty()
        }
    } else {
        Seq::empty()
    }
}

/// The pieces of `s` between occurrences of `sep`.
pub open spec fn split(s: Seq<u8>, sep: u8) -> Seq<Seq<u8>> {
    split_from(s, sep, 0)
}

/// The first index at or after `from` that holds a non-space byte, or the
/// length of `s`.
pub open spec fn token_start(s: Seq<u8>, from: int) -> int
    decreases s.len() - from,
{
    if from >= s.len() {
        s.len() as int
    } else if !is_space(s[from]) {
        from
    } else {
        token_start(s, from + 1)
    }
}

/// The first index at or after `from` that holds a space byte, or the length
/// of `s`.
pub open spec fn token_end(s: Seq<u8>, from: int) -> int
    decreases s.len() - from,
{
    if from >= s.len() {
        s.len() as int
    } else if is_space(s[from]) {
        from
    } else {
        token_end(s, from + 1)
    }
}

/// The maximal runs of non-space bytes of `s` at or after index `from`, in
/// order.
pub open spec fn tokens_from(s: Seq<u8>, from: int) -> Seq<Seq<u8>>
    decreases s.len() - from,
{
    let start = token_start(s, from);
    if 0 <= from <= start < s.len() {
        let end = token_end(s, start);
        if start < end <= s.len() {
            seq![s.subrange(start, end)] + tokens_from(s, end)
        } else {
            Seq::empty()
        }
    } else {
        Seq::empty()
    }
}

/// The whitespace-separated tokens of `s`.
pub open spec fn tokens(s: Seq<u8>) -> Seq<Seq<u8>> {
    tokens_from(s, 0)
}

/// `piece_end` stays within the text and stops on a separator; no separator
/// lies before it.
pub proof fn lemma_piece_end(s: Seq<u8>, sep: u8, from: int)
    requires
        0 <= from <= s.len(),
    ensures
        from <= piece_end(s, sep, from) <= s.len(),
        piece_end(s, sep, from) < s.len() ==> s[piece_end(s, sep, from)] == sep,
        forall|i: int| from <= i < piece_end(s, sep, from) ==> s[i] != sep,
    decreases s.len() - from,
{
    if from < s.len() && s[from] != sep {
        lemma_piece_end(s, sep, from + 1);
    }
}

/// The pieces from `from` are the piece that starts there, then the pieces
/// after its separator; past the end of the text there is none.
pub proof fn lemma_split_step(s: Seq<u8>, sep: u8, from: int)
    requires
        0 <= from <= s.len(),
    ensures
        split_from(s, sep, from) == seq![s.subrange(from, piece_end(s, sep, from))] + split_from(
            s,
            sep,
            piece_end(s, sep, from) + 1,
        ),
        split_from(s, sep, (s.len() + 1) as int) == Seq::<Seq<u8>>::empty(),
{
    lemma_piece_end(s, sep, from);
}

/// `token_start` stays within the text and stops on a non-space byte; only
/// space bytes lie before it.
pub proof fn lemma_token_start(s: Seq<u8>, from: int)
    requires
        0 <= from <= s.len(),
    ensures
        from <= token_start(s, from) <= s.len(),
        token_start(s, from) < s.len() ==> !is_space(s[token_start(s, from)]),
        forall|i: int| from <= i < token_start(s, from) ==> is_space(s[i]),
    decreases s.len() - from,
{
    if from < s.len() && is_space(s[from]) {
        lemma_token_start(s, from + 1);
    }
}

/// `token_end` stays within the text and stops on a space byte; no space
/// byte lies before it.
pub proof fn lemma_token_end(s: Seq<u8>, from: int)
    requires
        0 <= from <= s.len(),
    ensures
        from <= token_end(s, from) <= s.len(),
        token_end(s, from) < s.len() ==> is_space(s[token_end(s, from)]),
        forall|i: int| from <= i < token_end(s, from) ==> !is_space(s[i]),
    decreases s.len() - from,
{
    if from < s.len() && !is_space(s[from]) {
        lemma_token_end(s, from + 1);
    }
}

/// The leftmost occurrence is unique, so `first_occurrence` names it.
pub proof fn lemma_first_occurrence_is(hay: Seq<u8>, needle: Seq<u8>, at: int)
    requires
        is_first_occurrence(hay, needle, at),
    ensures
        contains(hay, needle),
        first_occurrence(hay, needle) == at,
{
    let chosen = first_occurrence(hay, needle);
    assert(is_first_occurrence(hay, needle, chosen));
    if chosen < at {
        assert(!occurs_at(hay, needle, chosen));
    } else if at < chosen {
        assert(!occurs_at(hay, needle, at));
    }
}

/// Whether `needle` occurs in `hay` at index `at`.
pub fn matches_at(hay: &[u8], needle: &[u8], at: usize) -> (found: bool)
    requires
        at + needle@.len() <= hay@.len(),
    ensures
        found == occurs_at(hay@, needle@, at as int),
{
    let n: usize = needle.len();
    let h: usize = hay.len();
    let mut k: usize = 0;
    while k < n
        invariant
            n == needle@.len(),
            h == hay@.len(),
            at + n <= h,
            k <= n,
            forall|j: int| 0 <= j < k ==> hay@[at + j] == needle@[j],
        decreases n - k,
    {
        if hay[at + k] != needle[k] {
            assert(hay@.subrange(at as int, at + n)[k as int] != needle@[k as int]);
            return false;
        }
        k += 1;
    }
    assert(hay@.subrange(at as int, at + n) =~= needle@);
    true
}

/// The index of the leftmost occurrence of `needle` in `hay`.
pub fn find(hay: &[u8], needle: &[u8]) -> (found: Option<usize>)
    ensures
        match found {
            Some(at) => is_first_occurrence(hay@, needle@, at as int),
            None => !contains(hay@, needle@),
        },
{
    let n: usize = needle.len();
    let h: usize = hay.len();
    if n > h {
        return None;
    }
    let last: usize = h - n;
    let mut at: usize = 0;
    loop
        invariant
            n == needle@.len(),
            h == hay@.len(),
            last == h - n,
            at <= last,
            forall|j: int| 0 <= j < at ==> !occurs_at(hay@, needle@, j),
        decreases last - at,
    {
        if matches_at(hay, needle, at) {
            return Some(at);
        }
        if at == last {
            return None;
        }
        at += 1;
    }
}

/// The length of `data` without its trailing line feeds.
pub fn trimmed_len(data: &[u8]) -> (len: usize)
    ensures
        len <= data@.len(),
        data@.take(len as int) == trim_newlines(data@),
{
    let mut len: usize = data.len();
    assert(data@.take(len as int) =~= data@);
    while len > 0 && data[len - 1] == NEWLINE
        invariant
            len <= data@.len(),
            trim_newlines(data@) == trim_newlines(data@.take(len as int)),
        decreases len,
    {
        assert(data@.take(len as int).drop_last() =~= data@.take(len - 1));
        len -= 1;
    }
    len
}

/// The end of the piece that starts at `from`: the index of the next `sep`,
/// or the length of `data`.
pub fn find_piece_end(data: &[u8], sep: u8, from: usize) -> (end: usize)
    requires
        from <= data@.len(),
    ensures
        end == piece_end(data@, sep, from as int),
        from <= end <= data@.len(),
{
    let mut end: usize = from;
    while end < data.len() && data[end] != sep
        invariant
            from <= end <= data@.len(),
            piece_end(data@, sep, from as int) == piece_end(data@, sep, end as int),
        decreases data@.len() - end,
    {
        end += 1;
    }
    end
}

/// The start of the next token at or after `from`, or the length of `data`.
pub fn find_token_start(data: &[u8], from: usize) -> (start: usize)
    requires
        from <= data@.len(),
    ensures
        start == token_start(data@, from as int),
        from <= start <= data@.len(),
{
    let mut start: usize = from;
    while start < data.len() && is_space_byte(data[start])
        invariant
            from <= start <= data@.len(),
            token_start(data@, from as int) == token_start(data@, start as int),
        decreases data@.len() - start,
    {
        start += 1;
    }
    start
}

/// The end of the run of non-space bytes that starts at `from`.
pub fn find_token_end(data: &[u8], from: usize) -> (end: usize)
    requires
        from <= data@.len(),
    ensures
        end == token_end(data@, from as int),
        from <= end <= data@.len(),
{
    let mut end: usize = from;
    while end < data.len() && !is_space_byte(data[end])
        invariant
            from <= end <= data@.len(),
            token_end(data@, from as int) == token_end(data@, end as int),
        decreases data@.len() - end,
    {
        end += 1;
    }
    end
}

/// Appends `data` to `buffer`.
pub fn append_bytes(buffer: &mut Vec<u8>, data: &[u8])
    ensures
        final(buffer)@ == old(buffer)@ + data@,
{
    let len: usize = data.len();
    let mut i: usize = 0;
    while i < len
        invariant
            len == data@.len(),
            i <= len,
            buffer@ == old(buffer)@ + data@.take(i as int),
        decreases len - i,
    {
        buffer.push(data[i]);
        assert(data@.take(i as int).push(data@[i as int]) =~= data@.take(i + 1));
        i += 1;
    }
    assert(data@.take(len as int) =~= data@);
}

/// If `needle` occurs in `hay`, it has a leftmost occurrence, and
/// `first_occurrence` is its index.
pub proof fn lemma_first_occurrence(hay: Seq<u8>, needle: Seq<u8>)
    requires
        contains(hay, needle),
    ensures
        is_first_occurrence(hay, needle, first_occurrence(hay, needle)),
{
    let at = choose|at: int| occurs_at(hay, needle, at);
    lemma_leftmost_exists(hay, needle, at);
}

/// An occurrence at `at` implies a leftmost occurrence at or before it.
proof fn lemma_leftmost_exists(hay: Seq<u8>, needle: Seq<u8>, at: int)
    requires
        occurs_at(hay, needle, at),
    ensures
        exists|first: int| is_first_occurrence(hay, needle, first),
    decreases at,
{
    if exists|earlier: int| 0 <= earlier < at && occurs_at(hay, needle, earlier) {
        let earlier = choose|earlier: int| 0 <= earlier < at && occurs_at(hay, needle, earlier);
        lemma_leftmost_exists(hay, needle, earlier);
    } else {
        assert(is_first_occurrence(hay, needle, at));
    }
}

/// Text added after `hay` does not move the leftmost occurrence of a needle
/// that `hay` already holds, nor change what stands before it.
pub proof fn lemma_first_occurrence_extend(hay: Seq<u8>, more: Seq<u8>, needle: Seq<u8>)
    requires
        contains(hay, needle),
    ensures
        contains(hay + more, needle),
        first_occurrence(hay + more, needle) == first_occurrence(hay, needle),
        (hay + more).take(first_occurrence(hay + more, needle)) == hay.take(
            first_occurrence(hay, needle),
        ),
{
    lemma_first_occurrence(hay, needle);
    let at = first_occurrence(hay, needle);
    let longer = hay + more;
    assert(longer.subrange(at, at + needle.len()) =~= hay.subrange(at, at + needle.len()));
    assert forall|earlier: int| 0 <= earlier < at implies !occurs_at(longer, needle, earlier) by {
        assert(!occurs_at(hay, needle, earlier));
        assert(longer.subrange(earlier, earlier + needle.len()) =~= hay.subrange(
            earlier,
            earlier + needle.len(),
        ));
    }
    lemma_first_occurrence_is(longer, needle, at);
    assert(longer.take(at) =~= hay.take(at));
}

/// Whether `a` and `b` hold the same bytes.
pub fn same_bytes(a: &[u8], b: &[u8]) -> (same: bool)
    ensures
        same == (a@ == b@),
{
    if a.len() != b.len() {
        return false;
    }
    let same: bool = matches_at(a, b, 0);
    assert(a@.subrange(0, a@.len() as int) =~= a@);
    same
}

/// The next token of `data` at or after `from`, as its start and end, or
/// `None` when only space bytes are left.
pub fn next_token(data: &[u8], from: usize) -> (span: Option<(usize, usize)>)
    requires
        from <= data@.len(),
    ensures
        match span {
            Some((start, end)) => {
                &&& from <= start < end <= data@.len()
                &&& tokens_from(data@, from as int) == seq![
                    data@.subrange(start as int, end as int),
                ] + tokens_from(data@, end as int)
            },
            None => tokens_from(data@, from as int) == Seq::<Seq<u8>>::empty(),
        },
{
    let start: usize = find_token_start(data, from);
    if start >= data.len() {
        return None;
    }
    let end: usize = find_token_end(data, start);
    proof {
        lemma_token_start(data@, from as int);
        lemma_token_end(data@, start as int);
    }
    Some((start, end))
}

/// What `String::from_utf8_lossy` makes of `bytes`: the text they encode,
/// with U+FFFD in place of each malformed sequence.
pub uninterp spec fn lossy_text(bytes: Seq<u8>) -> Seq<char>;

/// Decodes `bytes` as UTF-8, replacing malformed sequences.
///
/// Calls `String::from_utf8_lossy`. Nothing is proved of the decoding: the
/// contract only names its result, which depends on the bytes alone.
#[verifier::external_body]
pub(crate) fn decode(bytes: &[u8]) -> (text: String)
    ensures
        text@ == lossy_text(bytes@),
{
    String::from_utf8_lossy(bytes).into_owned()
}

/// Whether `b` separates tokens.
pub fn is_space_byte(b: u8) -> (space: bool)
    ensures
        space == is_space(b),
{
    b == 0x20 || (0x09 <= b && b <= 0x0d)
}

} // verus!
