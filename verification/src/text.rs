//! Small operations on strings, stated over their characters.
use vstd::prelude::*;
use vstd::string::StringSliceAdditionalSpecFns;

verus! {

/// Whether two strings hold the same characters.
pub fn str_eq(a: &str, b: &str) -> (r: bool)
    ensures
        r == (a@ == b@),
{
    let x = a.as_bytes();
    let y = b.as_bytes();
    proof {
        vstd::utf8::encode_utf8_decode_utf8(a@);
        vstd::utf8::encode_utf8_decode_utf8(b@);
    }
    if x.len() != y.len() {
        return false;
    }
    let mut i: usize = 0;
    while i < x.len()
        invariant
            i <= x.len(),
            x.len() == y.len(),
            x@ == a.spec_bytes(),
            y@ == b.spec_bytes(),
            forall|j: int| 0 <= j < i ==> x@[j] == y@[j],
            a@ == vstd::utf8::decode_utf8(x@),
            b@ == vstd::utf8::decode_utf8(y@),
        decreases x.len() - i,
    {
        if x[i] != y[i] {
            return false;
        }
        i += 1;
    }
    assert(x@ =~= y@);
    true
}

/// `head` followed by `tail`.
pub fn concat_str(head: &str, tail: &str) -> (r: String)
    ensures
        r@ == head@ + tail@,
{
    let mut out = String::from_str(head);
    out.append(tail);
    out
}

/// The path of `name` inside the folder `parent`: the two joined by `/`.
pub open spec fn spec_join(parent: Seq<char>, name: Seq<char>) -> Seq<char> {
    parent + seq!['/'] + name
}

/// The path of `name` inside the folder `parent`.
pub fn join(parent: &str, name: &str) -> (r: String)
    ensures
        r@ == spec_join(parent@, name@),
{
    let mut out = String::from_str(parent);
    proof {
        reveal_strlit("/");
    }
    out.append("/");
    out.append(name);
    out
}

/// Whether `text` begins with `prefix`.
pub open spec fn spec_starts_with(text: Seq<char>, prefix: Seq<char>) -> bool {
    text.len() >= prefix.len() && text.subrange(0, prefix.len() as int) == prefix
}

/// Whether `text` begins with `prefix`.
pub fn starts_with(text: &str, prefix: &str) -> (r: bool)
    ensures
        r == spec_starts_with(text@, prefix@),
{
    let n = prefix.unicode_len();
    if text.unicode_len() < n {
        return false;
    }
    let mut i: usize = 0;
    while i < n
        invariant
            i <= n,
            n == prefix@.len(),
            n <= text@.len(),
            forall|j: int| 0 <= j < i ==> text@[j] == prefix@[j],
        decreases n - i,
    {
        if text.get_char(i) != prefix.get_char(i) {
            return false;
        }
        i += 1;
    }
    assert(text@.subrange(0, n as int) =~= prefix@);
    true
}

/// The characters of `text` from position `from` on.
pub fn skip(text: &str, from: usize) -> (r: String)
    requires
        from <= text@.len(),
    ensures
        r@ == text@.subrange(from as int, text@.len() as int),
{
    let n = text.unicode_len();
    String::from_str(text.substring_char(from, n))
}

/// The last `count` characters of `text`, or all of it if it has fewer.
pub open spec fn spec_tail(text: Seq<char>, count: nat) -> Seq<char> {
    if text.len() <= count {
        text
    } else {
        text.subrange(text.len() - count, text.len() as int)
    }
}

/// The last `count` characters of `text`, or all of it if it has fewer.
pub fn tail(text: &str, count: usize) -> (r: String)
    ensures
        r@ == spec_tail(text@, count as nat),
{
    let n = text.unicode_len();
    if n <= count {
        String::from_str(text)
    } else {
        skip(text, n - count)
    }
}

/// What follows the first `mark` in `text`, if `mark` occurs in it.
pub open spec fn spec_after_first(text: Seq<char>, mark: char) -> Option<Seq<char>>
    decreases text.len(),
{
    if text.len() == 0 {
        None
    } else if text[0] == mark {
        Some(text.drop_first())
    } else {
        spec_after_first(text.drop_first(), mark)
    }
}

/// Where `mark` first stands at position `at`, what follows it is the
/// rest of the text; where it stands nowhere, nothing follows it.
pub proof fn lemma_after_first(text: Seq<char>, mark: char, at: int)
    requires
        0 <= at <= text.len(),
        forall|j: int| 0 <= j < at ==> text[j] != mark,
        at < text.len() ==> text[at] == mark,
    ensures
        at < text.len() ==> spec_after_first(text, mark) == Some(
            text.subrange(at + 1, text.len() as int),
        ),
        at == text.len() ==> spec_after_first(text, mark) is None,
    decreases at,
{
    if text.len() == 0 {
    } else if at == 0 {
    } else {
        let rest = text.drop_first();
        assert forall|j: int| 0 <= j < at - 1 implies rest[j] != mark by {
        }
        lemma_after_first(rest, mark, at - 1);
        if at < text.len() {
        }
    }
}

/// What follows the first `mark` in `text`, if `mark` occurs in it.
pub fn after_first(text: &str, mark: char) -> (r: Option<String>)
    ensures
        r is Some <==> spec_after_first(text@, mark) is Some,
        r matches Some(rest) ==> Some(rest@) == spec_after_first(text@, mark),
{
    let n = text.unicode_len();
    let mut i: usize = 0;
    for c in it: text.chars()
        invariant
            it.seq() == text@,
            i == it.index(),
            n == text@.len(),
            forall|j: int| 0 <= j < i ==> text@[j] != mark,
    {
        if c == mark {
            proof {
                lemma_after_first(text@, mark, i as int);
            }
            return Some(skip(text, i + 1));
        }
        i += 1;
    }
    proof {
        lemma_after_first(text@, mark, n as int);
    }
    None
}

/// Whether a byte is white space of ASCII: a blank, a tab, a line feed,
/// a form feed or a carriage return.
pub open spec fn spec_is_ascii_whitespace(byte: u8) -> bool {
    byte == 0x20 || byte == 0x09 || byte == 0x0A || byte == 0x0C || byte == 0x0D
}

/// Whether a byte is white space of ASCII.
pub fn is_ascii_whitespace(byte: u8) -> (r: bool)
    ensures
        r == spec_is_ascii_whitespace(byte),
{
    byte == 0x20 || byte == 0x09 || byte == 0x0A || byte == 0x0C || byte == 0x0D
}

/// `bytes` without the white space at its start.
pub open spec fn spec_trim_start(bytes: Seq<u8>) -> Seq<u8>
    decreases bytes.len(),
{
    if bytes.len() > 0 && spec_is_ascii_whitespace(bytes[0]) {
        spec_trim_start(bytes.drop_first())
    } else {
        bytes
    }
}

/// `bytes` without the white space at its end.
pub open spec fn spec_trim_end(bytes: Seq<u8>) -> Seq<u8>
    decreases bytes.len(),
{
    if bytes.len() > 0 && spec_is_ascii_whitespace(bytes.last()) {
        spec_trim_end(bytes.drop_last())
    } else {
        bytes
    }
}

/// `bytes` without the white space at its start and at its end.
pub open spec fn spec_trim_ascii(bytes: Seq<u8>) -> Seq<u8> {
    spec_trim_end(spec_trim_start(bytes))
}

/// Where the first byte that is no white space stands at `at`, trimming
/// the start leaves what begins there.
proof fn lemma_trim_start(bytes: Seq<u8>, at: int)
    requires
        0 <= at <= bytes.len(),
        forall|j: int| 0 <= j < at ==> spec_is_ascii_whitespace(bytes[j]),
        at < bytes.len() ==> !spec_is_ascii_whitespace(bytes[at]),
    ensures
        spec_trim_start(bytes) == bytes.subrange(at, bytes.len() as int),
    decreases at,
{
    if at == 0 {
    } else {
        let rest = bytes.drop_first();
        assert forall|j: int| 0 <= j < at - 1 implies spec_is_ascii_whitespace(rest[j]) by {
        }
        lemma_trim_start(rest, at - 1);
    }
}

/// Where the last byte that is no white space stands before `at`,
/// trimming the end leaves what ends there.
proof fn lemma_trim_end(bytes: Seq<u8>, at: int)
    requires
        0 <= at <= bytes.len(),
        forall|j: int| at <= j < bytes.len() ==> spec_is_ascii_whitespace(bytes[j]),
        at > 0 ==> !spec_is_ascii_whitespace(bytes[at - 1]),
    ensures
        spec_trim_end(bytes) == bytes.subrange(0, at),
    decreases bytes.len() - at,
{
    if at == bytes.len() {
    } else {
        let rest = bytes.drop_last();
        lemma_trim_end(rest, at);
    }
}

/// `bytes` without the white space at its start and at its end.
pub fn trim_ascii(bytes: &[u8]) -> (r: &[u8])
    ensures
        r@ == spec_trim_ascii(bytes@),
{
    let n = bytes.len();
    let mut start: usize = 0;
    while start < n && is_ascii_whitespace(bytes[start])
        invariant
            start <= n,
            n == bytes@.len(),
            forall|j: int| 0 <= j < start ==> spec_is_ascii_whitespace(bytes@[j]),
        decreases n - start,
    {
        start += 1;
    }
    proof {
        lemma_trim_start(bytes@, start as int);
    }
    let rest = vstd::slice::slice_subrange(bytes, start, n);
    let mut end: usize = rest.len();
    while end > 0 && is_ascii_whitespace(rest[end - 1])
        invariant
            end <= rest@.len(),
            forall|j: int| end <= j < rest@.len() ==> spec_is_ascii_whitespace(rest@[j]),
        decreases end,
    {
        end -= 1;
    }
    proof {
        lemma_trim_end(rest@, end as int);
    }
    vstd::slice::slice_subrange(rest, 0, end)
}

} // verus!
