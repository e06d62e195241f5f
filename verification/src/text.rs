//! Text measures and cuts: white space, the size of a text in bytes, and the
//! short form in which a status is displayed.

use vstd::prelude::*;
use vstd::string::*;
use vstd::utf8::*;

verus! {

/// The most bytes of a status that are displayed as they are.
pub const MAX_STATUS_BYTES: usize = 256;

/// What stands at the end of a status that was cut.
pub const ELLIPSIS: &'static str = "...";

/// The characters with Unicode's `White_Space` property.
pub open spec fn white_space(c: char) -> bool {
    let u = c as u32;
    ||| 0x9 <= u <= 0xd
    ||| u == 0x20
    ||| u == 0x85
    ||| u == 0xa0
    ||| u == 0x1680
    ||| 0x2000 <= u <= 0x200a
    ||| u == 0x2028
    ||| u == 0x2029
    ||| u == 0x202f
    ||| u == 0x205f
    ||| u == 0x3000
}

/// Whether nothing but white space stands in `s`.
pub open spec fn blank(s: Seq<char>) -> bool {
    forall|i: int| 0 <= i < s.len() ==> white_space(#[trigger] s[i])
}

/// The size of `s` in bytes, as UTF-8.
pub open spec fn byte_len(s: Seq<char>) -> nat {
    encode_utf8(s).len()
}

/// The longest prefix of `s` that takes at most `limit` bytes.
pub open spec fn longest_fit(s: Seq<char>, limit: nat) -> Seq<char>
    decreases s.len(),
{
    if s.len() == 0 || byte_len(s) <= limit {
        s
    } else {
        longest_fit(s.drop_last(), limit)
    }
}

/// Where the last white space of `s` stands, if it has any.
pub open spec fn last_white_space(s: Seq<char>) -> Option<int>
    decreases s.len(),
{
    if s.len() == 0 {
        None
    } else if white_space(s.last()) {
        Some(s.len() - 1)
    } else {
        last_white_space(s.drop_last())
    }
}

/// What of `s` comes before its last white space; all of `s` where it has none.
pub open spec fn before_last_white_space(s: Seq<char>) -> Seq<char> {
    match last_white_space(s) {
        Some(i) => s.take(i),
        None => s,
    }
}

/// The form in which the status `s` is displayed: `s` itself where it is short
/// enough; else as much of it as fits, cut back to a word boundary, and an
/// ellipsis.
pub open spec fn displayed(s: Seq<char>) -> Seq<char> {
    if byte_len(s) <= MAX_STATUS_BYTES {
        s
    } else {
        before_last_white_space(longest_fit(s, MAX_STATUS_BYTES as nat)) + ELLIPSIS@
    }
}

/// The number of bytes that `c` takes in UTF-8.
fn char_width(c: char) -> (width: usize)
    ensures
        width == byte_len(seq![c]),
        1 <= width <= 4,
{
    proof {
        lemma_byte_len_one(c);
    }
    let u: u32 = c as u32;
    if u < 0x80 {
        1
    } else if u < 0x800 {
        2
    } else if u < 0x10000 {
        3
    } else {
        4
    }
}

/// Whether `c` is white space.
pub fn is_white_space(c: char) -> (res: bool)
    ensures
        res == white_space(c),
{
    let u: u32 = c as u32;
    (0x9 <= u && u <= 0xd) || u == 0x20 || u == 0x85 || u == 0xa0 || u == 0x1680 || (0x2000 <= u
        && u <= 0x200a) || u == 0x2028 || u == 0x2029 || u == 0x202f || u == 0x205f || u == 0x3000
}

/// Whether nothing but white space stands in `s`.
pub fn is_blank(s: &str) -> (res: bool)
    ensures
        res == blank(s@),
{
    for c in it: s.chars()
        invariant
            it.seq() == s@,
            forall|i: int| 0 <= i < it.index() ==> white_space(#[trigger] s@[i]),
    {
        if !is_white_space(c) {
            assert(!white_space(s@[it.index() as int]));
            return false;
        }
    }
    true
}

/// The form in which the status `s` is displayed.
pub fn cap_status(s: &str) -> (res: String)
    ensures
        res@ == displayed(s@),
{
    if s.as_bytes().len() > MAX_STATUS_BYTES {
        let cut: usize = cut_position(s);
        let mut res = s.substring_char(0, cut).to_string();
        res.append(ELLIPSIS);
        res
    } else {
        s.to_string()
    }
}

/// How many characters of a status that is too long are displayed.
fn cut_position(s: &str) -> (cut: usize)
    requires
        byte_len(s@) > MAX_STATUS_BYTES,
    ensures
        cut <= s@.len(),
        s@.subrange(0, cut as int) == before_last_white_space(
            longest_fit(s@, MAX_STATUS_BYTES as nat),
        ),
{
    let mut count: usize = 0;
    let mut size: usize = 0;
    let mut space: Option<usize> = None;
    assert(s@.take(0) =~= Seq::<char>::empty());
    for c in it: s.chars()
        invariant
            it.seq() == s@,
            byte_len(s@) > MAX_STATUS_BYTES,
            count == it.index(),
            count <= size <= MAX_STATUS_BYTES,
            size == byte_len(s@.take(count as int)),
            match space {
                Some(i) => last_white_space(s@.take(count as int)) == Some(i as int),
                None => last_white_space(s@.take(count as int)) is None,
            },
    {
        let ghost head = s@.take(count as int);
        assert(s@.take(count + 1) =~= head + seq![c]);
        let width: usize = char_width(c);
        proof {
            lemma_byte_len_concat(head, seq![c]);
        }
        if size + width > MAX_STATUS_BYTES {
            proof {
                lemma_longest_fit(s@, MAX_STATUS_BYTES as nat, count as int);
                lemma_last_white_space(head);
            }
            return match space {
                Some(i) => {
                    assert(head.take(i as int) =~= s@.subrange(0, i as int));
                    i
                },
                None => count,
            };
        }
        if is_white_space(c) {
            space = Some(count);
        }
        assert((head + seq![c]).drop_last() =~= head);
        size = size + width;
        count = count + 1;
    }
    // A status that is too long is left before its end.
    assert(s@.take(s@.len() as int) =~= s@);
    0
}

/// A prefix that fits, and would not with one character more, is the longest
/// one that fits.
pub proof fn lemma_longest_fit(s: Seq<char>, limit: nat, n: int)
    requires
        0 <= n < s.len(),
        byte_len(s.take(n)) <= limit,
        limit < byte_len(s.take(n + 1)),
    ensures
        longest_fit(s, limit) == s.take(n),
    decreases s.len(),
{
    assert(s =~= s.take(n + 1) + s.skip(n + 1));
    lemma_byte_len_concat(s.take(n + 1), s.skip(n + 1));
    let shorter = s.drop_last();
    if n + 1 == s.len() {
        assert(shorter =~= s.take(n));
        assert(longest_fit(shorter, limit) == shorter);
    } else {
        assert(shorter.take(n) =~= s.take(n));
        assert(shorter.take(n + 1) =~= s.take(n + 1));
        lemma_longest_fit(shorter, limit, n);
    }
}

/// The longest prefix that fits is a prefix, it fits, and it would not with one
/// character more.
pub proof fn lemma_longest_fit_is_maximal(s: Seq<char>, limit: nat)
    ensures
        longest_fit(s, limit).len() <= s.len(),
        longest_fit(s, limit) == s.take(longest_fit(s, limit).len() as int),
        byte_len(longest_fit(s, limit)) <= limit,
        byte_len(s) > limit ==> {
            let n = longest_fit(s, limit).len() as int;
            n < s.len() && byte_len(s.take(n + 1)) > limit
        },
    decreases s.len(),
{
    if s.len() == 0 || byte_len(s) <= limit {
        assert(s.take(s.len() as int) =~= s);
    } else {
        let shorter = s.drop_last();
        lemma_longest_fit_is_maximal(shorter, limit);
        let n = longest_fit(s, limit).len() as int;
        assert(shorter.take(n) =~= s.take(n));
        if byte_len(shorter) <= limit {
            assert(s.take(n + 1) =~= s);
        } else {
            assert(shorter.take(n + 1) =~= s.take(n + 1));
        }
    }
}

/// An ellipsis takes three bytes.
pub proof fn lemma_ellipsis_size()
    ensures
        byte_len(ELLIPSIS@) == 3,
{
    reveal_strlit("...");
    is_ascii_chars_encode_utf8(ELLIPSIS@);
}

/// The last white space of a text stands in it, and none stands after it.
pub proof fn lemma_last_white_space(s: Seq<char>)
    ensures
        match last_white_space(s) {
            Some(i) => {
                &&& 0 <= i < s.len()
                &&& white_space(s[i])
                &&& forall|j: int| i < j < s.len() ==> !white_space(#[trigger] s[j])
            },
            None => forall|j: int| 0 <= j < s.len() ==> !white_space(#[trigger] s[j]),
        },
    decreases s.len(),
{
    if s.len() != 0 && !white_space(s.last()) {
        let shorter = s.drop_last();
        lemma_last_white_space(shorter);
        assert forall|j: int|
            0 <= j < s.len() && (last_white_space(s) matches Some(i) ==> i < j) implies !white_space(
            #[trigger] s[j],
        ) by {
            if j < shorter.len() {
                assert(s[j] == shorter[j]);
            }
        }
    }
}

/// The size of the encoding of one character.
proof fn lemma_byte_len_one(c: char)
    ensures
        byte_len(seq![c]) == encode_scalar(c as u32).len(),
{
    assert(seq![c].drop_first() =~= Seq::<char>::empty());
    assert(encode_utf8(Seq::<char>::empty()).len() == 0);
}

/// The size of a text is the sum of the sizes of its two parts.
pub proof fn lemma_byte_len_concat(a: Seq<char>, b: Seq<char>)
    ensures
        byte_len(a + b) == byte_len(a) + byte_len(b),
    decreases a.len(),
{
    if a.len() == 0 {
        assert(a + b =~= b);
    } else {
        assert((a + b).drop_first() =~= a.drop_first() + b);
        lemma_byte_len_concat(a.drop_first(), b);
    }
}

} // verus!
