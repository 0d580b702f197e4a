//! Character boundaries in UTF-8 text, and the cut that keeps the body of
//! a summary within its length limit without splitting a character.

use vstd::prelude::*;
use vstd::string::*;
use vstd::utf8::*;

verus! {

/// The most units of encoded text that a summary body keeps.
pub const BODY_LIMIT: usize = 700;

/// The marker that follows a body that was cut short.
pub open spec fn ellipsis() -> Seq<char> {
    seq!['.', '.', '.']
}

/// The length of `text` in UTF-8 code units.
pub open spec fn encoded_len(text: Seq<char>) -> nat {
    encode_utf8(text).len()
}

/// `floor` is the largest character boundary of `bytes` at or before `index`,
/// or the length of `bytes` when `index` lies at or past the end.
pub open spec fn is_floor_boundary(bytes: Seq<u8>, index: int, floor: int) -> bool {
    if index >= bytes.len() {
        floor == bytes.len()
    } else {
        &&& 0 <= floor <= index
        &&& is_char_boundary(bytes, floor)
        &&& forall|j: int| floor < j <= index ==> !is_char_boundary(bytes, j)
    }
}

/// The first `k` characters of `text` fit within `limit` units and one more
/// character would not.
pub open spec fn is_cut(text: Seq<char>, limit: int, k: int) -> bool {
    &&& 0 <= k < text.len()
    &&& encoded_len(text.take(k)) <= limit < encoded_len(text.take(k + 1))
}

/// How many leading characters of `text` are kept when it has to be cut to
/// `limit` units.
pub open spec fn cut_point(text: Seq<char>, limit: int) -> int {
    choose|k: int| is_cut(text, limit, k)
}

/// The body of a summary: the content itself while it fits within
/// [`BODY_LIMIT`] units, else its longest prefix of whole characters that
/// fits, followed by the ellipsis.
pub open spec fn truncated_body(content: Seq<char>) -> Seq<char> {
    if encoded_len(content) <= BODY_LIMIT {
        content
    } else {
        content.take(cut_point(content, BODY_LIMIT as int)) + ellipsis()
    }
}

/// Whether `byte` continues a multi-byte character rather than starting one.
fn is_continuation(byte: u8) -> (r: bool)
    ensures
        r == is_continuation_byte(byte),
{
    0x80 <= byte && byte <= 0xbf
}

/// The index of the last character boundary of `s` that is not after `index`.
pub fn floor_char_boundary(s: &str, index: usize) -> (floor: usize)
    ensures
        is_floor_boundary(s.spec_bytes(), index as int, floor as int),
        floor <= s.spec_bytes().len(),
        index < s.spec_bytes().len() ==> index - floor <= 3,
{
    let bytes = s.as_bytes();
    if index >= bytes.len() {
        bytes.len()
    } else {
        proof {
            encode_utf8_valid_utf8(s@);
            lemma_boundary_within_three(bytes@, index as int);
        }
        let lower_bound = index.saturating_sub(3);
        let mut i = index;
        while i > lower_bound && is_continuation(bytes[i])
            invariant
                lower_bound <= i <= index < bytes@.len(),
                bytes@ == s.spec_bytes(),
                valid_utf8(bytes@),
                forall|j: int| i < j <= index ==> !is_char_boundary(bytes@, j),
            decreases i,
        {
            proof {
                is_char_boundary_iff_not_is_continuation_byte(bytes@, i as int);
            }
            i -= 1;
        }
        proof {
            is_char_boundary_iff_not_is_continuation_byte(bytes@, i as int);
        }
        i
    }
}

/// Cuts `content` to the body of a summary.
pub fn truncate_body(content: &str) -> (body: String)
    ensures
        body@ == truncated_body(content@),
{
    let cut = floor_char_boundary(content, BODY_LIMIT);
    if content.as_bytes().len() <= cut {
        content.to_owned()
    } else {
        let (head, tail) = content.split_at(cut);
        let mut body = head.to_owned();
        body.append("...");
        proof {
            reveal_strlit("...");
            assert("..."@ =~= ellipsis());
            let text = content@;
            let bytes = encode_utf8(text);
            let kept = head@.len() as int;
            encode_utf8_valid_utf8(text);
            decode_utf8_split(bytes, cut as int);
            encode_utf8_decode_utf8(text);
            encode_utf8_decode_utf8(head@);
            encode_utf8_decode_utf8(tail@);
            assert(text =~= head@ + tail@);
            assert(text.take(kept) =~= head@);
            if kept == text.len() {
                assert(text.take(kept) =~= text);
            }
            lemma_prefix_ends_on_boundary(text, kept + 1);
            lemma_encoded_len_of_prefixes(text, kept, kept + 1);
            assert(is_cut(text, BODY_LIMIT as int, kept));
            lemma_cut_is_unique(text, BODY_LIMIT as int, kept, cut_point(text, BODY_LIMIT as int));
        }
        body
    }
}

/// Content that fits within the limit is the body as it stands, with no
/// ellipsis added. Content of at most 700 characters that are all ASCII
/// is such content.
pub proof fn short_content_is_kept(content: Seq<char>)
    requires
        encoded_len(content) <= BODY_LIMIT || (content.len() <= BODY_LIMIT && is_ascii_chars(
            content,
        )),
    ensures
        truncated_body(content) == content,
{
    if is_ascii_chars(content) {
        is_ascii_chars_encode_utf8(content);
    }
}

/// Content of more than 700 characters, or of more than 700 units, gives a
/// body that ends in the ellipsis. Before the ellipsis stands a prefix of
/// whole characters of the content that fits within the limit, and that
/// would not fit with the next character added.
pub proof fn long_content_is_cut(content: Seq<char>)
    requires
        content.len() > BODY_LIMIT || encoded_len(content) > BODY_LIMIT,
    ensures
        is_cut(content, BODY_LIMIT as int, cut_point(content, BODY_LIMIT as int)),
        truncated_body(content) == content.take(cut_point(content, BODY_LIMIT as int))
            + ellipsis(),
        encoded_len(content.take(cut_point(content, BODY_LIMIT as int))) <= BODY_LIMIT,
        truncated_body(content).len() == cut_point(content, BODY_LIMIT as int) + 3,
        truncated_body(content).subrange(
            cut_point(content, BODY_LIMIT as int),
            truncated_body(content).len() as int,
        ) == ellipsis(),
{
    lemma_encoded_len_at_least_chars(content);
    assert(content.take(content.len() as int) =~= content);
    lemma_cut_exists(content, BODY_LIMIT as int, content.len() as int);
    let k = cut_point(content, BODY_LIMIT as int);
    let body = truncated_body(content);
    assert(body.subrange(k, body.len() as int) =~= ellipsis());
}

/// A body never takes more than the limit and the three units of the
/// ellipsis.
pub proof fn body_fits(content: Seq<char>)
    ensures
        encoded_len(truncated_body(content)) <= BODY_LIMIT + 3,
{
    if encoded_len(content) > BODY_LIMIT {
        long_content_is_cut(content);
        let kept = content.take(cut_point(content, BODY_LIMIT as int));
        lemma_encode_concat(kept, ellipsis());
        is_ascii_chars_encode_utf8(ellipsis());
    }
}

/// Encoding distributes over concatenation.
pub proof fn lemma_encode_concat(a: Seq<char>, b: Seq<char>)
    ensures
        encode_utf8(a + b) == encode_utf8(a) + encode_utf8(b),
    decreases a.len(),
{
    if a.len() == 0 {
        assert(a + b =~= b);
        assert(encode_utf8(a) + encode_utf8(b) =~= encode_utf8(b));
    } else {
        assert((a + b).drop_first() =~= a.drop_first() + b);
        lemma_encode_concat(a.drop_first(), b);
        assert(encode_utf8(a + b) =~= encode_utf8(a) + encode_utf8(b));
    }
}

/// Every character takes at least one unit, so text is never longer in
/// characters than in units.
pub proof fn lemma_encoded_len_at_least_chars(text: Seq<char>)
    ensures
        text.len() <= encoded_len(text),
    decreases text.len(),
{
    if text.len() > 0 {
        lemma_encoded_len_at_least_chars(text.drop_first());
    }
}

/// A longer prefix never encodes to fewer units, and a strictly longer one
/// encodes to more.
pub proof fn lemma_encoded_len_of_prefixes(text: Seq<char>, i: int, j: int)
    requires
        0 <= i <= j <= text.len(),
    ensures
        encoded_len(text.take(i)) <= encoded_len(text.take(j)),
        i < j ==> encoded_len(text.take(i)) < encoded_len(text.take(j)),
{
    let rest = text.subrange(i, j);
    assert(text.take(j) =~= text.take(i) + rest);
    lemma_encode_concat(text.take(i), rest);
    lemma_encoded_len_at_least_chars(rest);
}

/// The encoding of a prefix of whole characters ends on a character boundary
/// of the encoded text.
pub proof fn lemma_prefix_ends_on_boundary(text: Seq<char>, k: int)
    requires
        0 <= k <= text.len(),
    ensures
        is_char_boundary(encode_utf8(text), encoded_len(text.take(k)) as int),
    decreases k,
{
    let bytes = encode_utf8(text);
    encode_utf8_valid_utf8(text);
    if k == 0 {
        assert(text.take(0) =~= Seq::<char>::empty());
    } else {
        let tail = text.drop_first();
        encode_utf8_first_scalar(text);
        assert(pop_first_scalar(bytes) =~= encode_utf8(tail));
        lemma_prefix_ends_on_boundary(tail, k - 1);
        assert(text.take(k) =~= seq![text[0]] + tail.take(k - 1));
        lemma_encode_concat(seq![text[0]], tail.take(k - 1));
        assert(encode_utf8(seq![text[0]]) =~= encode_scalar(text[0] as u32)) by {
            reveal_with_fuel(encode_utf8, 2);
            assert(seq![text[0]].drop_first() =~= Seq::<char>::empty());
        }
        assert(tail.take(tail.len() as int) =~= tail);
        lemma_encoded_len_of_prefixes(tail, k - 1, tail.len() as int);
    }
}

/// At most one prefix is the cut of a text.
pub proof fn lemma_cut_is_unique(text: Seq<char>, limit: int, k1: int, k2: int)
    requires
        is_cut(text, limit, k1),
        is_cut(text, limit, k2),
    ensures
        k1 == k2,
{
    if k1 < k2 {
        lemma_encoded_len_of_prefixes(text, k1 + 1, k2);
    } else if k2 < k1 {
        lemma_encoded_len_of_prefixes(text, k2 + 1, k1);
    }
}

/// A text that does not fit within `limit` units has a cut.
pub proof fn lemma_cut_exists(text: Seq<char>, limit: int, upto: int)
    requires
        0 <= limit,
        0 <= upto <= text.len(),
        limit < encoded_len(text.take(upto)),
    ensures
        exists|k: int| k < upto && is_cut(text, limit, k),
    decreases upto,
{
    if upto == 0 {
        assert(text.take(0) =~= Seq::<char>::empty());
    } else if encoded_len(text.take(upto - 1)) <= limit {
        assert(is_cut(text, limit, upto - 1));
    } else {
        lemma_cut_exists(text, limit, upto - 1);
    }
}

/// In valid UTF-8 a character boundary lies at most three bytes before any
/// position inside the text.
pub proof fn lemma_boundary_within_three(bytes: Seq<u8>, index: int)
    requires
        valid_utf8(bytes),
        0 <= index < bytes.len(),
    ensures
        exists|j: int| 0 <= j <= index && index - j <= 3 && is_char_boundary(bytes, j),
    decreases bytes.len(),
{
    let first = length_of_first_scalar(bytes);
    if index < first {
        assert(is_char_boundary(bytes, 0));
    } else {
        let rest = pop_first_scalar(bytes);
        lemma_boundary_within_three(rest, index - first);
        let k = choose|k: int|
            0 <= k <= index - first && index - first - k <= 3 && is_char_boundary(rest, k);
        assert(is_char_boundary(bytes, k + first));
    }
}

} // verus!
