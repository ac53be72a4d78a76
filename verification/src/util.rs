use vstd::prelude::*;

verus! {

/// Number of base-10 digits needed to right-align the 1-based line number
/// `n`; zero is given width 1.
pub open spec fn spec_digits(n: nat) -> nat
    decreases n,
{
    if n < 10 {
        1
    } else {
        1 + spec_digits(n / 10)
    }
}

pub open spec fn pow10(k: nat) -> nat
    decreases k,
{
    if k == 0 {
        1
    } else {
        10 * pow10((k - 1) as nat)
    }
}

proof fn lemma_digits_bounded(n: nat, k: nat)
    requires
        k >= 1,
        n < pow10(k),
    ensures
        spec_digits(n) <= k,
    decreases n,
{
    if n >= 10 {
        assert(pow10(k) == 10 * pow10((k - 1) as nat));
        assert(n / 10 < pow10((k - 1) as nat));
        lemma_digits_bounded(n / 10, (k - 1) as nat);
    }
}

/// Width of the line-number gutter for a preview of `n` lines.
pub fn digits(n: usize) -> (r: usize)
    ensures
        r == spec_digits(n as nat),
{
    proof {
        assert(pow10(20) == 100000000000000000000) by {
            reveal_with_fuel(pow10, 21);
        }
        lemma_digits_bounded(n as nat, 20);
    }
    let mut m: usize = n;
    let mut r: usize = 1;
    while m >= 10
        invariant
            r >= 1,
            r - 1 + spec_digits(m as nat) == spec_digits(n as nat),
            spec_digits(n as nat) <= 20,
        decreases m,
    {
        m = m / 10;
        r = r + 1;
    }
    r
}

/// True of content types in the `text/` family, which are previewed as text.
pub open spec fn is_text_type(ct: Seq<char>) -> bool {
    ct.len() >= 5 && ct[0] == 't' && ct[1] == 'e' && ct[2] == 'x' && ct[3] == 't' && ct[4] == '/'
}

pub fn is_text_content_type(ct: &str) -> (r: bool)
    ensures
        r == is_text_type(ct@),
{
    let n = ct.unicode_len();
    if n < 5 {
        return false;
    }
    ct.get_char(0) == 't' && ct.get_char(1) == 'e' && ct.get_char(2) == 'x' && ct.get_char(3)
        == 't' && ct.get_char(4) == '/'
}

/// The preview bytes with exactly one trailing line terminator removed
/// (never more: trailing blank lines before it are kept).
pub open spec fn strip_one_newline(b: Seq<u8>) -> Seq<u8> {
    if b.len() > 0 && b.last() == 10u8 {
        b.drop_last()
    } else {
        b
    }
}

pub fn strip_one_trailing_newline(bytes: &[u8]) -> (r: &[u8])
    ensures
        r@ == strip_one_newline(bytes@),
{
    let n = bytes.len();
    if n > 0 && bytes[n - 1] == 10u8 {
        let r = vstd::slice::slice_subrange(bytes, 0, n - 1);
        proof {
            assert(r@ =~= strip_one_newline(bytes@));
        }
        r
    } else {
        let r = vstd::slice::slice_subrange(bytes, 0, n);
        proof {
            assert(r@ =~= strip_one_newline(bytes@));
        }
        r
    }
}

/// Index of the first line terminator in `b`, or -1 if there is none.
pub open spec fn first_newline(b: Seq<u8>) -> int
    decreases b.len(),
{
    if b.len() == 0 {
        -1
    } else if b[0] == 10u8 {
        0
    } else if first_newline(b.drop_first()) < 0 {
        -1
    } else {
        1 + first_newline(b.drop_first())
    }
}

proof fn lemma_first_newline_props(b: Seq<u8>)
    ensures
        -1 <= first_newline(b) < b.len(),
        first_newline(b) >= 0 ==> b[first_newline(b)] == 10u8,
        forall|j: int| 0 <= j < first_newline(b) ==> b[j] != 10u8,
        first_newline(b) == -1 ==> forall|j: int| 0 <= j < b.len() ==> b[j] != 10u8,
    decreases b.len(),
{
    if b.len() == 0 {
    } else if b[0] == 10u8 {
    } else {
        let rest = b.drop_first();
        lemma_first_newline_props(rest);
        assert forall|j: int| 0 <= j < first_newline(b) implies b[j] != 10u8 by {
            if j > 0 {
                assert(rest[j - 1] == b[j]);
            }
        }
        if first_newline(b) == -1 {
            assert forall|j: int| 0 <= j < b.len() implies b[j] != 10u8 by {
                if j > 0 {
                    assert(rest[j - 1] == b[j]);
                }
            }
        }
    }
}

proof fn lemma_first_newline_at(b: Seq<u8>, i: int)
    requires
        0 <= i < b.len(),
        b[i] == 10u8,
        forall|j: int| 0 <= j < i ==> b[j] != 10u8,
    ensures
        first_newline(b) == i,
{
    lemma_first_newline_props(b);
    let k = first_newline(b);
    if k == -1 {
        assert(b[i] != 10u8);
    } else if k < i {
        assert(b[k] != 10u8);
    } else if k > i {
        assert(b[i] != 10u8);
    }
}

/// The line-terminator-delimited segments of `b`: splitting on each
/// terminator, so an empty sequence yields one empty segment.
pub open spec fn split_lines(b: Seq<u8>) -> Seq<Seq<u8>>
    decreases b.len(),
    via split_lines_decreases
{
    let i = first_newline(b);
    if i < 0 {
        seq![b]
    } else {
        seq![b.take(i)] + split_lines(b.skip(i + 1))
    }
}

#[via_fn]
proof fn split_lines_decreases(b: Seq<u8>) {
    lemma_first_newline_props(b);
}

proof fn lemma_split_at_newline(b: Seq<u8>, i: int)
    requires
        0 <= i < b.len(),
        b[i] == 10u8,
        forall|j: int| 0 <= j < i ==> b[j] != 10u8,
    ensures
        split_lines(b) == seq![b.take(i)] + split_lines(b.skip(i + 1)),
{
    lemma_first_newline_at(b, i);
}

proof fn lemma_split_no_newline(b: Seq<u8>)
    requires
        forall|j: int| 0 <= j < b.len() ==> b[j] != 10u8,
    ensures
        split_lines(b) == seq![b],
{
    lemma_first_newline_props(b);
    if first_newline(b) >= 0 {
        assert(b[first_newline(b)] == 10u8);
    }
}

/// How many line terminators `b` holds.
pub open spec fn count_newlines(b: Seq<u8>) -> nat
    decreases b.len(),
{
    if b.len() == 0 {
        0
    } else {
        count_newlines(b.drop_last()) + if b.last() == 10u8 {
            1nat
        } else {
            0nat
        }
    }
}

proof fn lemma_count_newlines_zero(b: Seq<u8>)
    requires
        forall|j: int| 0 <= j < b.len() ==> b[j] != 10u8,
    ensures
        count_newlines(b) == 0,
    decreases b.len(),
{
    if b.len() > 0 {
        lemma_count_newlines_zero(b.drop_last());
    }
}

proof fn lemma_count_newlines_concat(a: Seq<u8>, b: Seq<u8>)
    ensures
        count_newlines(a + b) == count_newlines(a) + count_newlines(b),
    decreases b.len(),
{
    if b.len() == 0 {
        assert(a + b =~= a);
    } else {
        lemma_count_newlines_concat(a, b.drop_last());
        assert((a + b).drop_last() =~= a + b.drop_last());
        assert((a + b).last() == b.last());
    }
}

/// Splitting yields exactly one segment more than there are terminators.
pub proof fn lemma_split_lines_count(b: Seq<u8>)
    ensures
        split_lines(b).len() == count_newlines(b) + 1,
    decreases b.len(),
{
    lemma_first_newline_props(b);
    let i = first_newline(b);
    if i < 0 {
        lemma_count_newlines_zero(b);
    } else {
        lemma_split_lines_count(b.skip(i + 1));
        assert(b =~= b.take(i + 1) + b.skip(i + 1));
        lemma_count_newlines_concat(b.take(i + 1), b.skip(i + 1));
        assert(b.take(i + 1).drop_last() =~= b.take(i));
        assert(b.take(i + 1).last() == b[i]);
        lemma_count_newlines_zero(b.take(i));
    }
}

/// Splits raw bytes into the byte segments between line terminators.
pub fn split_into_lines(bytes: &[u8]) -> (lines: Vec<Vec<u8>>)
    ensures
        lines@.map_values(|l: Vec<u8>| l@) == split_lines(bytes@),
{
    let n = bytes.len();
    let mut lines: Vec<Vec<u8>> = Vec::new();
    let mut start: usize = 0;
    let mut i: usize = 0;
    proof {
        assert(bytes@.skip(0) =~= bytes@);
        assert(lines@.map_values(|l: Vec<u8>| l@) + split_lines(bytes@) =~= split_lines(bytes@));
    }
    while i < n
        invariant
            n == bytes@.len(),
            start <= i <= n,
            forall|j: int| start <= j < i ==> bytes@[j] != 10u8,
            split_lines(bytes@) == lines@.map_values(|l: Vec<u8>| l@) + split_lines(
                bytes@.skip(start as int),
            ),
        decreases n - i,
    {
        if bytes[i] == 10u8 {
            let seg = vstd::slice::slice_to_vec(vstd::slice::slice_subrange(bytes, start, i));
            proof {
                let suffix = bytes@.skip(start as int);
                assert forall|j: int| 0 <= j < i - start implies suffix[j] != 10u8 by {
                    assert(suffix[j] == bytes@[start + j]);
                }
                assert(suffix[i - start] == bytes@[i as int]);
                lemma_split_at_newline(suffix, i - start);
                assert(suffix.take(i - start) =~= bytes@.subrange(start as int, i as int));
                assert(suffix.skip(i - start + 1) =~= bytes@.skip(i + 1));
                assert(lines@.push(seg).map_values(|l: Vec<u8>| l@) =~= lines@.map_values(
                    |l: Vec<u8>| l@,
                ).push(seg@));
                assert(lines@.map_values(|l: Vec<u8>| l@).push(seg@) + split_lines(
                    bytes@.skip(i + 1),
                ) =~= lines@.map_values(|l: Vec<u8>| l@) + (seq![seg@] + split_lines(
                    bytes@.skip(i + 1),
                )));
            }
            lines.push(seg);
            start = i + 1;
        }
        i = i + 1;
    }
    let tail = vstd::slice::slice_to_vec(vstd::slice::slice_subrange(bytes, start, n));
    proof {
        let suffix = bytes@.skip(start as int);
        assert forall|j: int| 0 <= j < suffix.len() implies suffix[j] != 10u8 by {
            assert(suffix[j] == bytes@[start + j]);
        }
        lemma_split_no_newline(suffix);
        assert(tail@ =~= suffix);
        assert(lines@.push(tail).map_values(|l: Vec<u8>| l@) =~= lines@.map_values(
            |l: Vec<u8>| l@,
        ).push(tail@));
        assert(lines@.map_values(|l: Vec<u8>| l@).push(suffix) =~= lines@.map_values(
            |l: Vec<u8>| l@,
        ) + seq![suffix]);
    }
    lines.push(tail);
    lines
}

/// What `String::from_utf8_lossy` makes of a byte sequence; it depends on
/// the bytes alone.
pub uninterp spec fn decoded(bytes: Seq<u8>) -> Seq<char>;

/// Relies on String::from_utf8_lossy: decodes bytes as UTF-8, substituting
/// the replacement character for invalid sequences; a pure function of the
/// bytes.
#[verifier::external_body]
fn decode_utf8_lossy(bytes: &Vec<u8>) -> (r: String)
    ensures
        r@ == decoded(bytes@),
{
    String::from_utf8_lossy(bytes.as_slice()).into_owned()
}

/// The one display line shown in place of content that is not text.
pub open spec fn placeholder_text() -> Seq<char> {
    "(no preview for this content type)"@
}

/// The display lines derived from raw bytes and a declared content type:
/// text content is decoded, stripped of at most one trailing terminator and
/// split on terminators; anything else becomes a one-line placeholder.
pub open spec fn preview_lines_of(bytes: Seq<u8>, content_type: Seq<char>) -> Seq<Seq<char>> {
    if is_text_type(content_type) {
        split_lines(strip_one_newline(bytes)).map_values(|l: Seq<u8>| decoded(l))
    } else {
        seq![placeholder_text()]
    }
}

/// Non-empty text content yields exactly one display line per
/// line-terminator-delimited segment: one more than the number of
/// terminators left after stripping at most one trailing terminator.
pub proof fn lemma_text_preview_line_count(bytes: Seq<u8>, content_type: Seq<char>)
    requires
        is_text_type(content_type),
        bytes.len() > 0,
    ensures
        preview_lines_of(bytes, content_type).len() == split_lines(
            strip_one_newline(bytes),
        ).len(),
        preview_lines_of(bytes, content_type).len() == count_newlines(strip_one_newline(bytes))
            + 1,
{
    lemma_split_lines_count(strip_one_newline(bytes));
}

pub fn to_preview_lines(bytes: &[u8], content_type: &str) -> (lines: Vec<String>)
    ensures
        lines@.map_values(|s: String| s@) == preview_lines_of(bytes@, content_type@),
        lines@.len() >= 1,
{
    if is_text_content_type(content_type) {
        let stripped = strip_one_trailing_newline(bytes);
        let segs = split_into_lines(stripped);
        let ghost target = split_lines(strip_one_newline(bytes@)).map_values(
            |l: Seq<u8>| decoded(l),
        );
        let mut out: Vec<String> = Vec::new();
        let mut k: usize = 0;
        while k < segs.len()
            invariant
                k <= segs@.len(),
                segs@.map_values(|l: Vec<u8>| l@) == split_lines(strip_one_newline(bytes@)),
                target == split_lines(strip_one_newline(bytes@)).map_values(
                    |l: Seq<u8>| decoded(l),
                ),
                out@.map_values(|s: String| s@) == target.take(k as int),
            decreases segs@.len() - k,
        {
            let line = decode_utf8_lossy(&segs[k]);
            proof {
                assert(segs@.map_values(|l: Vec<u8>| l@)[k as int] == segs@[k as int]@);
                assert(out@.push(line).map_values(|s: String| s@) =~= out@.map_values(
                    |s: String| s@,
                ).push(line@));
                assert(target.take(k as int).push(target[k as int]) =~= target.take(k + 1));
            }
            out.push(line);
            k = k + 1;
        }
        proof {
            assert(target.take(k as int) =~= target);
        }
        out
    } else {
        let mut out: Vec<String> = Vec::new();
        let line = placeholder_line();
        proof {
            assert(out@.push(line).map_values(|s: String| s@) =~= seq![placeholder_text()]);
        }
        out.push(line);
        out
    }
}

fn placeholder_line() -> (r: String)
    ensures
        r@ == placeholder_text(),
{
    let r: String = "(no preview for this content type)".to_owned();
    r
}

} // verus!
