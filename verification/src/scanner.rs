//! Lexical scanning: raw source text to an ordered table of trimmed,
//! comment-free source lines.
//!
//! The source is split on newline bytes. Each physical line is trimmed,
//! truncated at the first `;`, and trimmed again; lines that end up empty
//! are dropped. Line numbers count every physical line, dropped ones
//! included, so reported errors match the original file.
//!
//! The scanner reads the source byte by byte: trimming removes the six
//! ASCII whitespace bytes and nothing else, so multi-byte whitespace
//! characters of a UTF-8 source are ordinary text to it.

use vstd::prelude::*;

use crate::strings::find_byte;
use crate::strings::lemma_before_idx;
use crate::strings::spec_before;
use crate::strings::spec_split;
use crate::strings::split_bytes;
use crate::strings::sub_vec;

verus! {

/// One surviving source line: its trimmed text and its 1-based number.
pub struct SourceLine {
    pub line: Vec<u8>,
    pub line_number: u16,
}

impl View for SourceLine {
    type V = (Seq<u8>, u16);

    open spec fn view(&self) -> (Seq<u8>, u16) {
        (self.line@, self.line_number)
    }
}

pub type SourceTable = Vec<SourceLine>;

/// The scanner's view of a finished table.
pub open spec fn lines_view(t: Seq<SourceLine>) -> Seq<(Seq<u8>, u16)> {
    t.map_values(|sl: SourceLine| sl@)
}

/// ASCII whitespace as line trimming sees it.
pub open spec fn spec_is_ws(b: u8) -> bool {
    b == 0x20 || b == 0x09 || b == 0x0a || b == 0x0b || b == 0x0c || b == 0x0d
}

pub open spec fn spec_trim_start(s: Seq<u8>) -> Seq<u8>
    decreases s.len(),
{
    if s.len() > 0 && spec_is_ws(s[0]) {
        spec_trim_start(s.drop_first())
    } else {
        s
    }
}

pub open spec fn spec_trim_end(s: Seq<u8>) -> Seq<u8>
    decreases s.len(),
{
    if s.len() > 0 && spec_is_ws(s.last()) {
        spec_trim_end(s.drop_last())
    } else {
        s
    }
}

/// Whitespace removed from both ends.
pub open spec fn spec_trim(s: Seq<u8>) -> Seq<u8> {
    spec_trim_end(spec_trim_start(s))
}

/// The prefix of a line before its first `;`, the whole line if it has none.
pub open spec fn spec_before_comment(s: Seq<u8>) -> Seq<u8> {
    spec_before(s, 0x3b)
}

/// What one physical line contributes: trimmed, comment stripped, trimmed.
pub open spec fn spec_clean_line(s: Seq<u8>) -> Seq<u8> {
    spec_trim(spec_before_comment(spec_trim(s)))
}

/// The physical lines of the source, split on newline bytes; a trailing
/// newline yields a final empty line, as splitting does.
pub open spec fn spec_split_lines(s: Seq<u8>) -> Seq<Seq<u8>> {
    spec_split(s, 0x0a)
}

/// The surviving lines among `lines`, numbering the first `first_no`;
/// numbers wrap at the 16-bit boundary.
pub open spec fn spec_scanner_lines(lines: Seq<Seq<u8>>, first_no: nat) -> Seq<(Seq<u8>, u16)>
    decreases lines.len(),
{
    if lines.len() == 0 {
        Seq::empty()
    } else {
        let cleaned = spec_clean_line(lines[0]);
        let rest = spec_scanner_lines(lines.drop_first(), first_no + 1);
        if cleaned.len() == 0 {
            rest
        } else {
            seq![(cleaned, (first_no % 0x10000) as u16)] + rest
        }
    }
}

/// The finished scan of a whole source text.
pub open spec fn spec_scanner(src: Seq<u8>) -> Seq<(Seq<u8>, u16)> {
    spec_scanner_lines(spec_split_lines(src), 1)
}

/// Every line the scanner keeps has text: empty and comment-only lines are
/// dropped.
pub proof fn lemma_scanner_lines_nonempty(lines: Seq<Seq<u8>>, first_no: nat)
    ensures
        forall|j: int|
            0 <= j < spec_scanner_lines(lines, first_no).len() ==> (#[trigger] spec_scanner_lines(
                lines,
                first_no,
            )[j]).0.len() > 0,
    decreases lines.len(),
{
    if lines.len() > 0 {
        lemma_scanner_lines_nonempty(lines.drop_first(), first_no + 1);
        let cleaned = spec_clean_line(lines[0]);
        let rest = spec_scanner_lines(lines.drop_first(), first_no + 1);
        let whole = spec_scanner_lines(lines, first_no);
        if cleaned.len() > 0 {
            assert forall|j: int| 0 <= j < whole.len() implies (#[trigger] whole[j]).0.len()
                > 0 by {
                if j > 0 {
                    assert(whole[j] == rest[j - 1]);
                }
            }
        }
    }
}

proof fn lemma_trim_start_concat(a: Seq<u8>, b: Seq<u8>)
    ensures
        spec_trim_start(a + b) == (if spec_trim_start(a).len() > 0 {
            spec_trim_start(a) + b
        } else {
            spec_trim_start(b)
        }),
    decreases a.len(),
{
    if a.len() == 0 {
        assert(a + b =~= b);
    } else {
        assert((a + b)[0] == a[0]);
        if spec_is_ws(a[0]) {
            assert((a + b).drop_first() =~= a.drop_first() + b);
            lemma_trim_start_concat(a.drop_first(), b);
        } else {
            assert(spec_trim_start(a + b) == a + b);
            assert(spec_trim_start(a) == a);
        }
    }
}

proof fn lemma_trim_start_suffix(s: Seq<u8>)
    ensures
        spec_trim_start(s).len() <= s.len(),
        forall|i: int|
            0 <= i < spec_trim_start(s).len() ==> spec_trim_start(s)[i] == s[i + s.len()
                - spec_trim_start(s).len()],
    decreases s.len(),
{
    if s.len() > 0 && spec_is_ws(s[0]) {
        lemma_trim_start_suffix(s.drop_first());
    }
}

proof fn lemma_trim_end_prefix(s: Seq<u8>)
    ensures
        spec_trim_end(s).len() <= s.len(),
        forall|i: int| 0 <= i < spec_trim_end(s).len() ==> spec_trim_end(s)[i] == s[i],
    decreases s.len(),
{
    if s.len() > 0 && spec_is_ws(s.last()) {
        lemma_trim_end_prefix(s.drop_last());
        assert forall|i: int| 0 <= i < spec_trim_end(s).len() implies spec_trim_end(s)[i]
            == s[i] by {
            assert(spec_trim_end(s)[i] == s.drop_last()[i]);
        }
    }
}

proof fn lemma_trim_end_last(s: Seq<u8>)
    ensures
        spec_trim_end(s).len() > 0 ==> !spec_is_ws(spec_trim_end(s).last()),
    decreases s.len(),
{
    if s.len() > 0 && spec_is_ws(s.last()) {
        lemma_trim_end_last(s.drop_last());
    }
}

proof fn lemma_trim_start_head(s: Seq<u8>)
    ensures
        spec_trim_start(s).len() > 0 ==> !spec_is_ws(spec_trim_start(s)[0]),
    decreases s.len(),
{
    if s.len() > 0 && spec_is_ws(s[0]) {
        lemma_trim_start_head(s.drop_first());
    }
}

proof fn lemma_trim_end_concat_stop(x: Seq<u8>, b: u8, c: Seq<u8>)
    requires
        !spec_is_ws(b),
    ensures
        spec_trim_end(x + seq![b] + c) == x + seq![b] + spec_trim_end(c),
    decreases c.len(),
{
    let s = x + seq![b] + c;
    if c.len() == 0 {
        assert(s.last() == b);
        assert(spec_trim_end(s) == s);
        assert(x + seq![b] + spec_trim_end(c) =~= s);
    } else {
        assert(s.last() == c.last());
        if spec_is_ws(c.last()) {
            assert(s.drop_last() =~= x + seq![b] + c.drop_last());
            lemma_trim_end_concat_stop(x, b, c.drop_last());
        } else {
            assert(spec_trim_end(s) == s);
            assert(spec_trim_end(c) == c);
        }
    }
}

proof fn lemma_before_no_semi(x: Seq<u8>)
    requires
        forall|k: int| 0 <= k < x.len() ==> x[k] != 0x3b,
    ensures
        spec_before_comment(x) == x,
{
    lemma_before_idx(x, 0x3b, x.len() as int);
    assert(x.take(x.len() as int) =~= x);
}

proof fn lemma_before_concat_semi(x: Seq<u8>, c: Seq<u8>)
    requires
        forall|k: int| 0 <= k < x.len() ==> x[k] != 0x3b,
    ensures
        spec_before_comment(x + seq![0x3b] + c) == x,
{
    let s = x + seq![0x3b] + c;
    assert(forall|k: int| 0 <= k < x.len() ==> s[k] == x[k]);
    assert(s[x.len() as int] == 0x3b);
    lemma_before_idx(s, 0x3b, x.len() as int);
    assert(s.take(x.len() as int) =~= x);
}

/// Comment stripping: appending `;` and any comment text to a line that
/// has no `;` of its own leaves its scan unchanged.
pub proof fn lemma_comment_stripping(line: Seq<u8>, comment: Seq<u8>)
    requires
        forall|k: int| 0 <= k < line.len() ==> line[k] != 0x3b,
    ensures
        spec_clean_line(line + seq![0x3b] + comment) == spec_clean_line(line),
{
    let s = line + seq![0x3b] + comment;
    let u = spec_trim_start(line);
    lemma_trim_start_concat(line, seq![0x3b] + comment);
    assert(line + (seq![0x3b] + comment) =~= s);
    lemma_trim_start_suffix(line);
    lemma_trim_start_head(line);
    if u.len() > 0 {
        // The first trim leaves the line's core, the semicolon, and the
        // comment's core.
        assert(spec_trim_start(s) == u + (seq![0x3b] + comment));
        assert(u + (seq![0x3b] + comment) =~= u + seq![0x3b] + comment);
        lemma_trim_end_concat_stop(u, 0x3b, comment);
        assert(spec_trim(s) == u + seq![0x3b] + spec_trim_end(comment));
        // Everything from the semicolon on goes.
        assert(forall|k: int| 0 <= k < u.len() ==> u[k] != 0x3b);
        lemma_before_concat_semi(u, spec_trim_end(comment));
        assert(spec_before_comment(spec_trim(s)) == u);
        // The second trim of the left side.
        assert(spec_trim_start(u) == u);
        assert(spec_clean_line(s) == spec_trim_end(u));
        // The right side comes to the same core.
        let v = spec_trim_end(u);
        assert(spec_trim(line) == v);
        lemma_trim_end_prefix(u);
        assert forall|k: int| 0 <= k < v.len() implies v[k] != 0x3b by {
            assert(v[k] == u[k]);
        }
        lemma_before_no_semi(v);
        assert(spec_before_comment(spec_trim(line)) == v);
        if v.len() > 0 {
            assert(v[0] == u[0]);
            assert(spec_trim_start(v) == v);
        } else {
            assert(spec_trim_start(v) == v);
        }
        lemma_trim_end_last(u);
        assert(spec_trim_end(v) == v);
        assert(spec_clean_line(line) == v);
    } else {
        // The line is all whitespace: both scans are empty.
        assert(spec_trim_start(s) == spec_trim_start(seq![0x3b] + comment));
        assert((seq![0x3b] + comment)[0] == 0x3b);
        assert(spec_trim_start(seq![0x3b] + comment) == seq![0x3b] + comment);
        assert(Seq::<u8>::empty() + seq![0x3b] + comment =~= seq![0x3b] + comment);
        lemma_trim_end_concat_stop(Seq::empty(), 0x3b, comment);
        assert(spec_trim(s) == Seq::<u8>::empty() + seq![0x3b] + spec_trim_end(comment));
        lemma_before_concat_semi(Seq::empty(), spec_trim_end(comment));
        assert(spec_before_comment(spec_trim(s)) == Seq::<u8>::empty());
        assert(spec_trim_start(Seq::<u8>::empty()) == Seq::<u8>::empty());
        assert(spec_trim_end(Seq::<u8>::empty()) == Seq::<u8>::empty());
        assert(spec_clean_line(s) =~= Seq::<u8>::empty());
        assert(spec_trim(line) == spec_trim_end(u));
        assert(spec_clean_line(line) =~= Seq::<u8>::empty());
    }
}

proof fn lemma_trim_start_idx(s: Seq<u8>, a: int)
    requires
        0 <= a <= s.len(),
        forall|k: int| 0 <= k < a ==> spec_is_ws(s[k]),
        a < s.len() ==> !spec_is_ws(s[a]),
    ensures
        spec_trim_start(s) == s.skip(a),
    decreases a,
{
    if a == 0 {
        assert(s.skip(0) =~= s);
    } else {
        lemma_trim_start_idx(s.drop_first(), a - 1);
        assert(s.drop_first().skip(a - 1) =~= s.skip(a));
    }
}

proof fn lemma_trim_end_idx(s: Seq<u8>, b: int)
    requires
        0 <= b <= s.len(),
        forall|k: int| b <= k < s.len() ==> spec_is_ws(s[k]),
        b > 0 ==> !spec_is_ws(s[b - 1]),
    ensures
        spec_trim_end(s) == s.take(b),
    decreases s.len(),
{
    if s.len() == b {
        assert(s.take(b) =~= s);
    } else {
        assert(spec_is_ws(s.last()));
        lemma_trim_end_idx(s.drop_last(), b);
        assert(s.drop_last().take(b) =~= s.take(b));
    }
}

fn is_ws(b: u8) -> (r: bool)
    ensures
        r == spec_is_ws(b),
{
    b == 0x20 || b == 0x09 || b == 0x0a || b == 0x0b || b == 0x0c || b == 0x0d
}

/// Trim bounds of the window `s[lo..hi]`: the window's whitespace-free core
/// is `s[r.0..r.1]`.
pub fn trim_bounds(s: &[u8], lo: usize, hi: usize) -> (r: (usize, usize))
    requires
        lo <= hi <= s@.len(),
    ensures
        lo <= r.0 <= r.1 <= hi,
        spec_trim(s@.subrange(lo as int, hi as int)) == s@.subrange(r.0 as int, r.1 as int),
{
    let mut a = lo;
    while a < hi && is_ws(s[a])
        invariant
            lo <= a <= hi <= s@.len(),
            forall|k: int| lo <= k < a ==> spec_is_ws(s@[k]),
        decreases hi - a,
    {
        a += 1;
    }
    let mut b = hi;
    while b > a && is_ws(s[b - 1])
        invariant
            a <= b <= hi <= s@.len(),
            forall|k: int| b <= k < hi ==> spec_is_ws(s@[k]),
        decreases b,
    {
        b -= 1;
    }
    proof {
        let w = s@.subrange(lo as int, hi as int);
        lemma_trim_start_idx(w, a - lo);
        assert(w.skip(a - lo) =~= s@.subrange(a as int, hi as int));
        let v = s@.subrange(a as int, hi as int);
        lemma_trim_end_idx(v, b - a);
        assert(v.take(b - a) =~= s@.subrange(a as int, b as int));
    }
    (a, b)
}

/// Trims the line, cuts it at its first `;`, and trims the remainder.
fn clean_line(s: &[u8]) -> (r: Vec<u8>)
    ensures
        r@ == spec_clean_line(s@),
{
    let n = s.len();
    let (a, b) = trim_bounds(s, 0, n);
    let p = find_byte(s, a, b, 0x3b);
    proof {
        assert(s@.subrange(0, n as int) =~= s@);
        let w = s@.subrange(a as int, b as int);
        lemma_before_idx(w, 0x3b, p - a);
        assert(w.take(p - a) =~= s@.subrange(a as int, p as int));
    }
    let (a2, b2) = trim_bounds(s, a, p);
    sub_vec(s, a2, b2)
}

/// Scans raw source text into the ordered table of surviving lines.
pub fn scanner(raw_source: &[u8]) -> (r: SourceTable)
    ensures
        lines_view(r@) == spec_scanner(raw_source@),
{
    let ghost src = raw_source@;
    // Split into physical lines.
    let raw_lines = split_bytes(raw_source, 0x0a);
    let ghost all_lines = raw_lines@.map_values(|v: Vec<u8>| v@);
    proof {
        assert(all_lines == spec_split_lines(src));
    }
    // Clean each physical line, keeping the survivors.
    let m = raw_lines.len();
    let mut out: SourceTable = Vec::new();
    let mut j: usize = 0;
    proof {
        assert(all_lines.skip(0) =~= all_lines);
        assert(lines_view(out@) =~= Seq::<(Seq<u8>, u16)>::empty());
        assert(Seq::<(Seq<u8>, u16)>::empty() + spec_scanner_lines(all_lines, 1)
            =~= spec_scanner_lines(all_lines, 1));
    }
    while j < m
        invariant
            0 <= j <= m,
            m == raw_lines@.len(),
            all_lines == raw_lines@.map_values(|v: Vec<u8>| v@),
            spec_scanner(src) == lines_view(out@) + spec_scanner_lines(
                all_lines.skip(j as int),
                (j + 1) as nat,
            ),
        decreases m - j,
    {
        let ghost tail = all_lines.skip(j as int);
        proof {
            assert(tail[0] == all_lines[j as int]);
            assert(tail.drop_first() =~= all_lines.skip(j + 1));
        }
        let cleaned = clean_line(raw_lines[j].as_slice());
        if cleaned.len() > 0 {
            let num: u16 = ((j + 1) % 0x10000) as u16;
            let entry = SourceLine { line: cleaned, line_number: num };
            proof {
                assert(lines_view(out@.push(entry)) =~= lines_view(out@) + seq![entry@]);
                assert((lines_view(out@) + seq![entry@]) + spec_scanner_lines(
                    all_lines.skip(j + 1),
                    (j + 2) as nat,
                ) =~= lines_view(out@) + (seq![entry@] + spec_scanner_lines(
                    all_lines.skip(j + 1),
                    (j + 2) as nat,
                )));
            }
            out.push(entry);
        }
        j += 1;
    }
    proof {
        assert(all_lines.skip(m as int) =~= Seq::<Seq<u8>>::empty());
        assert(lines_view(out@) + Seq::<(Seq<u8>, u16)>::empty() =~= lines_view(out@));
    }
    out
}

} // verus!
