//! What the engine reads off a file's content: whether it is binary, and its
//! lines.

use crate::pattern::BINARY_SENTINEL;
use crate::pattern::LINE_TERMINATOR;
use crate::sequences::lemma_flat_map_concat;
use vstd::prelude::*;
use vstd::slice::slice_subrange;
use vstd::slice::slice_to_vec;

verus! {

/// How many leading bytes of a file are inspected for the binary sentinel.
pub const BINARY_PROBE_LEN: usize = 65536;

/// Whether content counts as binary: the sentinel byte occurs among its
/// first `BINARY_PROBE_LEN` bytes.
pub open spec fn looks_binary(content: Seq<u8>) -> bool {
    exists|i: int|
        0 <= i < content.len() && i < BINARY_PROBE_LEN && #[trigger] content[i] == BINARY_SENTINEL
}

/// Whether content counts as binary.
pub fn is_binary(content: &[u8]) -> (b: bool)
    ensures
        b == looks_binary(content@),
{
    let limit = if content.len() < BINARY_PROBE_LEN {
        content.len()
    } else {
        BINARY_PROBE_LEN
    };
    let mut i: usize = 0;
    while i < limit
        invariant
            i <= limit <= content.len(),
            limit <= BINARY_PROBE_LEN,
            limit == content.len() || limit == BINARY_PROBE_LEN,
            forall|k: int| 0 <= k < i ==> #[trigger] content[k] != BINARY_SENTINEL,
        decreases limit - i,
    {
        if content[i] == BINARY_SENTINEL {
            return true;
        }
        i = i + 1;
    }
    false
}

/// Length of the first line of `bytes`, its terminator not counted: the
/// number of bytes before the first terminator, or all of them.
pub open spec fn first_line_len(bytes: Seq<u8>) -> int
    decreases bytes.len(),
{
    if bytes.len() == 0 || bytes[0] == LINE_TERMINATOR {
        0
    } else {
        1 + first_line_len(bytes.drop_first())
    }
}

/// The lines of `bytes`, each without its terminator. A terminator ends a
/// line; what follows the last terminator is a line only if it is not empty.
pub open spec fn lines_of(bytes: Seq<u8>) -> Seq<Seq<u8>>
    decreases bytes.len(),
{
    let n = first_line_len(bytes);
    if bytes.len() == 0 {
        Seq::empty()
    } else if 0 <= n < bytes.len() {
        seq![bytes.take(n)] + lines_of(bytes.skip(n + 1))
    } else {
        seq![bytes]
    }
}

/// The first line ends where the first terminator stands.
pub proof fn lemma_first_line_len(bytes: Seq<u8>, n: int)
    requires
        0 <= n <= bytes.len(),
        forall|k: int| 0 <= k < n ==> bytes[k] != LINE_TERMINATOR,
        n < bytes.len() ==> bytes[n] == LINE_TERMINATOR,
    ensures
        first_line_len(bytes) == n,
    decreases n,
{
    if n > 0 {
        let rest = bytes.drop_first();
        assert forall|k: int| 0 <= k < n - 1 implies rest[k] != LINE_TERMINATOR by {
            assert(rest[k] == bytes[k + 1]);
        }
        lemma_first_line_len(rest, n - 1);
    }
}

/// No line holds a terminator.
pub proof fn lemma_lines_hold_no_terminator(bytes: Seq<u8>, i: int, k: int)
    requires
        0 <= i < lines_of(bytes).len(),
        0 <= k < lines_of(bytes)[i].len(),
    ensures
        lines_of(bytes)[i][k] != LINE_TERMINATOR,
    decreases bytes.len(),
{
    let n = first_line_len(bytes);
    lemma_first_line_bounds(bytes);
    if 0 <= n < bytes.len() {
        if i > 0 {
            lemma_lines_hold_no_terminator(bytes.skip(n + 1), i - 1, k);
        }
    }
}

/// The first line lies within the bytes and holds no terminator; if it is
/// not all of them, a terminator follows it.
pub proof fn lemma_first_line_bounds(bytes: Seq<u8>)
    ensures
        0 <= first_line_len(bytes) <= bytes.len(),
        forall|k: int| 0 <= k < first_line_len(bytes) ==> bytes[k] != LINE_TERMINATOR,
        first_line_len(bytes) < bytes.len() ==> bytes[first_line_len(bytes)] == LINE_TERMINATOR,
    decreases bytes.len(),
{
    if bytes.len() == 0 || bytes[0] == LINE_TERMINATOR {
    } else {
        let rest = bytes.drop_first();
        lemma_first_line_bounds(rest);
        assert forall|k: int| 0 <= k < first_line_len(bytes) implies bytes[k] != LINE_TERMINATOR by {
            if k > 0 {
                assert(bytes[k] == rest[k - 1]);
            }
        }
        if first_line_len(bytes) < bytes.len() {
            assert(bytes[first_line_len(bytes)] == rest[first_line_len(rest)]);
        }
    }
}

/// A line with its terminator.
pub open spec fn terminated() -> spec_fn(Seq<u8>) -> Seq<u8> {
    |line: Seq<u8>| line.push(LINE_TERMINATOR)
}

/// The lines, each followed by a terminator, one after the other.
pub open spec fn joined(lines: Seq<Seq<u8>>) -> Seq<u8> {
    lines.flat_map(terminated())
}

/// Splitting loses nothing. The lines of `bytes`, joined again, are `bytes`
/// itself, with a terminator added at the end if it had none there.
pub proof fn lemma_lines_rejoin(bytes: Seq<u8>)
    ensures
        joined(lines_of(bytes)) == if bytes.len() == 0 || bytes.last() == LINE_TERMINATOR {
            bytes
        } else {
            bytes.push(LINE_TERMINATOR)
        },
    decreases bytes.len(),
{
    let n = first_line_len(bytes);
    lemma_first_line_bounds(bytes);
    if bytes.len() == 0 {
        assert(lines_of(bytes).map_values(terminated()) =~= Seq::<Seq<u8>>::empty());
    } else if n < bytes.len() {
        let rest = bytes.skip(n + 1);
        lemma_lines_rejoin(rest);
        lemma_flat_map_concat(seq![bytes.take(n)], lines_of(rest), terminated());
        seq![bytes.take(n)].lemma_flat_map_singleton(terminated());
        assert(bytes.take(n).push(LINE_TERMINATOR) =~= bytes.take(n + 1));
        assert(bytes.take(n + 1) + rest =~= bytes);
        if rest.len() > 0 {
            assert(rest.last() == bytes.last());
            assert(bytes.take(n + 1) + rest.push(LINE_TERMINATOR) =~= bytes.push(LINE_TERMINATOR));
        } else {
            assert(bytes.take(n + 1) + rest =~= bytes.take(n + 1));
        }
    } else {
        seq![bytes].lemma_flat_map_singleton(terminated());
    }
}

/// Mathematical model of a list of lines.
pub open spec fn lines_view(lines: Seq<Vec<u8>>) -> Seq<Seq<u8>> {
    Seq::new(lines.len(), |i: int| lines[i]@)
}

/// Splits `bytes` into its lines, each without its terminator.
pub fn split_lines(bytes: &[u8]) -> (lines: Vec<Vec<u8>>)
    ensures
        lines_view(lines@) == lines_of(bytes@),
{
    let mut lines: Vec<Vec<u8>> = Vec::new();
    let mut start: usize = 0;
    let mut pos: usize = 0;
    assert(bytes@.skip(0) =~= bytes@);
    assert(lines_view(lines@) + lines_of(bytes@.skip(0)) =~= lines_of(bytes@));
    while pos < bytes.len()
        invariant
            start <= pos <= bytes.len(),
            forall|k: int| start <= k < pos ==> bytes@[k] != LINE_TERMINATOR,
            lines_view(lines@) + lines_of(bytes@.skip(start as int)) == lines_of(bytes@),
        decreases bytes.len() - pos,
    {
        if bytes[pos] == LINE_TERMINATOR {
            let line = slice_to_vec(slice_subrange(bytes, start, pos));
            proof {
                let rest = bytes@.skip(start as int);
                let n = pos - start;
                assert forall|k: int| 0 <= k < n implies rest[k] != LINE_TERMINATOR by {
                    assert(rest[k] == bytes@[start + k]);
                }
                lemma_first_line_len(rest, n);
                assert(rest.take(n) =~= bytes@.subrange(start as int, pos as int));
                assert(rest.skip(n + 1) =~= bytes@.skip(pos + 1));
                assert(lines_view(lines@.push(line)) =~= lines_view(lines@) + seq![line@]);
                assert(lines_view(lines@.push(line)) + lines_of(bytes@.skip(pos + 1)) =~= lines_view(
                    lines@,
                ) + lines_of(rest));
            }
            lines.push(line);
            start = pos + 1;
        }
        pos = pos + 1;
    }
    if start < bytes.len() {
        let line = slice_to_vec(slice_subrange(bytes, start, pos));
        proof {
            let rest = bytes@.skip(start as int);
            assert forall|k: int| 0 <= k < rest.len() implies rest[k] != LINE_TERMINATOR by {
                assert(rest[k] == bytes@[start + k]);
            }
            lemma_first_line_len(rest, rest.len() as int);
            assert(rest =~= bytes@.subrange(start as int, pos as int));
            assert(lines_view(lines@.push(line)) =~= lines_view(lines@) + seq![line@]);
        }
        lines.push(line);
    } else {
        assert(bytes@.skip(start as int).len() == 0);
        assert(lines_view(lines@) + Seq::<Seq<u8>>::empty() =~= lines_view(lines@));
    }
    lines
}

} // verus!
