//! The truncating renderer: finishes a bounded writer's region into a
//! complete log line, with a truncation marker when the message overflowed
//! and the mandatory `"\n\0"` suffix in every case.

use vstd::prelude::*;
use crate::writer::Wrapper;
use crate::ELLIPSES_SIZE;
use crate::SUFFIX_SIZE;
use crate::MSG_CAPACITY;

verus! {

/// Line feed byte, first byte of the suffix.
pub const NEWLINE: u8 = 10;

/// Zero terminator, last byte of every rendered line.
pub const NUL: u8 = 0;

/// The byte `.` of the truncation marker.
pub const DOT: u8 = 46;

/// The mandatory trailing bytes `"\n\0"` of every rendered line.
pub open spec fn suffix_spec() -> Seq<u8> {
    seq![NEWLINE, NUL]
}

/// The `"..."` marker written over the tail of an overflowing message.
pub open spec fn ellipses_spec() -> Seq<u8> {
    seq![DOT, DOT, DOT]
}

/// The fallback literal `"logger OOPS"`, rendered when formatting failed
/// before three bytes were committed.
pub open spec fn fallback_spec() -> Seq<u8> {
    seq![108u8, 111u8, 103u8, 103u8, 101u8, 114u8, 32u8, 79u8, 79u8, 80u8, 83u8]
}

/// The finished line as a function of the writer's region, its cursor, and
/// whether formatting succeeded: the committed bytes as they stand on
/// success; on failure the committed bytes with their last three replaced
/// by the marker, or the fallback literal when fewer than three were
/// committed; the suffix in every case.
pub open spec fn finished_spec(region: Seq<u8>, cursor: int, format_ok: bool) -> Seq<u8> {
    if format_ok {
        region.take(cursor) + suffix_spec()
    } else if cursor >= ELLIPSES_SIZE {
        region.take(cursor - ELLIPSES_SIZE) + ellipses_spec() + suffix_spec()
    } else {
        fallback_spec() + suffix_spec()
    }
}

/// The fallback literal as exec bytes.
fn fallback_bytes() -> (v: Vec<u8>)
    ensures
        v@ == fallback_spec(),
{
    let mut v: Vec<u8> = Vec::new();
    v.push(108);
    v.push(111);
    v.push(103);
    v.push(103);
    v.push(101);
    v.push(114);
    v.push(32);
    v.push(79);
    v.push(79);
    v.push(80);
    v.push(83);
    proof {
        assert(v@ =~= fallback_spec());
    }
    v
}

/// Copies `w.region()[0 .. upto]` onto the end of `line`.
fn push_region_prefix(line: &mut Vec<u8>, w: &Wrapper, upto: usize)
    requires
        upto <= w.region().len(),
        old(line)@.len() + upto <= usize::MAX,
    ensures
        final(line)@ == old(line)@ + w.region().take(upto as int),
{
    let mut i: usize = 0;
    while i < upto
        invariant
            i <= upto,
            upto <= w.region().len(),
            line@ == old(line)@ + w.region().take(i as int),
        decreases upto - i,
    {
        line.push(w.byte_at(i));
        proof {
            assert(line@ =~= old(line)@ + w.region().take(i + 1));
        }
        i += 1;
    }
}

/// Finishes the writer's region into a complete line.
///
/// `format_ok` says whether every fragment of the message was accepted.
/// When it is false and at least three bytes were committed, the last
/// three committed bytes are given up for the truncation marker; when
/// fewer than three were committed, whatever was written is discarded for
/// the fallback literal. The suffix `"\n\0"` ends the line whether or not
/// truncation occurred, and the zero terminator is the last byte.
pub fn finish_line(w: &Wrapper, format_ok: bool) -> (line: Vec<u8>)
    requires
        w.wf(),
        w.region().len() <= usize::MAX - SUFFIX_SIZE,
    ensures
        line@ == finished_spec(w.region(), w.cursor(), format_ok),
        !format_ok && w.cursor() < ELLIPSES_SIZE ==> line@ == fallback_spec() + suffix_spec(),
        line@.len() >= SUFFIX_SIZE,
        line@[line@.len() - 2] == NEWLINE,
        line@[line@.len() - 1] == NUL,
{
    let offset = w.offset();
    let mut line: Vec<u8> = Vec::new();
    if format_ok {
        push_region_prefix(&mut line, w, offset);
    } else if offset >= ELLIPSES_SIZE {
        push_region_prefix(&mut line, w, offset - ELLIPSES_SIZE);
        line.push(DOT);
        line.push(DOT);
        line.push(DOT);
    } else {
        line = fallback_bytes();
    }
    line.push(NEWLINE);
    line.push(NUL);
    proof {
        assert(line@ =~= finished_spec(w.region(), w.cursor(), format_ok));
    }
    line
}

/// The rendered line for a complete message over a region of `region_len`
/// bytes: the message itself when it fits, else its first `region_len`
/// bytes with the last three replaced by the marker; the suffix either way.
pub open spec fn rendered_spec(msg: Seq<u8>, region_len: int) -> Seq<u8> {
    if msg.len() <= region_len {
        msg + suffix_spec()
    } else {
        msg.take(region_len - ELLIPSES_SIZE) + ellipses_spec() + suffix_spec()
    }
}

/// Renders a complete message into a line over a message region of
/// `region_len` bytes, by driving the bounded writer and finishing the
/// region.
///
/// A message of at most `region_len` bytes is rendered in full, with no
/// truncation marker; a longer one fills the region exactly, its last
/// three visible bytes replaced by `"..."`. The line always ends with the
/// suffix `"\n\0"`.
pub fn render_line(msg: &[u8], region_len: usize) -> (line: Vec<u8>)
    requires
        ELLIPSES_SIZE <= region_len,
        region_len <= usize::MAX - SUFFIX_SIZE,
    ensures
        line@ == rendered_spec(msg@, region_len as int),
        msg@.len() <= region_len ==> line@ == msg@ + suffix_spec(),
        msg@.len() > region_len ==> line@.len() == region_len + SUFFIX_SIZE
            && line@ == msg@.take(region_len - ELLIPSES_SIZE) + ellipses_spec() + suffix_spec(),
{
    let mut region: Vec<u8> = Vec::new();
    let mut i: usize = 0;
    while i < region_len
        invariant
            i <= region_len,
            region@.len() == i,
        decreases region_len - i,
    {
        region.push(0);
        i += 1;
    }
    let mut w = Wrapper::new(region);
    if msg.len() <= region_len {
        let r = w.write_fragment(msg);
        proof {
            assert(r is Ok);
            assert(w.region().take(w.cursor()) =~= msg@);
        }
        let line = finish_line(&w, true);
        proof {
            assert(line@ =~= rendered_spec(msg@, region_len as int));
        }
        line
    } else {
        let head = vstd::slice::slice_subrange(msg, 0, region_len);
        let r = w.write_fragment(head);
        proof {
            assert(r is Ok);
            assert(w.region().take(w.cursor() - ELLIPSES_SIZE)
                =~= msg@.take(region_len - ELLIPSES_SIZE));
        }
        let line = finish_line(&w, false);
        proof {
            assert(line@ =~= rendered_spec(msg@, region_len as int));
        }
        line
    }
}

/// Law: rendering is deterministic, so two independent renderings of the
/// same message over the same capacity are byte-identical.
pub proof fn lemma_render_idempotent(msg: Seq<u8>, region_len: int, l1: Seq<u8>, l2: Seq<u8>)
    requires
        l1 == rendered_spec(msg, region_len),
        l2 == rendered_spec(msg, region_len),
    ensures
        l1 == l2,
{
}

/// Renders one record: nothing when the record's level is more verbose than
/// the threshold, else the line for its message over the standard message
/// region of `MSG_CAPACITY` bytes.
pub fn render_record(level: crate::sink::Severity, threshold: crate::sink::Severity, msg: &[u8])
    -> (r: Option<Vec<u8>>)
    ensures
        level.verbosity() <= threshold.verbosity()
            ==> r is Some && r->0@ == rendered_spec(msg@, MSG_CAPACITY as int),
        level.verbosity() > threshold.verbosity() ==> r is None,
{
    if crate::sink::enabled(level, threshold) {
        Some(render_line(msg, MSG_CAPACITY))
    } else {
        None
    }
}

} // verus!
