//! The append-only log: destination resolution and durable line appends.
//!
//! A destination is resolved once at startup from an ordered candidate list
//! (primary path, a derived fallback path, the process's error stream), and
//! every later append writes one newline-terminated line and flushes it before
//! returning. The surrounding program performs the file opens and hands the
//! chosen sink in; this module holds every decision and the append contract.

use std::io::Write;
use vstd::prelude::*;
use vstd::string::StrSliceExecFns;
use vstd::string::StringExecFns;

verus! {

/// The single open, append-mode sink that all log lines go to for the
/// process lifetime. The wrapped writer is line-buffered; its contents are
/// tracked only through `content_of` and `durable_of`.
#[verifier::external_body]
pub struct LogWriter {
    inner: std::io::LineWriter<std::io::BufWriter<Box<dyn std::io::Write + Send>>>,
}

/// The text the sink has accepted so far, in order.
pub uninterp spec fn content_of(w: LogWriter) -> Seq<char>;

/// The prefix of the accepted text that is already durable at the
/// destination: after a successful flush it is all of it.
pub uninterp spec fn durable_of(w: LogWriter) -> Seq<char>;

/// The single terminator that ends every appended line.
pub open spec fn line_terminator() -> Seq<char> {
    seq!['\n']
}

/// The volatile temp directory segment that the primary path may start with.
pub open spec fn volatile_segment() -> Seq<char> {
    seq!['/', 't', 'm', 'p']
}

/// What is put in front of the volatile segment to land in the persistent
/// temp directory instead.
pub open spec fn persistent_head() -> Seq<char> {
    seq!['/', 'v', 'a', 'r']
}

/// Whether the volatile temp segment stands in `p` at `i` as a whole
/// directory segment: its four characters match and the segment ends there,
/// at the path's end or at a separator.
pub open spec fn volatile_segment_at(p: Seq<char>, i: int) -> bool {
    &&& 0 <= i
    &&& i + 4 <= p.len()
    &&& p.subrange(i, i + 4) == volatile_segment()
    &&& (i + 4 == p.len() || p[i + 4] == '/')
}

/// The fallback path derived from a primary path: the first whole volatile
/// temp segment is re-rooted under the persistent temp directory. A path
/// without such a segment stays as it is, so its fallback is the same path
/// and equally likely to fail.
pub open spec fn fallback_path_of(p: Seq<char>) -> Seq<char>
    decreases p.len(),
{
    if volatile_segment_at(p, 0) {
        persistent_head() + p
    } else if p.len() == 0 {
        p
    } else {
        seq![p[0]] + fallback_path_of(p.skip(1))
    }
}

/// Dropping the first character shifts where the volatile segment stands.
proof fn lemma_volatile_at_shift(p: Seq<char>, j: int)
    requires
        p.len() > 0,
        0 <= j,
    ensures
        volatile_segment_at(p.skip(1), j) == volatile_segment_at(p, j + 1),
{
    if j + 4 <= p.skip(1).len() {
        assert(p.skip(1).subrange(j, j + 4) =~= p.subrange(j + 1, j + 5));
    }
}

/// At the first whole volatile segment, the derivation splices the
/// persistent head in front of it and keeps everything else.
proof fn lemma_fallback_at(p: Seq<char>, k: int)
    requires
        volatile_segment_at(p, k),
        forall|j: int| 0 <= j < k ==> !volatile_segment_at(p, j),
    ensures
        fallback_path_of(p) == p.subrange(0, k) + persistent_head() + p.subrange(
            k,
            p.len() as int,
        ),
    decreases k,
{
    if k == 0 {
        assert(p.subrange(0, 0) + persistent_head() + p.subrange(0, p.len() as int)
            =~= persistent_head() + p);
    } else {
        assert(!volatile_segment_at(p, 0));
        assert(volatile_segment_at(p.skip(1), k - 1)) by {
            lemma_volatile_at_shift(p, k - 1);
        }
        assert forall|j: int| 0 <= j < k - 1 implies !volatile_segment_at(p.skip(1), j) by {
            lemma_volatile_at_shift(p, j);
        }
        lemma_fallback_at(p.skip(1), k - 1);
        assert(p.skip(1).subrange(0, k - 1) =~= p.subrange(1, k));
        assert(p.skip(1).subrange(k - 1, p.skip(1).len() as int) =~= p.subrange(
            k,
            p.len() as int,
        ));
        assert(fallback_path_of(p) =~= p.subrange(0, k) + persistent_head() + p.subrange(
            k,
            p.len() as int,
        ));
    }
}

/// A path with no whole volatile segment derives to itself.
proof fn lemma_fallback_none(p: Seq<char>)
    requires
        forall|j: int| 0 <= j ==> !#[trigger] volatile_segment_at(p, j),
    ensures
        fallback_path_of(p) == p,
    decreases p.len(),
{
    if p.len() > 0 {
        assert forall|j: int| 0 <= j implies !#[trigger] volatile_segment_at(p.skip(1), j) by {
            lemma_volatile_at_shift(p, j);
        }
        lemma_fallback_none(p.skip(1));
        assert(seq![p[0]] + p.skip(1) =~= p);
    }
}

/// Whether the volatile segment stands whole at `i` of `p`, whose character
/// count is `n`.
fn volatile_at(p: &str, i: usize, n: usize) -> (b: bool)
    requires
        n as nat == p@.len(),
        i < n,
    ensures
        b == volatile_segment_at(p@, i as int),
{
    if n - i < 4 {
        return false;
    }
    let seg = p.get_char(i) == '/' && p.get_char(i + 1) == 't' && p.get_char(i + 2) == 'm'
        && p.get_char(i + 3) == 'p';
    let bounded = i + 4 == n || p.get_char(i + 4) == '/';
    proof {
        if seg {
            assert(p@.subrange(i as int, i as int + 4) =~= volatile_segment());
        } else {
            assert(p@.subrange(i as int, i as int + 4)[0] == p@[i as int]);
            assert(p@.subrange(i as int, i as int + 4)[1] == p@[i as int + 1]);
            assert(p@.subrange(i as int, i as int + 4)[2] == p@[i as int + 2]);
            assert(p@.subrange(i as int, i as int + 4)[3] == p@[i as int + 3]);
        }
    }
    seg && bounded
}

/// Derives the fallback log path for a primary log path: the first whole
/// volatile temp segment is replaced by its persistent counterpart.
pub fn fallback_path(primary: &str) -> (r: String)
    ensures
        r@ == fallback_path_of(primary@),
{
    let n = primary.unicode_len();
    let mut i: usize = 0;
    while i < n
        invariant
            n as nat == primary@.len(),
            i <= n,
            forall|j: int| 0 <= j < i ==> !#[trigger] volatile_segment_at(primary@, j),
        decreases n - i,
    {
        if volatile_at(primary, i, n) {
            let prefix = primary.substring_char(0, i);
            let mut r = prefix.to_owned();
            r.append("/var");
            r.append(primary.substring_char(i, n));
            proof {
                reveal_strlit("/var");
                assert("/var"@ =~= persistent_head());
                lemma_fallback_at(primary@, i as int);
                assert(r@ =~= fallback_path_of(primary@));
            }
            return r;
        }
        i = i + 1;
    }
    proof {
        lemma_fallback_none(primary@);
    }
    primary.to_owned()
}

/// The three candidate destinations, in the order they are tried once at
/// startup.
#[derive(Clone, Copy, Debug, PartialEq, Eq, Structural)]
pub enum Destination {
    /// The configured primary log path.
    Primary,
    /// The fallback path derived from the primary.
    Fallback,
    /// The process's standard error stream, the last resort that always
    /// succeeds.
    Stderr,
}

/// Which destination resolution picks, given whether opening the primary and
/// the fallback path succeeded: the first success wins, and the error stream
/// stands ready whatever happened.
pub open spec fn resolved_destination(primary_ok: bool, fallback_ok: bool) -> Destination {
    if primary_ok {
        Destination::Primary
    } else if fallback_ok {
        Destination::Fallback
    } else {
        Destination::Stderr
    }
}

/// Resolves the destination from the outcome of the two file-open attempts.
/// The function is total: every outcome yields a destination.
pub fn choose_destination(primary_ok: bool, fallback_ok: bool) -> (d: Destination)
    ensures
        d == resolved_destination(primary_ok, fallback_ok),
        d == Destination::Primary <==> primary_ok,
        d == Destination::Fallback <==> !primary_ok && fallback_ok,
        d == Destination::Stderr <==> !primary_ok && !fallback_ok,
{
    if primary_ok {
        Destination::Primary
    } else if fallback_ok {
        Destination::Fallback
    } else {
        Destination::Stderr
    }
}

/// Opening the log never fails outright: whatever the outcome of the two
/// file-open attempts, resolution yields a destination, and when both paths
/// are unwritable it is the error stream, which always succeeds.
pub proof fn lemma_open_always_resolves(primary_ok: bool, fallback_ok: bool)
    ensures
        resolved_destination(primary_ok, fallback_ok) == Destination::Primary
            || resolved_destination(primary_ok, fallback_ok) == Destination::Fallback
            || resolved_destination(primary_ok, fallback_ok) == Destination::Stderr,
        !primary_ok && !fallback_ok ==> resolved_destination(primary_ok, fallback_ok)
            == Destination::Stderr,
{
}

/// An append that did not complete.
#[derive(Clone, Copy, Debug, PartialEq, Eq, Structural)]
pub enum LogError {
    /// The write of the line itself failed.
    WriteFailed,
    /// The line was written but could not be flushed to the destination.
    FlushFailed,
}

/// Relies on std::io::LineWriter::new (via std::io::BufWriter::new): a newly
/// wrapped sink has accepted nothing yet.
#[verifier::external_body]
pub fn from_writer<W>(sink: W) -> (w: LogWriter) where
    W: std::io::Write + Send + 'static,

    ensures
        content_of(w) == Seq::<char>::empty(),
        durable_of(w) == Seq::<char>::empty(),
{
    LogWriter { inner: std::io::LineWriter::new(std::io::BufWriter::new(Box::new(sink))) }
}

/// Relies on std::io::Write::write_fmt, through writeln!: on success the sink
/// has accepted the message followed by exactly one line terminator; whatever
/// the outcome, the writers only append, so the old content survives as a
/// prefix of the new.
#[verifier::external_body]
fn write_line(writer: &mut LogWriter, msg: &str) -> (r: Result<(), LogError>)
    ensures
        r is Ok ==> content_of(*final(writer)) == content_of(*old(writer)) + msg@
            + line_terminator(),
        content_of(*old(writer)).is_prefix_of(content_of(*final(writer))),
{
    writeln!(&mut writer.inner, "{}", msg).map_err(|_| LogError::WriteFailed)
}

/// Relies on std::io::Write::flush: a flush accepts nothing new, whatever its
/// outcome, and on success all accepted text has reached the destination.
#[verifier::external_body]
fn flush_writer(writer: &mut LogWriter) -> (r: Result<(), LogError>)
    ensures
        content_of(*final(writer)) == content_of(*old(writer)),
        r is Ok ==> durable_of(*final(writer)) == content_of(*final(writer)),
{
    writer.inner.flush().map_err(|_| LogError::FlushFailed)
}

/// Appends `msg` to the log as one line and makes it durable before
/// returning: on success the destination has accepted exactly the old content
/// followed by the message and a single line terminator, and all of it has
/// been flushed to the underlying medium. Whatever is returned, content
/// already appended survives: the old content remains a prefix of the new,
/// and nothing is changed except by appending at the end.
pub fn log_message(writer: &mut LogWriter, msg: &str) -> (r: Result<(), LogError>)
    ensures
        r is Ok ==> content_of(*final(writer)) == content_of(*old(writer)) + msg@
            + line_terminator(),
        r is Ok ==> durable_of(*final(writer)) == content_of(*final(writer)),
        content_of(*old(writer)).is_prefix_of(content_of(*final(writer))),
{
    let ghost c_old = content_of(*writer);
    match write_line(writer, msg) {
        Ok(()) => {
            let r = flush_writer(writer);
            proof {
                assert(c_old =~= content_of(*writer).subrange(0, c_old.len() as int));
            }
            r
        },
        Err(e) => Err(e),
    }
}

/// The text a run of records adds to the log: each record in order, each
/// followed by exactly one line terminator.
pub open spec fn rendered(msgs: Seq<Seq<char>>) -> Seq<char>
    decreases msgs.len(),
{
    if msgs.len() == 0 {
        Seq::empty()
    } else {
        rendered(msgs.drop_last()) + msgs.last() + line_terminator()
    }
}

/// Two runs of records appended one after the other render as their
/// concatenation rendered in one run: across appends no record is reordered,
/// duplicated or dropped, and none crosses another's line.
pub proof fn lemma_rendered_concat(a: Seq<Seq<char>>, b: Seq<Seq<char>>)
    ensures
        rendered(a + b) == rendered(a) + rendered(b),
    decreases b.len(),
{
    if b.len() == 0 {
        assert(a + b =~= a);
        assert(rendered(a) + rendered(b) =~= rendered(a));
    } else {
        lemma_rendered_concat(a, b.drop_last());
        assert((a + b).drop_last() =~= a + b.drop_last());
        assert(rendered(a + b) =~= rendered(a) + rendered(b));
    }
}

/// Records land in the log in strict call order: appending them one after
/// another grows the content by each record exactly once, in the order given,
/// with no reordering, duplication or loss, and every appended record is
/// durable when the call returns.
pub fn append_records(writer: &mut LogWriter, msgs: &Vec<String>) -> (r: Result<(), LogError>)
    ensures
        r is Ok ==> content_of(*final(writer)) == content_of(*old(writer))
            + rendered(msgs@.map_values(|m: String| m@)),
        r is Ok && msgs@.len() > 0 ==> durable_of(*final(writer))
            == content_of(*final(writer)),
        content_of(*old(writer)).is_prefix_of(content_of(*final(writer))),
{
    let ghost all = msgs@.map_values(|m: String| m@);
    let ghost c0 = content_of(*writer);
    let mut i: usize = 0;
    while i < msgs.len()
        invariant
            i <= msgs.len(),
            all == msgs@.map_values(|m: String| m@),
            c0 == content_of(*old(writer)),
            content_of(*writer) == c0 + rendered(all.take(i as int)),
            i > 0 ==> durable_of(*writer) == content_of(*writer),
        decreases msgs.len() - i,
    {
        let ghost c_tick = content_of(*writer);
        let msg = &msgs[i];
        match log_message(writer, msg.as_str()) {
            Ok(()) => {},
            Err(e) => {
                proof {
                    assert(c0 =~= c_tick.subrange(0, c0.len() as int));
                    assert(c0 =~= content_of(*writer).subrange(0, c0.len() as int));
                }
                return Err(e);
            },
        }
        proof {
            assert(all.take(i + 1).drop_last() =~= all.take(i as int));
            assert(all.take(i + 1).last() == all[i as int]);
            assert(content_of(*writer) =~= c0 + rendered(all.take(i + 1)));
        }
        i = i + 1;
    }
    proof {
        assert(all.take(msgs@.len() as int) =~= all);
        assert(c0 =~= content_of(*writer).subrange(0, c0.len() as int));
    }
    Ok(())
}

} // verus!
