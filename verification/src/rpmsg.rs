//! The messaging core: endpoint resolution, shape classification and the
//! per-shape framing of messages, together with the decisions behind the
//! timeout-capable read and the send rule.
//!
//! The channel itself is a state machine over plain values.  A host driver
//! owns the descriptor and performs the system calls; it hands the channel
//! the outcome of each call (`feed`, `resolve_wait`, `complete_send`) and the
//! channel decides what the caller observes.  Both the blocking and the
//! event-driven drivers run the same machine, so the framing rules are
//! written once.

use vstd::prelude::*;
use vstd::string::{StrSliceExecFns, StringExecFns};
use crate::text::{spec_starts_with, str_starts_with};

verus! {

/// Largest number of bytes one byte-stream read delivers as a single message.
pub const MAX_MESSAGE: usize = 4096;

/// The shape of an endpoint, fixed when it is opened and never changed.
#[derive(Clone, Copy, Debug, PartialEq, Eq, Structural)]
pub enum ChannelShape {
    /// Bidirectional device exchanging opaque byte payloads.
    RawByteStream,
    /// Read-only file exposing newline-delimited lifecycle events.
    LineNotification,
}

/// Failures the messaging core reports to its callers.
#[derive(Clone, Debug, PartialEq, Eq)]
pub enum RpmsgError {
    /// An underlying host call failed; the raw OS error code is kept.
    Io(i32),
    /// Discovery or resolution matched no endpoint.
    NotFound,
    /// A send was attempted on a read-only notification endpoint.
    UnsupportedOperation,
}

/// How a bounded wait for readability ended.
#[derive(Clone, Copy, Debug, PartialEq, Eq)]
pub enum WaitOutcome {
    /// The descriptor was reported readable.
    Ready,
    /// The deadline passed with no readiness signal.
    TimedOut,
    /// The readiness primitive itself failed with this OS error code.
    Failed(i32),
}

/// How one bounded write attempt ended.
#[derive(Clone, Copy, Debug, PartialEq, Eq)]
pub enum WriteOutcome {
    /// The call accepted this many bytes.
    Wrote(usize),
    /// The descriptor had no room despite a writable signal.
    WouldBlock,
    /// The write failed with this OS error code.
    Failed(i32),
}

/// Number of well-known per-core notification paths.
pub const UEVENT_PATH_COUNT: usize = 2;

/// The well-known notification path for core `k`.
pub open spec fn spec_uevent_path(k: int) -> Seq<char> {
    if k == 0 {
        "/dev/remoteproc/pruss-core0/uevent"@
    } else {
        "/dev/remoteproc/pruss-core1/uevent"@
    }
}

/// The fixed, ordered table of well-known per-core notification paths.
/// Its order defines the index used by `Rpmsg::open_core`.
pub fn uevent_paths() -> (r: Vec<String>)
    ensures
        r@.len() == UEVENT_PATH_COUNT,
        forall|k: int| 0 <= k < UEVENT_PATH_COUNT ==> r@[k]@ == spec_uevent_path(k),
{
    let mut v: Vec<String> = Vec::new();
    v.push(String::from_str("/dev/remoteproc/pruss-core0/uevent"));
    v.push(String::from_str("/dev/remoteproc/pruss-core1/uevent"));
    v
}

/// The naming rule for byte-stream endpoints under `/dev`.
pub open spec fn is_raw_endpoint_name(s: Seq<char>) -> bool {
    spec_starts_with(s, "rpmsg"@)
}

/// `i` is the position of the first newline byte of `s`.
pub open spec fn is_first_newline(s: Seq<u8>, i: int) -> bool {
    &&& 0 <= i < s.len()
    &&& s[i] == 10u8
    &&& forall|j: int| 0 <= j < i ==> s[j] != 10u8
}

/// `s` holds at least one newline byte.
pub open spec fn has_newline(s: Seq<u8>) -> bool {
    exists|i: int| is_first_newline(s, i)
}

/// The position of the first newline byte of `s`.
pub open spec fn first_newline(s: Seq<u8>) -> int
    recommends
        has_newline(s),
{
    choose|i: int| is_first_newline(s, i)
}

pub proof fn lemma_first_newline_unique(s: Seq<u8>, i: int, j: int)
    requires
        is_first_newline(s, i),
        is_first_newline(s, j),
    ensures
        i == j,
{
    if i < j {
        assert(s[i] != 10u8);
    }
    if j < i {
        assert(s[j] != 10u8);
    }
}

/// The shared decode rule: whether the bytes buffered from an endpoint of
/// this shape already form one complete message.  An empty chunk from the
/// host marks end-of-stream, after which whatever is buffered is complete.
pub open spec fn spec_message_ready(shape: ChannelShape, buf: Seq<u8>, eof: bool) -> bool {
    match shape {
        ChannelShape::RawByteStream => buf.len() > 0 || eof,
        ChannelShape::LineNotification => has_newline(buf) || eof,
    }
}

/// The message the shared decode rule extracts: for a byte stream, exactly
/// the bytes one read produced; for a notification file, exactly the first
/// line with its terminator, or the terminator-free tail at end-of-stream.
pub open spec fn spec_next_message(shape: ChannelShape, buf: Seq<u8>, eof: bool) -> Seq<u8>
    recommends
        spec_message_ready(shape, buf, eof),
{
    match shape {
        ChannelShape::RawByteStream => buf,
        ChannelShape::LineNotification => if has_newline(buf) {
            buf.subrange(0, first_newline(buf) + 1)
        } else {
            buf
        },
    }
}

/// The bytes that stay buffered after the next message is extracted.
pub open spec fn spec_remainder(shape: ChannelShape, buf: Seq<u8>, eof: bool) -> Seq<u8>
    recommends
        spec_message_ready(shape, buf, eof),
{
    match shape {
        ChannelShape::RawByteStream => Seq::<u8>::empty(),
        ChannelShape::LineNotification => if has_newline(buf) {
            buf.subrange(first_newline(buf) + 1, buf.len() as int)
        } else {
            Seq::<u8>::empty()
        },
    }
}

/// Position of the first newline byte of `v`, if any.
fn find_newline(v: &Vec<u8>) -> (r: Option<usize>)
    ensures
        r matches Some(i) ==> is_first_newline(v@, i as int),
        r is None ==> !has_newline(v@),
{
    let n: usize = v.len();
    let mut i: usize = 0;
    while i < n
        invariant
            i <= n,
            n == v@.len(),
            forall|j: int| 0 <= j < i ==> v@[j] != 10u8,
        decreases n - i,
    {
        if v[i] == 10u8 {
            return Some(i);
        }
        i = i + 1;
    }
    None
}

/// One open messaging endpoint, as the verified core sees it: its path, its
/// shape, and the bytes received from the host but not yet delivered.  The
/// host driver that owns the descriptor keeps it beside this state.
#[derive(Debug)]
pub struct Rpmsg {
    /// Filesystem path of the endpoint.
    pub path: String,
    /// Shape fixed at open.
    pub shape: ChannelShape,
    /// Bytes read from the endpoint and not yet handed to the caller.
    pub pending: Vec<u8>,
    /// The host reported end-of-stream on this endpoint.
    pub at_eof: bool,
}

impl Rpmsg {
    /// Channel state for a named byte-stream device under `/dev`.
    pub fn open(name: &str) -> (c: Rpmsg)
        ensures
            c.shape is RawByteStream,
            c.path@ == "/dev/"@ + name@,
            c.pending@ == Seq::<u8>::empty(),
            !c.at_eof,
    {
        Rpmsg {
            path: String::from_str("/dev/").concat(name),
            shape: ChannelShape::RawByteStream,
            pending: Vec::new(),
            at_eof: false,
        }
    }

    /// Filter a `/dev` directory listing down to the byte-stream endpoint
    /// names, keeping their order.
    pub fn list(dev_names: &Vec<String>) -> (out: Vec<String>)
        ensures
            out.deep_view() == dev_names.deep_view().filter(|s: Seq<char>| is_raw_endpoint_name(s)),
    {
        let n: usize = dev_names.len();
        let mut out: Vec<String> = Vec::new();
        let mut i: usize = 0;
        proof {
            assert(dev_names.deep_view().subrange(0, 0) =~= Seq::<Seq<char>>::empty());
            reveal(Seq::filter);
        }
        while i < n
            invariant
                i <= n,
                n == dev_names@.len(),
                out.deep_view() == dev_names.deep_view().subrange(0, i as int).filter(
                    |s: Seq<char>| is_raw_endpoint_name(s),
                ),
            decreases n - i,
        {
            let keep = str_starts_with(dev_names[i].as_str(), "rpmsg");
            let ghost prev = out.deep_view();
            if keep {
                out.push(dev_names[i].clone());
            }
            proof {
                broadcast use Seq::<Seq<char>>::lemma_filter_push;

                let dv = dev_names.deep_view();
                assert(dv[i as int] == dev_names@[i as int]@);
                assert(dv.subrange(0, i + 1) =~= dv.subrange(0, i as int).push(dv[i as int]));
                if keep {
                    assert(out.deep_view() =~= prev.push(dev_names@[i as int]@));
                }
            }
            i = i + 1;
        }
        proof {
            assert(dev_names.deep_view().subrange(0, n as int) =~= dev_names.deep_view());
        }
        out
    }

    /// Channel state for a notification file at an arbitrary path, provided
    /// the host says the path is present.
    pub fn open_core_by_name(path: &str, exists: bool) -> (r: Result<Rpmsg, RpmsgError>)
        ensures
            exists ==> (r matches Ok(c) && c.shape is LineNotification && c.path@ == path@
                && c.pending@.len() == 0 && !c.at_eof),
            !exists ==> r == Err::<Rpmsg, RpmsgError>(RpmsgError::NotFound),
    {
        if exists {
            Ok(
                Rpmsg {
                    path: String::from_str(path),
                    shape: ChannelShape::LineNotification,
                    pending: Vec::new(),
                    at_eof: false,
                },
            )
        } else {
            Err(RpmsgError::NotFound)
        }
    }

    /// Channel state for the notification file of the core at index `core`
    /// of the well-known table.  An index beyond the table and a listed but
    /// absent path both yield `NotFound`; the caller cannot tell them apart.
    pub fn open_core(core: usize, present: &Vec<bool>) -> (r: Result<Rpmsg, RpmsgError>)
        requires
            present@.len() == UEVENT_PATH_COUNT,
        ensures
            core < UEVENT_PATH_COUNT && present@[core as int] ==> (r matches Ok(c)
                && c.shape is LineNotification && c.path@ == spec_uevent_path(core as int)
                && c.pending@.len() == 0 && !c.at_eof),
            !(core < UEVENT_PATH_COUNT && present@[core as int]) ==> r == Err::<
                Rpmsg,
                RpmsgError,
            >(RpmsgError::NotFound),
    {
        if core < UEVENT_PATH_COUNT {
            if present[core] {
                let paths = uevent_paths();
                Ok(
                    Rpmsg {
                        path: paths[core].clone(),
                        shape: ChannelShape::LineNotification,
                        pending: Vec::new(),
                        at_eof: false,
                    },
                )
            } else {
                Err(RpmsgError::NotFound)
            }
        } else {
            Err(RpmsgError::NotFound)
        }
    }

    /// Pick the endpoint to open when the caller names none: the first
    /// well-known notification path present on this host wins; otherwise
    /// the first listed byte-stream endpoint; otherwise nothing matched.
    /// `raw_names` is the listing `Rpmsg::list` produced.
    pub fn open_first(present: &Vec<bool>, raw_names: &Vec<String>) -> (r: Result<
        Rpmsg,
        RpmsgError,
    >)
        requires
            present@.len() == UEVENT_PATH_COUNT,
        ensures
            present@[0] ==> (r matches Ok(c) && c.shape is LineNotification && c.path@
                == spec_uevent_path(0) && c.pending@.len() == 0 && !c.at_eof),
            !present@[0] && present@[1] ==> (r matches Ok(c) && c.shape is LineNotification
                && c.path@ == spec_uevent_path(1) && c.pending@.len() == 0 && !c.at_eof),
            !present@[0] && !present@[1] && raw_names@.len() > 0 ==> (r matches Ok(c)
                && c.shape is RawByteStream && c.path@ == "/dev/"@ + raw_names@[0]@
                && c.pending@.len() == 0 && !c.at_eof),
            !present@[0] && !present@[1] && raw_names@.len() == 0 ==> r == Err::<
                Rpmsg,
                RpmsgError,
            >(RpmsgError::NotFound),
    {
        if present[0] {
            Self::open_core(0, present)
        } else if present[1] {
            Self::open_core(1, present)
        } else if raw_names.len() > 0 {
            Ok(Self::open(raw_names[0].as_str()))
        } else {
            Err(RpmsgError::NotFound)
        }
    }

    /// The path this channel was resolved to.
    pub fn path(&self) -> (p: &String)
        ensures
            p == self.path,
    {
        &self.path
    }

    /// Whether the endpoint is a read-only notification file.
    pub fn is_uevent(&self) -> (r: bool)
        ensures
            r == (self.shape is LineNotification),
    {
        match self.shape {
            ChannelShape::LineNotification => true,
            ChannelShape::RawByteStream => false,
        }
    }

    /// Hand the channel the outcome of one bounded read: the bytes the call
    /// produced, or an empty chunk for end-of-stream.  A byte-stream channel
    /// must be drained between reads, so that a message is exactly one
    /// read's bytes.
    pub fn feed(&mut self, chunk: Vec<u8>)
        requires
            old(self).shape is RawByteStream ==> old(self).pending@.len() == 0,
            chunk@.len() <= MAX_MESSAGE,
        ensures
            final(self).path == old(self).path,
            final(self).shape == old(self).shape,
            chunk@.len() > 0 ==> final(self).pending@ == old(self).pending@ + chunk@
                && final(self).at_eof == old(self).at_eof,
            chunk@.len() == 0 ==> final(self).pending == old(self).pending && final(self).at_eof,
    {
        if chunk.len() == 0 {
            self.at_eof = true;
        } else {
            let mut c = chunk;
            self.pending.append(&mut c);
        }
    }

    /// Whether this channel may send at all.  A notification endpoint never
    /// may: the caller gets the unsupported-operation error before any
    /// write is attempted.
    pub fn check_send(&self) -> (r: Result<(), RpmsgError>)
        ensures
            self.shape is RawByteStream ==> r == Ok::<(), RpmsgError>(()),
            self.shape is LineNotification ==> r == Err::<(), RpmsgError>(
                RpmsgError::UnsupportedOperation,
            ),
    {
        match self.shape {
            ChannelShape::RawByteStream => Ok(()),
            ChannelShape::LineNotification => Err(RpmsgError::UnsupportedOperation),
        }
    }

    /// The count reported to the caller once the single host write attempt
    /// ends: the bytes that call accepted, zero for a spurious would-block
    /// after a writable signal, or the underlying failure.  No retry is
    /// ever requested.
    pub fn complete_send(&self, w: &WriteOutcome) -> (r: Result<usize, RpmsgError>)
        requires
            self.shape is RawByteStream,
        ensures
            w matches WriteOutcome::Wrote(n) ==> r == Ok::<usize, RpmsgError>(*n),
            w is WouldBlock ==> r == Ok::<usize, RpmsgError>(0),
            w matches WriteOutcome::Failed(e) ==> r == Err::<usize, RpmsgError>(RpmsgError::Io(*e)),
    {
        match w {
            WriteOutcome::Wrote(n) => Ok(*n),
            WriteOutcome::WouldBlock => Ok(0),
            WriteOutcome::Failed(e) => Err(RpmsgError::Io(*e)),
        }
    }

    /// Extract the next message, if the buffered bytes already form one
    /// under the shared decode rule for this channel's shape.  The state is
    /// untouched when no message is ready.
    pub fn poll_message(&mut self) -> (r: Option<Vec<u8>>)
        ensures
            final(self).path == old(self).path,
            final(self).shape == old(self).shape,
            final(self).at_eof == old(self).at_eof,
            spec_message_ready(old(self).shape, old(self).pending@, old(self).at_eof) ==> {
                &&& r matches Some(m)
                    && m@ == spec_next_message(old(self).shape, old(self).pending@, old(self).at_eof)
                &&& final(self).pending@ == spec_remainder(
                    old(self).shape,
                    old(self).pending@,
                    old(self).at_eof,
                )
            },
            !spec_message_ready(old(self).shape, old(self).pending@, old(self).at_eof) ==> {
                r is None && final(self).pending == old(self).pending
            },
    {
        match self.shape {
            ChannelShape::RawByteStream => {
                if self.pending.len() > 0 || self.at_eof {
                    let mut msg: Vec<u8> = Vec::new();
                    core::mem::swap(&mut msg, &mut self.pending);
                    Some(msg)
                } else {
                    None
                }
            },
            ChannelShape::LineNotification => {
                match find_newline(&self.pending) {
                    Some(i) => {
                        let n: usize = self.pending.len();
                        proof {
                            assert(i < n);
                            let w = first_newline(self.pending@);
                            assert(is_first_newline(self.pending@, w));
                            lemma_first_newline_unique(self.pending@, i as int, w);
                        }
                        let mut line = self.pending.split_off(i + 1);
                        core::mem::swap(&mut line, &mut self.pending);
                        Some(line)
                    },
                    None => {
                        if self.at_eof {
                            let mut msg: Vec<u8> = Vec::new();
                            core::mem::swap(&mut msg, &mut self.pending);
                            Some(msg)
                        } else {
                            None
                        }
                    },
                }
            },
        }
    }
}

/// Millisecond bound handed to the OS readiness wait: no deadline maps to
/// the sentinel that waits forever, and an oversized one saturates.
pub fn poll_timeout_millis(timeout: Option<u64>) -> (r: i32)
    ensures
        timeout is None ==> r == -1,
        timeout matches Some(ms) ==> r == (if ms > i32::MAX as u64 {
            i32::MAX as int
        } else {
            ms as int
        }),
{
    match timeout {
        None => -1,
        Some(ms) => if ms > i32::MAX as u64 {
            i32::MAX
        } else {
            ms as i32
        },
    }
}

/// The verdict a bounded readability wait earns: `Ok(true)` means proceed
/// to the shared read path, `Ok(false)` is the distinct "no message"
/// outcome, and only the primitive's own failure is an error.
pub open spec fn spec_wait_verdict(w: WaitOutcome) -> Result<bool, RpmsgError> {
    match w {
        WaitOutcome::Ready => Ok(true),
        WaitOutcome::TimedOut => Ok(false),
        WaitOutcome::Failed(e) => Err(RpmsgError::Io(e)),
    }
}

/// The caller-visible verdict of a bounded readability wait.  A timeout is
/// never an error, and it never touches the channel.
pub fn resolve_wait(w: &WaitOutcome) -> (r: Result<bool, RpmsgError>)
    ensures
        r == spec_wait_verdict(*w),
{
    match w {
        WaitOutcome::Ready => Ok(true),
        WaitOutcome::TimedOut => Ok(false),
        WaitOutcome::Failed(e) => Err(RpmsgError::Io(*e)),
    }
}

/// An expired wait is reported as the distinct "no message" outcome:
/// not an error, not a message, and — since the verdict never touches the
/// channel — no buffered byte is lost to it.
pub proof fn lemma_timeout_is_not_an_error()
    ensures
        spec_wait_verdict(WaitOutcome::TimedOut) == Ok::<bool, RpmsgError>(false),
{
}

/// A read without a deadline behaves exactly like the plain blocking read:
/// its unbounded wait can only end `Ready` or `Failed`, so the "no
/// message" outcome is impossible, and the two remaining verdicts send
/// both reads down the same shared framing path with the same channel.
pub proof fn lemma_unbounded_read_matches_blocking(w: WaitOutcome)
    requires
        w !is TimedOut,
    ensures
        spec_wait_verdict(w) != Ok::<bool, RpmsgError>(false),
        w is Ready ==> spec_wait_verdict(w) == Ok::<bool, RpmsgError>(true),
        w matches WaitOutcome::Failed(e) ==> spec_wait_verdict(w) == Err::<bool, RpmsgError>(
            RpmsgError::Io(e),
        ),
{
}

/// One well-formed line: nonempty, newline-terminated, and holding no
/// earlier newline.
pub open spec fn is_single_line(l: Seq<u8>) -> bool {
    &&& l.len() > 0
    &&& l[l.len() - 1] == 10u8
    &&& forall|j: int| 0 <= j < l.len() - 1 ==> l[j] != 10u8
}

/// Every element of `ls` is a well-formed line.
pub open spec fn all_single_lines(ls: Seq<Seq<u8>>) -> bool {
    forall|i: int| 0 <= i < ls.len() ==> is_single_line(#[trigger] ls[i])
}

/// The bytes of the lines of `ls`, in order.
pub open spec fn concat_lines(ls: Seq<Seq<u8>>) -> Seq<u8>
    decreases ls.len(),
{
    if ls.len() == 0 {
        Seq::<u8>::empty()
    } else {
        ls[0] + concat_lines(ls.subrange(1, ls.len() as int))
    }
}

/// When the buffered bytes begin with one full line, the shared decode
/// rule delivers exactly that line, terminator kept, and leaves exactly
/// the bytes after it — whatever follows and whether or not the stream
/// has ended.
pub proof fn lemma_line_delivered_unmodified(line: Seq<u8>, rest: Seq<u8>, eof: bool)
    requires
        is_single_line(line),
    ensures
        spec_message_ready(ChannelShape::LineNotification, line + rest, eof),
        spec_next_message(ChannelShape::LineNotification, line + rest, eof) == line,
        spec_remainder(ChannelShape::LineNotification, line + rest, eof) == rest,
{
    let s = line + rest;
    let k = line.len() - 1;
    assert(is_first_newline(s, k));
    let w = first_newline(s);
    assert(is_first_newline(s, w));
    lemma_first_newline_unique(s, k, w);
    assert(s.subrange(0, k + 1) =~= line);
    assert(s.subrange(k + 1, s.len() as int) =~= rest);
}

/// A delivered notification message is always whole: either it ends with
/// the newline that framed it, or the stream itself has ended and the
/// message is the terminator-free tail.  A partial line is never handed
/// out while the stream lives.
pub proof fn lemma_notification_message_is_whole(buf: Seq<u8>, eof: bool)
    requires
        spec_message_ready(ChannelShape::LineNotification, buf, eof),
    ensures
        has_newline(buf) ==> {
            let m = spec_next_message(ChannelShape::LineNotification, buf, eof);
            m.len() > 0 && m[m.len() - 1] == 10u8
        },
        !has_newline(buf) ==> eof,
{
    if has_newline(buf) {
        let w = first_newline(buf);
        assert(is_first_newline(buf, w));
        let m = buf.subrange(0, w + 1);
        assert(m[m.len() - 1] == buf[w]);
    }
}

/// A notification source holding the lines of `ls` replays them in order:
/// after `k` reads the buffer holds exactly the lines from `k` on, and the
/// next read delivers exactly `ls[k]`, unmodified.  So `ls.len()`
/// successive reads reproduce the pre-populated lines one by one.
pub proof fn lemma_lines_replay_in_order(ls: Seq<Seq<u8>>, k: int, eof: bool)
    requires
        all_single_lines(ls),
        0 <= k < ls.len(),
    ensures
        concat_lines(ls.subrange(k, ls.len() as int)) == ls[k] + concat_lines(
            ls.subrange(k + 1, ls.len() as int),
        ),
        spec_message_ready(ChannelShape::LineNotification, concat_lines(ls.subrange(k, ls.len() as int)), eof),
        spec_next_message(ChannelShape::LineNotification, concat_lines(ls.subrange(k, ls.len() as int)), eof)
            == ls[k],
        spec_remainder(ChannelShape::LineNotification, concat_lines(ls.subrange(k, ls.len() as int)), eof)
            == concat_lines(ls.subrange(k + 1, ls.len() as int)),
{
    let tail = ls.subrange(k, ls.len() as int);
    assert(tail[0] == ls[k]);
    assert(tail.subrange(1, tail.len() as int) =~= ls.subrange(k + 1, ls.len() as int));
    assert(concat_lines(tail) == ls[k] + concat_lines(ls.subrange(k + 1, ls.len() as int)));
    lemma_line_delivered_unmodified(ls[k], concat_lines(ls.subrange(k + 1, ls.len() as int)), eof);
}

} // verus!

