//! The lifecycle controller's decisions: parsing the coprocessor state the
//! host read from the controller's `state` attribute, and composing the
//! small attribute-file writes that start, stop, reconfigure or remove the
//! coprocessor.  The host performs the filesystem traffic itself and hands
//! the results back as plain values.

use vstd::prelude::*;
use vstd::string::{StrSliceExecFns, StringExecFns};
use crate::text::str_content_eq;

verus! {

/// OS error code for a missing controller directory.
pub const ENOENT: i32 = 2;

/// Failures the lifecycle controller reports.
#[derive(Clone, Debug, PartialEq, Eq)]
pub enum RemoteProcError {
    /// An underlying host call failed; the raw OS error code is kept.
    Io(i32),
    /// The `state` attribute held data no state can be read from.
    InvalidState,
}

/// The lifecycle states a coprocessor reports.
#[derive(Clone, Debug, PartialEq, Eq)]
pub enum RemoteProcState {
    Offline,
    Booting,
    Online,
    Suspended,
    /// A state string this crate does not know, kept as the host wrote it.
    Unknown(String),
}

/// The whitespace the state parser strips from either end.
pub open spec fn is_space(c: char) -> bool {
    c == ' ' || c == '\t' || c == '\n' || c == '\r'
}

/// `s` without its leading whitespace.
pub open spec fn spec_trim_front(s: Seq<char>) -> Seq<char>
    decreases s.len(),
{
    if s.len() > 0 && is_space(s[0]) {
        spec_trim_front(s.subrange(1, s.len() as int))
    } else {
        s
    }
}

/// `s` without its trailing whitespace.
pub open spec fn spec_trim_back(s: Seq<char>) -> Seq<char>
    decreases s.len(),
{
    if s.len() > 0 && is_space(s[s.len() - 1]) {
        spec_trim_back(s.drop_last())
    } else {
        s
    }
}

/// `s` without leading or trailing whitespace.
pub open spec fn spec_trim(s: Seq<char>) -> Seq<char> {
    spec_trim_back(spec_trim_front(s))
}

proof fn lemma_trim_front_at(s: Seq<char>, i: int)
    requires
        0 <= i <= s.len(),
        forall|j: int| 0 <= j < i ==> is_space(s[j]),
        i < s.len() ==> !is_space(s[i]),
    ensures
        spec_trim_front(s) == s.subrange(i, s.len() as int),
    decreases i,
{
    if i == 0 {
        assert(s.subrange(0, s.len() as int) =~= s);
    } else {
        let t = s.subrange(1, s.len() as int);
        lemma_trim_front_at(t, i - 1);
        assert(t.subrange(i - 1, t.len() as int) =~= s.subrange(i, s.len() as int));
    }
}

proof fn lemma_trim_back_at(s: Seq<char>, e: int)
    requires
        0 <= e <= s.len(),
        forall|j: int| e <= j < s.len() ==> is_space(s[j]),
        e > 0 ==> !is_space(s[e - 1]),
    ensures
        spec_trim_back(s) == s.subrange(0, e),
    decreases s.len() - e,
{
    if e == s.len() {
        if s.len() > 0 {
            assert(!is_space(s[s.len() - 1]));
        }
        assert(s.subrange(0, e) =~= s);
    } else {
        assert(is_space(s[s.len() - 1]));
        lemma_trim_back_at(s.drop_last(), e);
        assert(s.drop_last().subrange(0, e) =~= s.subrange(0, e));
    }
}

/// Whether `c` counts as whitespace for the state parser.
fn is_space_char(c: char) -> (r: bool)
    ensures
        r == is_space(c),
{
    c == ' ' || c == '\t' || c == '\n' || c == '\r'
}

/// `s` without leading or trailing whitespace.
pub fn trim_str(s: &str) -> (t: &str)
    ensures
        t@ == spec_trim(s@),
{
    let n: usize = s.unicode_len();
    let mut a: usize = 0;
    while a < n && is_space_char(s.get_char(a))
        invariant
            a <= n,
            n == s@.len(),
            forall|j: int| 0 <= j < a ==> is_space(s@[j]),
        decreases n - a,
    {
        a = a + 1;
    }
    let mut b: usize = n;
    while b > a && is_space_char(s.get_char(b - 1))
        invariant
            a <= b <= n,
            n == s@.len(),
            forall|j: int| b <= j < n ==> is_space(s@[j]),
        decreases b,
    {
        b = b - 1;
    }
    proof {
        lemma_trim_front_at(s@, a as int);
        let fronted = s@.subrange(a as int, n as int);
        lemma_trim_back_at(fronted, b - a);
        assert(fronted.subrange(0, b - a) =~= s@.subrange(a as int, b as int));
    }
    s.substring_char(a, b)
}

/// How a `state` attribute's characters map to a parsed state: the four
/// known names after trimming, or `Unknown` carrying the trimmed text.
pub open spec fn is_state_parse(s: Seq<char>, r: RemoteProcState) -> bool {
    let t = spec_trim(s);
    if t == "offline"@ {
        r is Offline
    } else if t == "booting"@ {
        r is Booting
    } else if t == "online"@ {
        r is Online
    } else if t == "suspended"@ {
        r is Suspended
    } else {
        r matches RemoteProcState::Unknown(u) && u@ == t
    }
}

impl RemoteProcState {
    /// Parse the contents of a controller's `state` attribute.
    pub fn from_str(s: &str) -> (r: RemoteProcState)
        ensures
            is_state_parse(s@, r),
    {
        let t = trim_str(s);
        if str_content_eq(t, "offline") {
            RemoteProcState::Offline
        } else if str_content_eq(t, "booting") {
            RemoteProcState::Booting
        } else if str_content_eq(t, "online") {
            RemoteProcState::Online
        } else if str_content_eq(t, "suspended") {
            RemoteProcState::Suspended
        } else {
            RemoteProcState::Unknown(String::from_str(t))
        }
    }
}

/// One attribute-file write the host must perform on the controller's
/// behalf: the full path of the small attribute file and the exact text
/// to write into it.
#[derive(Debug)]
pub struct AttrWrite {
    /// Path of the attribute file.
    pub path: String,
    /// Text to write, exactly as given.
    pub data: String,
}

/// One lifecycle controller, addressed by its directory under the host's
/// controller class tree.
#[derive(Debug)]
pub struct RemoteProc {
    /// The controller's directory.
    pub path: String,
}

impl RemoteProc {
    /// The controller directory for `name`, provided the host says the
    /// directory is present; a missing one is the not-found IO failure.
    pub fn open(name: &str, exists: bool) -> (r: Result<RemoteProc, RemoteProcError>)
        ensures
            exists ==> (r matches Ok(p) && p.path@ == "/sys/class/remoteproc/"@ + name@),
            !exists ==> r == Err::<RemoteProc, RemoteProcError>(RemoteProcError::Io(ENOENT)),
    {
        if exists {
            Ok(RemoteProc { path: String::from_str("/sys/class/remoteproc/").concat(name) })
        } else {
            Err(RemoteProcError::Io(ENOENT))
        }
    }

    /// Full path of one of this controller's attribute files.
    pub fn attr_path(&self, attr: &str) -> (p: String)
        ensures
            p@ == self.path@ + "/"@ + attr@,
    {
        self.path.clone().concat("/").concat(attr)
    }

    /// The state parsed from what the host read out of the `state`
    /// attribute, or that read's own failure.
    pub fn state(&self, content: Result<String, i32>) -> (r: Result<
        RemoteProcState,
        RemoteProcError,
    >)
        ensures
            content matches Ok(s) ==> (r matches Ok(st) && is_state_parse(s@, st)),
            content matches Err(e) ==> r == Err::<RemoteProcState, RemoteProcError>(
                RemoteProcError::Io(e),
            ),
    {
        match content {
            Ok(s) => Ok(RemoteProcState::from_str(s.as_str())),
            Err(e) => Err(RemoteProcError::Io(e)),
        }
    }

    /// The attribute write that names the firmware the kernel is to load
    /// when this coprocessor next starts.
    pub fn set_firmware(&self, firmware: &str) -> (w: AttrWrite)
        ensures
            w.path@ == self.path@ + "/firmware"@,
            w.data@ == firmware@,
    {
        proof {
            reveal_strlit("/");
            reveal_strlit("firmware");
            reveal_strlit("/firmware");
            assert(self.path@ + "/"@ + "firmware"@ =~= self.path@ + "/firmware"@);
        }
        AttrWrite { path: self.attr_path("firmware"), data: String::from_str(firmware) }
    }

    /// The attribute write that starts the coprocessor.
    pub fn start(&self) -> (w: AttrWrite)
        ensures
            w.path@ == self.path@ + "/state"@,
            w.data@ == "start"@,
    {
        proof {
            reveal_strlit("/");
            reveal_strlit("state");
            reveal_strlit("/state");
            assert(self.path@ + "/"@ + "state"@ =~= self.path@ + "/state"@);
        }
        AttrWrite { path: self.attr_path("state"), data: String::from_str("start") }
    }

    /// The attribute write that stops the coprocessor.
    pub fn stop(&self) -> (w: AttrWrite)
        ensures
            w.path@ == self.path@ + "/state"@,
            w.data@ == "stop"@,
    {
        proof {
            reveal_strlit("/");
            reveal_strlit("state");
            reveal_strlit("/state");
            assert(self.path@ + "/"@ + "state"@ =~= self.path@ + "/state"@);
        }
        AttrWrite { path: self.attr_path("state"), data: String::from_str("stop") }
    }

    /// The attribute write that removes or unbinds the coprocessor device.
    pub fn remove(&self) -> (w: AttrWrite)
        ensures
            w.path@ == self.path@ + "/state"@,
            w.data@ == "remove"@,
    {
        proof {
            reveal_strlit("/");
            reveal_strlit("state");
            reveal_strlit("/state");
            assert(self.path@ + "/"@ + "state"@ =~= self.path@ + "/state"@);
        }
        AttrWrite { path: self.attr_path("state"), data: String::from_str("remove") }
    }
}

} // verus!
