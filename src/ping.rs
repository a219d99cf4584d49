//! The two health probes: the log probe, which reads the server's standard
//! output line by line, and the HTTP probe, which polls its web surface.
//! Each is a state machine whose decisions are exact functions of what it saw;
//! the threads, pipes and sockets that feed them live outside the library.

use vstd::prelude::*;
use vstd::string::StringSliceAdditionalSpecFns;
use vstd::utf8::encode_utf8;
use crate::text::{
    append_bytes, append_decimal, contains, contains_bytes, decimal, is_digit, starts_with,
    starts_with_bytes,
};

verus! {

/// The line the server prints once its configuration UI is serving.
pub const READY_MARKER: &'static str = "Configuration UI available";

/// The line the server prints when its capture layer is beyond repair.
pub const NVFBC_MARKER: &'static str = "Unable to cleanup NvFBC";

/// The bytes of the readiness marker.
pub open spec fn ready_marker() -> Seq<u8> {
    READY_MARKER.spec_bytes()
}

/// The bytes of the capture-layer failure marker.
pub open spec fn nvfbc_marker() -> Seq<u8> {
    NVFBC_MARKER.spec_bytes()
}

/// Why a probe asks for the server to be restarted.
#[derive(Clone, Copy, Debug, PartialEq, Eq, Structural)]
pub enum FailureKind {
    /// The capture layer failed after the server became ready.
    NvFBC,
    /// The web surface did not answer with status 200.
    WebPortal,
    /// The server closed its standard output.
    Eof,
}

impl FailureKind {
    /// The tag under which the failure is reported.
    pub fn tag(&self) -> (r: &'static str)
        ensures
            *self == FailureKind::NvFBC ==> r@ == "NvFBC"@,
            *self == FailureKind::WebPortal ==> r@ == "WebPortal"@,
            *self == FailureKind::Eof ==> r@ == "EOF"@,
    {
        match self {
            FailureKind::NvFBC => "NvFBC",
            FailureKind::WebPortal => "WebPortal",
            FailureKind::Eof => "EOF",
        }
    }
}

/// What the log probe does after looking at one line, or at the end of the stream.
#[derive(Clone, Copy, Debug, PartialEq, Eq, Structural)]
pub enum LogAction {
    /// Read the next line.
    Continue,
    /// Cross the readiness rendezvous, then read the next line.
    SignalReady,
    /// Report the failure and stop.
    Fail(FailureKind),
    /// The attempt is over (cancelled or failed elsewhere): stop without reporting.
    Stop,
}

/// What one line means to a log probe that has (`ready`) or has not yet seen the
/// readiness marker. The failure marker counts only after readiness.
pub open spec fn line_action(ready: bool, line: Seq<u8>) -> LogAction {
    if !ready && contains(line, ready_marker()) {
        LogAction::SignalReady
    } else if ready && contains(line, nvfbc_marker()) {
        LogAction::Fail(FailureKind::NvFBC)
    } else {
        LogAction::Continue
    }
}

/// The actions of a log probe that starts in state `ready` and reads `lines` to
/// the end of the stream, never asked to stop: one action per line read, up to
/// and including the first failure; an end-of-stream failure if the lines run out.
pub open spec fn probe_run(ready: bool, lines: Seq<Seq<u8>>) -> Seq<LogAction>
    decreases lines.len(),
{
    if lines.len() == 0 {
        seq![LogAction::Fail(FailureKind::Eof)]
    } else {
        let a = line_action(ready, lines[0]);
        if a is Fail {
            seq![a]
        } else {
            seq![a] + probe_run(ready || a is SignalReady, lines.drop_first())
        }
    }
}

/// The log probe: watches the server's standard output for the readiness marker,
/// and after it for the capture-layer failure marker.
#[derive(Clone, Copy, Debug)]
pub struct StdoutPing {
    ready: bool,
}

impl StdoutPing {
    /// Whether the readiness marker has been seen.
    pub closed spec fn spec_ready(&self) -> bool {
        self.ready
    }

    /// A probe for a fresh attempt: readiness not yet seen.
    pub fn new() -> (r: StdoutPing)
        ensures
            !r.spec_ready(),
    {
        StdoutPing { ready: false }
    }

    /// Whether the readiness marker has been seen.
    pub fn is_ready(&self) -> (r: bool)
        ensures
            r == self.spec_ready(),
    {
        self.ready
    }

    /// Looks at one line of output. `stop` tells that the attempt was cancelled or
    /// failed meanwhile, in which case the probe stops without reporting.
    pub fn on_line(&mut self, line: &[u8], stop: bool) -> (a: LogAction)
        ensures
            stop ==> a == LogAction::Stop && final(self).spec_ready() == old(self).spec_ready(),
            !stop ==> a == line_action(old(self).spec_ready(), line@),
            !stop ==> final(self).spec_ready() == (old(self).spec_ready() || a is SignalReady),
    {
        if stop {
            return LogAction::Stop;
        }
        if !self.ready && contains_bytes(line, READY_MARKER.as_bytes()) {
            self.ready = true;
            LogAction::SignalReady
        } else if self.ready && contains_bytes(line, NVFBC_MARKER.as_bytes()) {
            LogAction::Fail(FailureKind::NvFBC)
        } else {
            LogAction::Continue
        }
    }

    /// The stream ended: the server exited or closed its output.
    pub fn on_eof(&self, stop: bool) -> (a: LogAction)
        ensures
            a == (if stop { LogAction::Stop } else { LogAction::Fail(FailureKind::Eof) }),
    {
        if stop {
            LogAction::Stop
        } else {
            LogAction::Fail(FailureKind::Eof)
        }
    }

    /// Runs a fresh probe over a whole stream of lines, never asked to stop, and
    /// returns what it did at each line and at the end.
    pub fn scan(lines: &Vec<Vec<u8>>) -> (r: Vec<LogAction>)
        ensures
            r@ == probe_run(false, lines.deep_view()),
    {
        let mut probe = StdoutPing::new();
        let mut out: Vec<LogAction> = Vec::new();
        let mut i: usize = 0;
        assert(lines.deep_view().subrange(0, lines@.len() as int) =~= lines.deep_view());
        assert(out@ + probe_run(false, lines.deep_view()) =~= probe_run(false, lines.deep_view()));
        while i < lines.len()
            invariant
                i <= lines@.len(),
                out@ + probe_run(probe.spec_ready(), lines.deep_view().subrange(i as int, lines@.len() as int))
                    == probe_run(false, lines.deep_view()),
            decreases lines@.len() - i,
        {
            let ghost rest = lines.deep_view().subrange(i as int, lines@.len() as int);
            let ghost before = probe.spec_ready();
            let ghost out_before = out@;
            let a = probe.on_line(lines[i].as_slice(), false);
            assert(rest[0] == lines[i as int]@);
            assert(rest.drop_first() =~= lines.deep_view().subrange(i + 1, lines@.len() as int));
            out.push(a);
            if let LogAction::Fail(_) = a {
                assert(probe_run(before, rest) == seq![a]);
                assert(out@ =~= out_before + seq![a]);
                return out;
            }
            let ghost tail = probe_run(probe.spec_ready(), rest.drop_first());
            assert(probe_run(before, rest) == seq![a] + tail);
            assert(out@ + tail =~= out_before + (seq![a] + tail));
            i = i + 1;
        }
        let a = probe.on_eof(false);
        let ghost out_before = out@;
        out.push(a);
        assert(lines.deep_view().subrange(i as int, lines@.len() as int) =~= Seq::<Seq<u8>>::empty());
        assert(out@ =~= out_before + seq![a]);
        out
    }
}

/// Where a readiness signal or a capture-layer failure can stand in a run.
proof fn lemma_run_shape(ready: bool, lines: Seq<Seq<u8>>)
    ensures
        forall|i: int|
            0 <= i < probe_run(ready, lines).len() && #[trigger] probe_run(ready, lines)[i] is SignalReady
                ==> i < lines.len() && !ready && contains(lines[i], ready_marker())
                && forall|k: int| 0 <= k < i ==> !contains(#[trigger] lines[k], ready_marker()),
        forall|i: int|
            0 <= i < probe_run(ready, lines).len() && #[trigger] probe_run(ready, lines)[i]
                == LogAction::Fail(FailureKind::NvFBC) ==> i < lines.len() && (ready || exists|k: int|
                0 <= k < i && contains(#[trigger] lines[k], ready_marker())),
    decreases lines.len(),
{
    if lines.len() > 0 {
        let a = line_action(ready, lines[0]);
        if !(a is Fail) {
            let ready2 = ready || a is SignalReady;
            let tail = lines.drop_first();
            lemma_run_shape(ready2, tail);
            let r = probe_run(ready, lines);
            let rt = probe_run(ready2, tail);
            assert(r == seq![a] + rt);
            assert forall|i: int| 0 <= i < r.len() && #[trigger] r[i] is SignalReady implies i < lines.len()
                && !ready && contains(lines[i], ready_marker()) && forall|k: int|
                0 <= k < i ==> !contains(#[trigger] lines[k], ready_marker()) by {
                if i > 0 {
                    assert(r[i] == rt[i - 1]);
                    assert(tail[i - 1] == lines[i]);
                    assert forall|k: int| 0 <= k < i implies !contains(#[trigger] lines[k], ready_marker()) by {
                        if k > 0 {
                            assert(tail[k - 1] == lines[k]);
                        }
                    }
                }
            }
            assert forall|i: int| 0 <= i < r.len() && #[trigger] r[i] == LogAction::Fail(FailureKind::NvFBC)
                implies i < lines.len() && (ready || exists|k: int|
                0 <= k < i && contains(#[trigger] lines[k], ready_marker())) by {
                if i > 0 {
                    assert(r[i] == rt[i - 1]);
                    if !ready {
                        if a is SignalReady {
                            assert(contains(lines[0], ready_marker()));
                        } else {
                            let k = choose|k: int| 0 <= k < i - 1 && contains(#[trigger] tail[k], ready_marker());
                            assert(tail[k] == lines[k + 1]);
                        }
                    }
                }
            }
        }
    }
}

/// A fresh log probe crosses the readiness rendezvous at most once, and only on
/// a line that holds the readiness marker.
pub proof fn law_ready_at_most_once(lines: Seq<Seq<u8>>)
    ensures
        forall|i: int, j: int|
            0 <= i < j < probe_run(false, lines).len() ==> !(#[trigger] probe_run(false, lines)[i] is SignalReady
                && #[trigger] probe_run(false, lines)[j] is SignalReady),
        forall|i: int|
            0 <= i < probe_run(false, lines).len() && #[trigger] probe_run(false, lines)[i] is SignalReady
                ==> i < lines.len() && contains(lines[i], ready_marker()),
{
    lemma_run_shape(false, lines);
}

/// A fresh log probe never reports the capture-layer failure on a line that
/// comes before every line holding the readiness marker.
pub proof fn law_no_failure_before_ready(lines: Seq<Seq<u8>>)
    ensures
        forall|i: int|
            0 <= i < probe_run(false, lines).len() && #[trigger] probe_run(false, lines)[i]
                == LogAction::Fail(FailureKind::NvFBC) ==> exists|k: int|
                0 <= k < i && contains(#[trigger] lines[k], ready_marker()),
{
    lemma_run_shape(false, lines);
}


/// The scheme that asks for plain HTTP.
pub const HTTP_SCHEME: &'static str = "http://";

/// The scheme that asks for HTTP over TLS.
pub const HTTPS_SCHEME: &'static str = "https://";

/// What every status line this probe accepts begins with (HTTP/1.x).
pub const STATUS_PREFIX: &'static str = "HTTP/1.";

/// The request line and the start of the host header.
pub const REQUEST_HEAD: &'static str = "GET / HTTP/1.1\r\nHost: ";

/// The end of the request, after the host header's value.
pub const REQUEST_TAIL: &'static str = "\r\nConnection: close\r\n\r\n";

/// The length of the scheme that `host` begins with, if any.
pub open spec fn scheme_len(host: Seq<u8>) -> int {
    if starts_with(host, HTTP_SCHEME.spec_bytes()) {
        HTTP_SCHEME.spec_bytes().len() as int
    } else if starts_with(host, HTTPS_SCHEME.spec_bytes()) {
        HTTPS_SCHEME.spec_bytes().len() as int
    } else {
        0
    }
}

/// `host` with any leading scheme removed.
pub open spec fn host_name_of(host: Seq<u8>) -> Seq<u8> {
    host.subrange(scheme_len(host), host.len() as int)
}

/// The bytes of the GET request for the root of `host_name:port`.
pub open spec fn request_of(host_name: Seq<u8>, port: u16) -> Seq<u8> {
    REQUEST_HEAD.spec_bytes() + host_name + seq![58u8] + decimal(port as nat) + REQUEST_TAIL.spec_bytes()
}

/// The status code that a response begins with: the status line must read
/// `HTTP/1.`, a digit, a space, three digits, then a space, a carriage return or
/// the end of the bytes.
pub open spec fn status_of(resp: Seq<u8>) -> Option<u16> {
    let n = STATUS_PREFIX.spec_bytes().len() as int;
    if starts_with(resp, STATUS_PREFIX.spec_bytes()) && n + 5 <= resp.len() && is_digit(resp[n])
        && resp[n + 1] == 32u8 && is_digit(resp[n + 2]) && is_digit(resp[n + 3]) && is_digit(resp[n + 4])
        && (n + 5 == resp.len() || resp[n + 5] == 32u8 || resp[n + 5] == 13u8) {
        Some((100 * (resp[n + 2] - 48) + 10 * (resp[n + 3] - 48) + (resp[n + 4] - 48)) as u16)
    } else {
        None
    }
}

/// What the HTTP probe makes of one response: only status 200 keeps the server
/// alive; any other status, a response it cannot read, or none at all (`None`)
/// is a failure of the web surface.
pub open spec fn response_verdict(status: Option<u16>) -> Option<FailureKind> {
    if status == Some(200u16) {
        None
    } else {
        Some(FailureKind::WebPortal)
    }
}

/// The HTTP probe: once the server is ready, polls the root of its web surface
/// every `PROBE_PERIOD_SECS` seconds.
#[derive(Clone, Debug)]
pub struct HttpPing {
    host: String,
    port: u16,
}

/// Seconds between two requests of the HTTP probe.
pub const PROBE_PERIOD_SECS: u64 = 10;

impl HttpPing {
    /// The configured host, as given.
    pub closed spec fn spec_host(&self) -> Seq<char> {
        self.host@
    }

    /// The configured port.
    pub closed spec fn spec_port(&self) -> u16 {
        self.port
    }

    /// The bytes of the configured host.
    pub open spec fn host_bytes(&self) -> Seq<u8> {
        encode_utf8(self.spec_host())
    }

    /// A probe of `host:port`; `host` may begin with `http://` or `https://`.
    pub fn new(host: String, port: u16) -> (r: HttpPing)
        ensures
            r.spec_host() == host@,
            r.spec_port() == port,
    {
        HttpPing { host, port }
    }

    /// The configured host, as given.
    pub fn host(&self) -> (r: &str)
        ensures
            r@ == self.spec_host(),
    {
        self.host.as_str()
    }

    /// The configured port.
    pub fn port(&self) -> (r: u16)
        ensures
            r == self.spec_port(),
    {
        self.port
    }

    /// Whether the host asks for TLS (it begins with `https://`).
    pub fn uses_tls(&self) -> (r: bool)
        ensures
            r == starts_with(self.host_bytes(), HTTPS_SCHEME.spec_bytes()),
    {
        starts_with_bytes(self.host.as_str().as_bytes(), HTTPS_SCHEME.as_bytes())
    }

    /// The host to connect to: the configured host without its scheme.
    pub fn host_name(&self) -> (r: Vec<u8>)
        ensures
            r@ == host_name_of(self.host_bytes()),
    {
        let h = self.host.as_str().as_bytes();
        let skip: usize = if starts_with_bytes(h, HTTP_SCHEME.as_bytes()) {
            HTTP_SCHEME.as_bytes().len()
        } else if starts_with_bytes(h, HTTPS_SCHEME.as_bytes()) {
            HTTPS_SCHEME.as_bytes().len()
        } else {
            0
        };
        let mut out: Vec<u8> = Vec::new();
        let mut i: usize = skip;
        while i < h.len()
            invariant
                skip <= i <= h@.len(),
                skip == scheme_len(h@),
                out@ == h@.subrange(skip as int, i as int),
            decreases h@.len() - i,
        {
            out.push(h[i]);
            i = i + 1;
            assert(out@ =~= h@.subrange(skip as int, i as int));
        }
        out
    }

    /// The bytes of the GET request this probe sends.
    pub fn request(&self) -> (r: Vec<u8>)
        ensures
            r@ == request_of(host_name_of(self.host_bytes()), self.spec_port()),
    {
        let mut out: Vec<u8> = Vec::new();
        append_bytes(&mut out, REQUEST_HEAD.as_bytes());
        let name = self.host_name();
        append_bytes(&mut out, name.as_slice());
        out.push(58u8);
        append_decimal(&mut out, self.port);
        append_bytes(&mut out, REQUEST_TAIL.as_bytes());
        assert(out@ =~= request_of(host_name_of(self.host_bytes()), self.spec_port()));
        out
    }

    /// Whether to send the next request: not once the attempt was cancelled or
    /// marked failed.
    pub fn should_probe(canceled: bool, failed: bool) -> (r: bool)
        ensures
            r == (!canceled && !failed),
    {
        !canceled && !failed
    }

    /// What a connection attempt alone means, where no response can be read (a
    /// TLS surface and no TLS client): `None` to keep polling once connected,
    /// else the failure to report.
    pub fn on_connect(connected: bool) -> (r: Option<FailureKind>)
        ensures
            r == (if connected { None } else { Some(FailureKind::WebPortal) }),
    {
        if connected {
            None
        } else {
            Some(FailureKind::WebPortal)
        }
    }

    /// What one response means: `None` to keep polling, or the failure to report.
    pub fn on_response(status: Option<u16>) -> (r: Option<FailureKind>)
        ensures
            r == response_verdict(status),
    {
        match status {
            Some(code) => {
                if code == 200 {
                    None
                } else {
                    Some(FailureKind::WebPortal)
                }
            },
            None => Some(FailureKind::WebPortal),
        }
    }
}

/// The status code of a response, from the first bytes received.
pub fn status_code(resp: &[u8]) -> (r: Option<u16>)
    ensures
        r == status_of(resp@),
{
    let prefix = STATUS_PREFIX.as_bytes();
    if !starts_with_bytes(resp, prefix) {
        return None;
    }
    let n: usize = prefix.len();
    if resp.len() - n < 5 {
        return None;
    }
    let d0 = resp[n];
    let sp = resp[n + 1];
    let a = resp[n + 2];
    let b = resp[n + 3];
    let c = resp[n + 4];
    let ends = n + 5 == resp.len() || resp[n + 5] == 32u8 || resp[n + 5] == 13u8;
    if 48 <= d0 && d0 <= 57 && sp == 32u8 && 48 <= a && a <= 57 && 48 <= b && b <= 57 && 48 <= c
        && c <= 57 && ends {
        Some(100 * (a - 48) as u16 + 10 * (b - 48) as u16 + (c - 48) as u16)
    } else {
        None
    }
}

} // verus!
