//! The measurement side: probe servers, bandwidth test results, and the
//! capability interface of the bandwidth tester.
//!
//! Latency and packet-loss readings are opaque numeric pass-throughs: the
//! pipeline never computes with them, only copies their textual rendering
//! into a row, so they are carried as text. Byte counts and the raw
//! byte-rate bandwidth figure are integers the pipeline does compute with.

use vstd::math::abs;
use vstd::prelude::*;

use crate::render::{pad2_seq, pad4_seq, u32_to_string_pad2, u32_to_string_pad4};
use vstd::string::StringExecFns;

verus! {

/// Failures of the measurement layer: the probe tooling could not be
/// invoked, or its output could not be parsed into the expected shape.
#[derive(Clone, Copy, Debug, PartialEq, Eq, Structural)]
pub enum BandwidthMonitorError {
    ProbeUnavailable,
    ProbeMalformedOutput,
    Unknown,
}

pub type ResultT<T> = Result<T, BandwidthMonitorError>;

/// A point in time on the local clock, at second resolution, with the
/// local clock's offset from UTC.
#[derive(Clone, Copy, Debug, PartialEq, Eq, Structural)]
pub struct Timestamp {
    pub year: u16,
    pub month: u8,
    pub day: u8,
    pub hour: u8,
    pub minute: u8,
    pub second: u8,
    /// Offset of the local clock from UTC, in minutes east.
    pub offset_minutes: i16,
}

impl Timestamp {
    pub open spec fn wf(self) -> bool {
        &&& self.year <= 9999
        &&& 1 <= self.month <= 12
        &&& 1 <= self.day <= 31
        &&& self.hour <= 23
        &&& self.minute <= 59
        &&& self.second <= 59
        &&& -1439 <= self.offset_minutes <= 1439
    }
}

/// The `±HH:MM` rendering of an offset of `off` minutes east of UTC.
pub open spec fn offset_seq(off: int) -> Seq<char> {
    let sign = if off >= 0 {
        seq!['+']
    } else {
        seq!['-']
    };
    sign + pad2_seq((abs(off) / 60) as nat) + seq![':'] + pad2_seq((abs(off) % 60) as nat)
}

/// The RFC 3339 rendering `YYYY-MM-DDTHH:MM:SS±HH:MM` of a timestamp.
pub open spec fn rfc3339_seq(ts: Timestamp) -> Seq<char> {
    pad4_seq(ts.year as nat) + seq!['-'] + pad2_seq(ts.month as nat) + seq!['-'] + pad2_seq(
        ts.day as nat,
    ) + seq!['T'] + pad2_seq(ts.hour as nat) + seq![':'] + pad2_seq(ts.minute as nat) + seq![':']
        + pad2_seq(ts.second as nat) + offset_seq(ts.offset_minutes as int)
}

impl Timestamp {
    /// Renders the timestamp in RFC 3339 form with its offset.
    pub fn to_rfc3339(&self) -> (s: String)
        requires
            self.wf(),
        ensures
            s@ == rfc3339_seq(*self),
    {
        proof {
            reveal_strlit("-");
            reveal_strlit("T");
            reveal_strlit(":");
            reveal_strlit("+");
        }
        let mut s = u32_to_string_pad4(self.year as u32);
        s.append("-");
        let month = u32_to_string_pad2(self.month as u32);
        s.append(month.as_str());
        s.append("-");
        let day = u32_to_string_pad2(self.day as u32);
        s.append(day.as_str());
        s.append("T");
        let hour = u32_to_string_pad2(self.hour as u32);
        s.append(hour.as_str());
        s.append(":");
        let minute = u32_to_string_pad2(self.minute as u32);
        s.append(minute.as_str());
        s.append(":");
        let second = u32_to_string_pad2(self.second as u32);
        s.append(second.as_str());
        let magnitude: u32 = if self.offset_minutes >= 0 {
            s.append("+");
            self.offset_minutes as u32
        } else {
            s.append("-");
            (-self.offset_minutes) as u32
        };
        let off_hour = u32_to_string_pad2(magnitude / 60);
        s.append(off_hour.as_str());
        s.append(":");
        let off_minute = u32_to_string_pad2(magnitude % 60);
        s.append(off_minute.as_str());
        proof {
            assert(s@ =~= rfc3339_seq(*self));
        }
        s
    }
}

/// The identity of a probe endpoint. The name doubles as the title of the
/// destination table and must be non-empty.
#[derive(Debug)]
pub struct Server {
    pub id: u32,
    pub host: String,
    pub name: String,
    pub location: String,
}

#[verifier::ext_equal]
pub ghost struct ServerModel {
    pub id: u32,
    pub host: Seq<char>,
    pub name: Seq<char>,
    pub location: Seq<char>,
}

impl View for Server {
    type V = ServerModel;

    open spec fn view(&self) -> ServerModel {
        ServerModel { id: self.id, host: self.host@, name: self.name@, location: self.location@ }
    }
}

impl DeepView for Server {
    type V = ServerModel;

    open spec fn deep_view(&self) -> ServerModel {
        self.view()
    }
}

impl Server {
    pub open spec fn wf(self) -> bool {
        self.name@.len() > 0
    }
}

/// The probe servers to test, in the order they should be tested.
#[derive(Debug)]
pub struct ServerList {
    pub servers: Vec<Server>,
}

impl View for ServerList {
    type V = Seq<ServerModel>;

    open spec fn view(&self) -> Seq<ServerModel> {
        self.servers.deep_view()
    }
}

/// Idle ping metrics, each reading carried as its textual rendering.
#[derive(Debug)]
pub struct Ping {
    pub jitter: String,
    pub latency: String,
    pub low: String,
    pub high: String,
}

#[verifier::ext_equal]
pub ghost struct PingModel {
    pub jitter: Seq<char>,
    pub latency: Seq<char>,
    pub low: Seq<char>,
    pub high: Seq<char>,
}

impl View for Ping {
    type V = PingModel;

    open spec fn view(&self) -> PingModel {
        PingModel {
            jitter: self.jitter@,
            latency: self.latency@,
            low: self.low@,
            high: self.high@,
        }
    }
}

/// A latency distribution summary, each reading carried as its textual
/// rendering; `iqm` is the interquartile mean.
#[derive(Debug)]
pub struct Latency {
    pub iqm: String,
    pub low: String,
    pub high: String,
    pub jitter: String,
}

#[verifier::ext_equal]
pub ghost struct LatencyModel {
    pub iqm: Seq<char>,
    pub low: Seq<char>,
    pub high: Seq<char>,
    pub jitter: Seq<char>,
}

impl View for Latency {
    type V = LatencyModel;

    open spec fn view(&self) -> LatencyModel {
        LatencyModel {
            iqm: self.iqm@,
            low: self.low@,
            high: self.high@,
            jitter: self.jitter@,
        }
    }
}

/// One direction's transfer metrics: the raw bandwidth figure in bytes
/// per second, the bytes moved, the elapsed milliseconds, and the latency
/// distribution observed during the transfer.
#[derive(Debug)]
pub struct Bandwidth {
    pub bandwidth: u32,
    pub bytes: u32,
    pub elapsed: u32,
    pub latency: Latency,
}

#[verifier::ext_equal]
pub ghost struct BandwidthModel {
    pub bandwidth: u32,
    pub bytes: u32,
    pub elapsed: u32,
    pub latency: LatencyModel,
}

impl View for Bandwidth {
    type V = BandwidthModel;

    open spec fn view(&self) -> BandwidthModel {
        BandwidthModel {
            bandwidth: self.bandwidth,
            bytes: self.bytes,
            elapsed: self.elapsed,
            latency: self.latency@,
        }
    }
}

/// One measurement, immutable after creation; `packet_loss` is `None`
/// when the probe reported no packet-loss percentage.
#[derive(Debug)]
pub struct TestResult {
    pub timestamp: Timestamp,
    pub ping: Ping,
    pub download: Bandwidth,
    pub upload: Bandwidth,
    pub packet_loss: Option<String>,
}

#[verifier::ext_equal]
pub ghost struct TestResultModel {
    pub timestamp: Timestamp,
    pub ping: PingModel,
    pub download: BandwidthModel,
    pub upload: BandwidthModel,
    pub packet_loss: Option<Seq<char>>,
}

impl View for TestResult {
    type V = TestResultModel;

    open spec fn view(&self) -> TestResultModel {
        TestResultModel {
            timestamp: self.timestamp,
            ping: self.ping@,
            download: self.download@,
            upload: self.upload@,
            packet_loss: match self.packet_loss {
                Some(p) => Some(p@),
                None => None,
            },
        }
    }
}

impl TestResult {
    pub open spec fn wf(self) -> bool {
        self.timestamp.wf()
    }
}

/// A tester's call history. The history is specification-only: an
/// implementation outside the verified world gives `calls` a body that is
/// never run.
pub type ProbeCallLog = Seq<ProbeCall>;

/// One probe invocation as recorded in a tester's call history.
#[allow(inconsistent_fields)]
#[verifier::ext_equal]
pub ghost enum ProbeCall {
    FetchServers { outcome: Result<Seq<ServerModel>, BandwidthMonitorError> },
    TestBandwidth { server: ServerModel, outcome: Result<TestResultModel, BandwidthMonitorError> },
}

pub open spec fn fetch_outcome(r: ResultT<ServerList>) -> Result<
    Seq<ServerModel>,
    BandwidthMonitorError,
> {
    match r {
        Ok(list) => Ok(list@),
        Err(e) => Err(e),
    }
}

pub open spec fn test_outcome(r: ResultT<TestResult>) -> Result<
    TestResultModel,
    BandwidthMonitorError,
> {
    match r {
        Ok(result) => Ok(result@),
        Err(e) => Err(e),
    }
}

/// The capability interface of the bandwidth tester. Implementations run
/// the external measurement mechanism; the contracts record every probe
/// invocation, oldest first, in an abstract call history.
///
/// A measurement saturates the host's own link, so no two invocations may
/// run concurrently on one host; implementations block until complete.
pub trait BandwidthTesterTrait: Sized {
    /// The probe invocations made through this tester so far.
    spec fn calls(&self) -> ProbeCallLog;

    /// Produces the probe servers to test, in the order they should be
    /// tested. Fails with `ProbeUnavailable` when the measurement
    /// mechanism cannot be invoked, and with `ProbeMalformedOutput` when
    /// its response cannot be parsed.
    fn fetch_near_test_servers(&mut self) -> (r: ResultT<ServerList>)
        ensures
            final(self).calls() == old(self).calls().push(
                ProbeCall::FetchServers { outcome: fetch_outcome(r) },
            ),
            r matches Ok(list) ==> forall|i: int|
                0 <= i < list.servers.len() ==> (#[trigger] list.servers[i]).wf(),
    ;

    /// Runs one bandwidth measurement against `server`, blocking until it
    /// completes. Fails with `ProbeUnavailable` or `ProbeMalformedOutput`.
    fn test_bandwidth(&mut self, server: &Server) -> (r: ResultT<TestResult>)
        ensures
            final(self).calls() == old(self).calls().push(
                ProbeCall::TestBandwidth { server: server@, outcome: test_outcome(r) },
            ),
            r matches Ok(result) ==> result.wf(),
    ;
}

} // verus!
