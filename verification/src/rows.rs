//! The result mapper: turns one (server, measurement) pair into the fixed
//! nine-field data row, and supplies the matching header row.

use vstd::prelude::*;
use vstd::string::StringExecFns;

use crate::render::{dec_seq, u32_to_string};
use crate::speedtest::{rfc3339_seq, Server, ServerModel, TestResult, TestResultModel};

verus! {

/// Bytes per second in one megabit per second: the divisor that turns the
/// probe's raw byte-rate bandwidth figure into megabits per second.
pub const BYTES_PER_SEC_PER_MBPS: u32 = 125000;

/// A throughput field: the raw bandwidth figure divided by 125000,
/// rendered in decimal.
pub open spec fn mbps_field(bandwidth: u32) -> Seq<char> {
    dec_seq((bandwidth / BYTES_PER_SEC_PER_MBPS) as nat)
}

/// The packet-loss field; an absent reading is rendered as "0", an
/// approximation documented as distinct from a true zero-loss reading.
pub open spec fn packet_loss_field(packet_loss: Option<Seq<char>>) -> Seq<char> {
    match packet_loss {
        Some(p) => p,
        None => seq!['0'],
    }
}

/// The nine-field data row derived from one (server, measurement) pair:
/// timestamp, server name, server location, packet loss, idle latency,
/// download Mbps, download latency iqm, upload Mbps, upload latency iqm.
pub open spec fn row_model(server: ServerModel, result: TestResultModel) -> Seq<Seq<char>> {
    seq![
        rfc3339_seq(result.timestamp),
        server.name,
        server.location,
        packet_loss_field(result.packet_loss),
        result.ping.latency,
        mbps_field(result.download.bandwidth),
        result.download.latency.iqm,
        mbps_field(result.upload.bandwidth),
        result.upload.latency.iqm,
    ]
}

/// The fixed nine-field label row written once to each newly created
/// sheet.
pub open spec fn header_model() -> Seq<Seq<char>> {
    seq![
        "Time"@,
        "Server Name"@,
        "Server Location"@,
        "Packet Loss"@,
        "Idle Latency (ms)"@,
        "Download (Mbps)"@,
        "Download Latency (ms)"@,
        "Upload (Mbps)"@,
        "Upload Latency (ms)"@,
    ]
}

/// Maps one measurement and the server it was taken against to the data
/// row that is appended to the server's sheet.
pub fn to_row(server: &Server, result: &TestResult) -> (row: Vec<String>)
    requires
        result.wf(),
    ensures
        row.deep_view() == row_model(server@, result@),
        row@.len() == 9,
{
    let mut row: Vec<String> = Vec::new();
    row.push(result.timestamp.to_rfc3339());
    row.push(server.name.clone());
    row.push(server.location.clone());
    row.push(
        match &result.packet_loss {
            Some(p) => p.clone(),
            None => String::from_str("0"),
        },
    );
    row.push(result.ping.latency.clone());
    row.push(u32_to_string(result.download.bandwidth / BYTES_PER_SEC_PER_MBPS));
    row.push(result.download.latency.iqm.clone());
    row.push(u32_to_string(result.upload.bandwidth / BYTES_PER_SEC_PER_MBPS));
    row.push(result.upload.latency.iqm.clone());
    proof {
        reveal_strlit("0");
        assert(row.deep_view() =~~= row_model(server@, result@));
    }
    row
}

/// The header row with the fixed labels, in field order.
pub fn header_row() -> (row: Vec<String>)
    ensures
        row.deep_view() == header_model(),
        row@.len() == 9,
{
    let mut row: Vec<String> = Vec::new();
    row.push(String::from_str("Time"));
    row.push(String::from_str("Server Name"));
    row.push(String::from_str("Server Location"));
    row.push(String::from_str("Packet Loss"));
    row.push(String::from_str("Idle Latency (ms)"));
    row.push(String::from_str("Download (Mbps)"));
    row.push(String::from_str("Download Latency (ms)"));
    row.push(String::from_str("Upload (Mbps)"));
    row.push(String::from_str("Upload Latency (ms)"));
    proof {
        assert(row.deep_view() =~= header_model());
    }
    row
}

/// Law: a data row always has exactly nine fields, and an absent
/// packet-loss reading maps to the literal field "0".
pub proof fn lemma_row_shape(server: ServerModel, result: TestResultModel)
    ensures
        row_model(server, result).len() == 9,
        result.packet_loss is None ==> row_model(server, result)[3] == seq!['0'],
{
}

/// Law: the row is a pure function of the server identity and the
/// measurement alone; identical inputs yield an identical row.
pub proof fn lemma_row_deterministic(
    server1: ServerModel,
    result1: TestResultModel,
    server2: ServerModel,
    result2: TestResultModel,
)
    requires
        server1 == server2,
        result1 == result2,
    ensures
        row_model(server1, result1) == row_model(server2, result2),
{
}

/// Law: the download and upload throughput fields are the raw integer
/// bandwidth figures divided by 125000, rendered in decimal.
pub proof fn lemma_row_mbps_fields(server: ServerModel, result: TestResultModel)
    ensures
        row_model(server, result)[5] == dec_seq((result.download.bandwidth / 125000) as nat),
        row_model(server, result)[7] == dec_seq((result.upload.bandwidth / 125000) as nat),
{
}

} // verus!
