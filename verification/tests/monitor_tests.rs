use bandwidth_monitor::monitor::{run_bandwidth_monitor, test_and_store};
use bandwidth_monitor::sheets::BandwidthMonitorError as StoreError;
use bandwidth_monitor::sheets::{SpreadsheetTrait, StoreCallLog};
use bandwidth_monitor::speedtest::BandwidthMonitorError as ProbeError;
use bandwidth_monitor::speedtest::{
    Bandwidth, BandwidthTesterTrait, Latency, Ping, ProbeCallLog, Server, ServerList, TestResult,
    Timestamp,
};

#[derive(Debug, PartialEq, Eq)]
enum StoreEvent {
    SheetExists(String),
    CreateSheet(String),
    Append(String, Vec<Vec<String>>),
}

struct FakeSpreadsheet {
    existing: Vec<String>,
    fail_exists: bool,
    events: Vec<StoreEvent>,
}

impl FakeSpreadsheet {
    fn with_sheets(existing: Vec<String>) -> FakeSpreadsheet {
        FakeSpreadsheet {
            existing,
            fail_exists: false,
            events: Vec::new(),
        }
    }
}

impl SpreadsheetTrait for FakeSpreadsheet {
    // The call history is specification-only and never run.
    fn calls(&self) -> StoreCallLog {
        unreachable!()
    }

    fn connect(_secrets_file: &str, _spreadsheet_id: &str) -> FakeSpreadsheet {
        FakeSpreadsheet::with_sheets(Vec::new())
    }

    fn sheet_exists(&mut self, title: &str) -> Result<bool, StoreError> {
        self.events.push(StoreEvent::SheetExists(title.to_string()));
        if self.fail_exists {
            Err(StoreError::StoreUnavailable)
        } else {
            Ok(self.existing.iter().any(|t| t == title))
        }
    }

    fn create_sheet(&mut self, title: &str) -> Result<(), StoreError> {
        self.events.push(StoreEvent::CreateSheet(title.to_string()));
        self.existing.push(title.to_string());
        Ok(())
    }

    fn append(&mut self, sheet: &str, data: Vec<Vec<String>>) -> Result<(), StoreError> {
        self.events.push(StoreEvent::Append(sheet.to_string(), data));
        Ok(())
    }
}

struct FakeTester {
    fetch_fail: bool,
    served: Vec<(u32, String, String)>,
    failing_ids: Vec<u32>,
    packet_loss: Option<String>,
    download_bandwidth: u32,
    upload_bandwidth: u32,
    tested_names: Vec<String>,
}

impl FakeTester {
    fn quiet() -> FakeTester {
        FakeTester {
            fetch_fail: false,
            served: Vec::new(),
            failing_ids: Vec::new(),
            packet_loss: None,
            download_bandwidth: 0,
            upload_bandwidth: 0,
            tested_names: Vec::new(),
        }
    }

    fn zero_result(&self) -> TestResult {
        let zero_latency = || Latency {
            iqm: "0".to_string(),
            low: "0".to_string(),
            high: "0".to_string(),
            jitter: "0".to_string(),
        };
        TestResult {
            timestamp: Timestamp {
                year: 1970,
                month: 1,
                day: 1,
                hour: 1,
                minute: 0,
                second: 0,
                offset_minutes: 60,
            },
            ping: Ping {
                jitter: "0".to_string(),
                latency: "0".to_string(),
                low: "0".to_string(),
                high: "0".to_string(),
            },
            download: Bandwidth {
                bandwidth: self.download_bandwidth,
                bytes: 0,
                elapsed: 0,
                latency: zero_latency(),
            },
            upload: Bandwidth {
                bandwidth: self.upload_bandwidth,
                bytes: 0,
                elapsed: 0,
                latency: zero_latency(),
            },
            packet_loss: self.packet_loss.clone(),
        }
    }
}

impl BandwidthTesterTrait for FakeTester {
    // The call history is specification-only and never run.
    fn calls(&self) -> ProbeCallLog {
        unreachable!()
    }

    fn fetch_near_test_servers(&mut self) -> Result<ServerList, ProbeError> {
        if self.fetch_fail {
            return Err(ProbeError::ProbeUnavailable);
        }
        let servers = self
            .served
            .iter()
            .map(|(id, name, location)| Server {
                id: *id,
                host: "host".to_string(),
                name: name.clone(),
                location: location.clone(),
            })
            .collect();
        Ok(ServerList { servers })
    }

    fn test_bandwidth(&mut self, server: &Server) -> Result<TestResult, ProbeError> {
        self.tested_names.push(server.name.clone());
        if self.failing_ids.contains(&server.id) {
            Err(ProbeError::ProbeUnavailable)
        } else {
            Ok(self.zero_result())
        }
    }
}

fn zero_row(name: &str, location: &str) -> Vec<String> {
    vec![
        "1970-01-01T01:00:00+01:00".to_string(),
        name.to_string(),
        location.to_string(),
        "0".to_string(),
        "0".to_string(),
        "0".to_string(),
        "0".to_string(),
        "0".to_string(),
        "0".to_string(),
    ]
}

fn header() -> Vec<String> {
    vec![
        "Time".to_string(),
        "Server Name".to_string(),
        "Server Location".to_string(),
        "Packet Loss".to_string(),
        "Idle Latency (ms)".to_string(),
        "Download (Mbps)".to_string(),
        "Download Latency (ms)".to_string(),
        "Upload (Mbps)".to_string(),
        "Upload Latency (ms)".to_string(),
    ]
}

#[test]
fn ensure_test_and_store_works_properly_for_existing_spreadsheets() {
    let server = Server {
        id: 1,
        host: "host".into(),
        location: "location".into(),
        name: "my_little_server".into(),
    };

    let mut spreadsheet = FakeSpreadsheet::with_sheets(vec!["my_little_server".to_string()]);
    let mut bandwidth_tester = FakeTester::quiet();

    test_and_store(&mut bandwidth_tester, &mut spreadsheet, &server);

    assert_eq!(
        vec!["my_little_server".to_string()],
        bandwidth_tester.tested_names,
        "the server name wasn't right"
    );

    let expected_rows = vec![zero_row("my_little_server", "location")];
    assert_eq!(
        spreadsheet.events,
        vec![
            StoreEvent::SheetExists("my_little_server".to_string()),
            StoreEvent::Append("my_little_server".to_string(), expected_rows),
        ],
        "the supplied rows weren't right"
    );
}

#[test]
fn ensure_test_and_store_works_properly_for_new_spreadsheets() {
    let server = Server {
        id: 1,
        host: "host".into(),
        location: "location".into(),
        name: "my_little_server".into(),
    };

    let mut spreadsheet = FakeSpreadsheet::with_sheets(Vec::new());
    let mut bandwidth_tester = FakeTester::quiet();

    test_and_store(&mut bandwidth_tester, &mut spreadsheet, &server);

    assert_eq!(
        vec!["my_little_server".to_string()],
        bandwidth_tester.tested_names,
        "the server name wasn't right"
    );

    assert_eq!(
        spreadsheet.events,
        vec![
            StoreEvent::SheetExists("my_little_server".to_string()),
            StoreEvent::CreateSheet("my_little_server".to_string()),
            StoreEvent::Append("my_little_server".to_string(), vec![header()]),
            StoreEvent::Append(
                "my_little_server".to_string(),
                vec![zero_row("my_little_server", "location")]
            ),
        ],
        "the supplied rows weren't right"
    );
}

#[test]
fn existing_sheet_gets_a_single_append() {
    let server = Server {
        id: 1,
        host: "host".into(),
        name: "alpha".into(),
        location: "X".into(),
    };

    let mut spreadsheet = FakeSpreadsheet::with_sheets(vec!["alpha".to_string()]);
    let mut bandwidth_tester = FakeTester::quiet();

    test_and_store(&mut bandwidth_tester, &mut spreadsheet, &server);

    assert_eq!(
        spreadsheet.events,
        vec![
            StoreEvent::SheetExists("alpha".to_string()),
            StoreEvent::Append("alpha".to_string(), vec![zero_row("alpha", "X")]),
        ]
    );
}

#[test]
fn missing_sheet_gets_create_then_header_then_data() {
    let server = Server {
        id: 1,
        host: "host".into(),
        name: "alpha".into(),
        location: "X".into(),
    };

    let mut spreadsheet = FakeSpreadsheet::with_sheets(Vec::new());
    let mut bandwidth_tester = FakeTester::quiet();

    test_and_store(&mut bandwidth_tester, &mut spreadsheet, &server);

    assert_eq!(
        spreadsheet.events,
        vec![
            StoreEvent::SheetExists("alpha".to_string()),
            StoreEvent::CreateSheet("alpha".to_string()),
            StoreEvent::Append("alpha".to_string(), vec![header()]),
            StoreEvent::Append("alpha".to_string(), vec![zero_row("alpha", "X")]),
        ]
    );
}

#[test]
fn probe_failure_makes_no_store_call() {
    let server = Server {
        id: 7,
        host: "host".into(),
        name: "alpha".into(),
        location: "X".into(),
    };

    let mut spreadsheet = FakeSpreadsheet::with_sheets(vec!["alpha".to_string()]);
    let mut bandwidth_tester = FakeTester::quiet();
    bandwidth_tester.failing_ids.push(7);

    test_and_store(&mut bandwidth_tester, &mut spreadsheet, &server);

    assert_eq!(bandwidth_tester.tested_names, vec!["alpha".to_string()]);
    assert_eq!(spreadsheet.events, Vec::<StoreEvent>::new());
}

#[test]
fn store_failure_ends_the_iteration_without_writes() {
    let server = Server {
        id: 1,
        host: "host".into(),
        name: "alpha".into(),
        location: "X".into(),
    };

    let mut spreadsheet = FakeSpreadsheet::with_sheets(vec!["alpha".to_string()]);
    spreadsheet.fail_exists = true;
    let mut bandwidth_tester = FakeTester::quiet();

    test_and_store(&mut bandwidth_tester, &mut spreadsheet, &server);

    assert_eq!(
        spreadsheet.events,
        vec![StoreEvent::SheetExists("alpha".to_string())]
    );
}

#[test]
fn run_continues_past_a_failing_server() {
    let mut bandwidth_tester = FakeTester::quiet();
    bandwidth_tester.served = vec![
        (1, "alpha".to_string(), "X".to_string()),
        (2, "beta".to_string(), "Y".to_string()),
    ];
    bandwidth_tester.failing_ids.push(1);

    let mut spreadsheet = FakeSpreadsheet::with_sheets(vec![
        "alpha".to_string(),
        "beta".to_string(),
    ]);

    run_bandwidth_monitor(&mut bandwidth_tester, &mut spreadsheet);

    assert_eq!(
        bandwidth_tester.tested_names,
        vec!["alpha".to_string(), "beta".to_string()]
    );
    assert_eq!(
        spreadsheet.events,
        vec![
            StoreEvent::SheetExists("beta".to_string()),
            StoreEvent::Append("beta".to_string(), vec![zero_row("beta", "Y")]),
        ]
    );
}

#[test]
fn failed_fetch_makes_no_call_at_all() {
    let mut bandwidth_tester = FakeTester::quiet();
    bandwidth_tester.fetch_fail = true;
    let mut spreadsheet = FakeSpreadsheet::with_sheets(Vec::new());

    run_bandwidth_monitor(&mut bandwidth_tester, &mut spreadsheet);

    assert_eq!(bandwidth_tester.tested_names, Vec::<String>::new());
    assert_eq!(spreadsheet.events, Vec::<StoreEvent>::new());
}

#[test]
fn reported_packet_loss_reaches_the_row() {
    let server = Server {
        id: 1,
        host: "host".into(),
        name: "alpha".into(),
        location: "X".into(),
    };

    let mut spreadsheet = FakeSpreadsheet::with_sheets(vec!["alpha".to_string()]);
    let mut bandwidth_tester = FakeTester::quiet();
    bandwidth_tester.packet_loss = Some("3.5".to_string());

    test_and_store(&mut bandwidth_tester, &mut spreadsheet, &server);

    match &spreadsheet.events[1] {
        StoreEvent::Append(_, rows) => {
            assert_eq!(rows[0][3], "3.5");
            assert_ne!(rows[0][3], "0");
        }
        other => panic!("expected an append, got {:?}", other),
    }
}
