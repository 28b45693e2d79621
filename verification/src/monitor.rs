//! The orchestrator: drives the per-server pipeline — measure, map to a
//! row, ensure the destination sheet exists, append — and the loop over
//! the fetched server list.
//!
//! Its contracts are stated over the call histories of the two capability
//! interfaces: what was asked of the probe and of the store, in order,
//! with each call's outcome.

use vstd::prelude::*;

use crate::rows::{header_model, header_row, row_model, to_row};
use crate::sheets::{SpreadsheetTrait, StoreCall};
use crate::speedtest::{
    test_outcome, BandwidthTesterTrait, ProbeCall, Server, ServerModel, TestResultModel,
};

verus! {

/// Whether one store call came back successfully.
pub open spec fn store_call_succeeded(call: StoreCall) -> bool {
    match call {
        StoreCall::SheetExists { outcome, .. } => outcome is Ok,
        StoreCall::CreateSheet { outcome, .. } => outcome is Ok,
        StoreCall::Append { outcome, .. } => outcome is Ok,
    }
}

/// The row batches appended by a sequence of store calls, in order.
pub open spec fn appended_batches(calls: Seq<StoreCall>) -> Seq<Seq<Seq<Seq<char>>>>
    decreases calls.len(),
{
    if calls.len() == 0 {
        Seq::empty()
    } else {
        let rest = appended_batches(calls.drop_first());
        match calls.first() {
            StoreCall::Append { rows, .. } => seq![rows] + rest,
            _ => rest,
        }
    }
}

/// The final call of a successful iteration: the single data-row append,
/// at position `i`, closing the iteration whatever its outcome.
pub open spec fn data_append_at(
    server: ServerModel,
    result: TestResultModel,
    calls: Seq<StoreCall>,
    i: int,
) -> bool {
    &&& calls.len() == i + 1
    &&& (calls[i] matches StoreCall::Append { sheet, rows, outcome: _ } && {
        &&& sheet == server.name
        &&& rows == seq![row_model(server, result)]
    })
}

/// The store calls of one server's iteration whose measurement returned
/// `result`: an existence check for the sheet named after the server;
/// when the sheet is missing, its creation and a header-row append,
/// happening before any data write; then the data-row append. A failed
/// store call ends the iteration, logged, with no further write.
pub open spec fn store_writes(
    server: ServerModel,
    result: TestResultModel,
    calls: Seq<StoreCall>,
) -> bool {
    &&& calls.len() >= 1
    &&& (calls[0] matches StoreCall::SheetExists { title, outcome } && {
        &&& title == server.name
        &&& match outcome {
            Err(_) => calls.len() == 1,
            Ok(true) => data_append_at(server, result, calls, 1),
            Ok(false) => {
                &&& calls.len() >= 2
                &&& (calls[1] matches StoreCall::CreateSheet { title: created_title, outcome: created } && {
                    &&& created_title == server.name
                    &&& match created {
                        Err(_) => calls.len() == 2,
                        Ok(_) => {
                            &&& calls.len() >= 3
                            &&& (calls[2] matches StoreCall::Append { sheet, rows, outcome: headed } && {
                                &&& sheet == server.name
                                &&& rows == seq![header_model()]
                                &&& match headed {
                                    Err(_) => calls.len() == 3,
                                    Ok(_) => data_append_at(server, result, calls, 3),
                                }
                            })
                        },
                    }
                })
            },
        }
    })
}

/// One server's iteration: exactly one measurement against that server;
/// when the measurement fails, no store call at all, otherwise the writes
/// of `store_writes`.
pub open spec fn test_and_store_behavior(
    server: ServerModel,
    probe_calls: Seq<ProbeCall>,
    store_calls: Seq<StoreCall>,
) -> bool {
    &&& probe_calls.len() == 1
    &&& (probe_calls[0] matches ProbeCall::TestBandwidth { server: tested, outcome } && {
        &&& tested == server
        &&& match outcome {
            Err(_) => store_calls.len() == 0,
            Ok(result) => store_writes(server, result, store_calls),
        }
    })
}

/// Runs one bandwidth test against `server` and persists the result:
/// measure, map, ensure the sheet exists (creating it and writing the
/// header row first when it does not), append the data row. Every failure
/// is fatal for this server's iteration only and causes no further call.
pub fn test_and_store<B: BandwidthTesterTrait, S: SpreadsheetTrait>(
    bandwidth_tester: &mut B,
    spreadsheet: &mut S,
    server: &Server,
)
    requires
        server.wf(),
    ensures
        old(bandwidth_tester).calls().is_prefix_of(final(bandwidth_tester).calls()),
        old(spreadsheet).calls().is_prefix_of(final(spreadsheet).calls()),
        test_and_store_behavior(
            server@,
            final(bandwidth_tester).calls().skip(old(bandwidth_tester).calls().len() as int),
            final(spreadsheet).calls().skip(old(spreadsheet).calls().len() as int),
        ),
{
    let ghost probe_base = bandwidth_tester.calls();
    let ghost store_base = spreadsheet.calls();

    let tested = bandwidth_tester.test_bandwidth(server);

    proof {
        assert(bandwidth_tester.calls().skip(probe_base.len() as int) =~= seq![
            ProbeCall::TestBandwidth { server: server@, outcome: test_outcome(tested) },
        ]);
        assert(probe_base.is_prefix_of(bandwidth_tester.calls()));
    }

    let result = match tested {
        Err(_) => {
            // Fatal for this server only: no write happens.
            return ;
        },
        Ok(result) => result,
    };

    let row = to_row(server, &result);

    let found = spreadsheet.sheet_exists(server.name.as_str());
    match found {
        Err(_) => {
            proof {
                assert(spreadsheet.calls().skip(store_base.len() as int) =~~= seq![
                    StoreCall::SheetExists { title: server.name@, outcome: found },
                ]);
                assert(store_base.is_prefix_of(spreadsheet.calls()));
            }
            return ;
        },
        Ok(false) => {
            let created = spreadsheet.create_sheet(server.name.as_str());
            match created {
                Err(_) => {
                    proof {
                        assert(spreadsheet.calls().skip(store_base.len() as int) =~~= seq![
                            StoreCall::SheetExists { title: server.name@, outcome: found },
                            StoreCall::CreateSheet { title: server.name@, outcome: created },
                        ]);
                        assert(store_base.is_prefix_of(spreadsheet.calls()));
                    }
                    return ;
                },
                Ok(_) => {},
            }
            let header = header_row();
            let headed = spreadsheet.append(server.name.as_str(), vec![header]);
            match headed {
                Err(_) => {
                    proof {
                        assert(spreadsheet.calls().skip(store_base.len() as int) =~~= seq![
                            StoreCall::SheetExists { title: server.name@, outcome: found },
                            StoreCall::CreateSheet { title: server.name@, outcome: created },
                            StoreCall::Append {
                                sheet: server.name@,
                                rows: seq![header_model()],
                                outcome: headed,
                            },
                        ]);
                        assert(store_base.is_prefix_of(spreadsheet.calls()));
                    }
                    return ;
                },
                Ok(_) => {},
            }
            let appended = spreadsheet.append(server.name.as_str(), vec![row]);
            proof {
                assert(spreadsheet.calls().skip(store_base.len() as int) =~~= seq![
                    StoreCall::SheetExists { title: server.name@, outcome: found },
                    StoreCall::CreateSheet { title: server.name@, outcome: created },
                    StoreCall::Append {
                        sheet: server.name@,
                        rows: seq![header_model()],
                        outcome: headed,
                    },
                    StoreCall::Append {
                        sheet: server.name@,
                        rows: seq![row_model(server@, result@)],
                        outcome: appended,
                    },
                ]);
                assert(store_base.is_prefix_of(spreadsheet.calls()));
            }
        },
        Ok(true) => {
            let appended = spreadsheet.append(server.name.as_str(), vec![row]);
            proof {
                assert(spreadsheet.calls().skip(store_base.len() as int) =~~= seq![
                    StoreCall::SheetExists { title: server.name@, outcome: found },
                    StoreCall::Append {
                        sheet: server.name@,
                        rows: seq![row_model(server@, result@)],
                        outcome: appended,
                    },
                ]);
                assert(store_base.is_prefix_of(spreadsheet.calls()));
            }
        },
    }
}

/// Law: for a server whose sheet does not yet exist and whose store calls
/// all succeed, the iteration appends exactly the header-row batch
/// followed by the data-row batch, in that order.
pub proof fn lemma_new_sheet_appends(
    server: ServerModel,
    result: TestResultModel,
    calls: Seq<StoreCall>,
)
    requires
        store_writes(server, result, calls),
        calls[0] matches StoreCall::SheetExists { outcome: Ok(found), .. } && !found,
        forall|i: int| 0 <= i < calls.len() ==> store_call_succeeded(#[trigger] calls[i]),
    ensures
        calls.len() == 4,
        appended_batches(calls) =~= seq![seq![header_model()], seq![row_model(server, result)]],
{
    assert(store_call_succeeded(calls[1]));
    assert(store_call_succeeded(calls[2]));
    let c1 = calls.drop_first();
    let c2 = c1.drop_first();
    let c3 = c2.drop_first();
    let c4 = c3.drop_first();
    assert(c4.len() == 0);
    assert(c3.first() == calls[3]);
    assert(c2.first() == calls[2]);
    assert(c1.first() == calls[1]);
    assert(appended_batches(c4) =~= Seq::<Seq<Seq<Seq<char>>>>::empty());
    assert(appended_batches(c3) =~= seq![seq![row_model(server, result)]]);
    assert(appended_batches(c2) =~= seq![seq![header_model()], seq![row_model(server, result)]]);
    assert(appended_batches(c1) == appended_batches(c2));
    assert(appended_batches(calls) == appended_batches(c1));
}

/// Law: for a server whose sheet already exists, the iteration makes
/// exactly one append call, containing only the data row; no sheet is
/// created and no header is re-sent.
pub proof fn lemma_existing_sheet_appends(
    server: ServerModel,
    result: TestResultModel,
    calls: Seq<StoreCall>,
)
    requires
        store_writes(server, result, calls),
        calls[0] matches StoreCall::SheetExists { outcome: Ok(found), .. } && found,
    ensures
        calls.len() == 2,
        appended_batches(calls) =~= seq![seq![row_model(server, result)]],
        forall|i: int| 0 <= i < calls.len() ==> !((#[trigger] calls[i]) is CreateSheet),
{
    let c1 = calls.drop_first();
    let c2 = c1.drop_first();
    assert(c2.len() == 0);
    assert(c1.first() == calls[1]);
    assert(appended_batches(c2) =~= Seq::<Seq<Seq<Seq<char>>>>::empty());
    assert(appended_batches(c1) =~= seq![seq![row_model(server, result)]]);
    assert(appended_batches(calls) == appended_batches(c1));
}

/// Law (failure isolation): when the measurement for a server fails, that
/// server's iteration makes no store call at all — nothing is created and
/// nothing is appended.
pub proof fn lemma_probe_failure_isolation(
    server: ServerModel,
    probe_calls: Seq<ProbeCall>,
    store_calls: Seq<StoreCall>,
)
    requires
        test_and_store_behavior(server, probe_calls, store_calls),
        probe_calls[0] matches ProbeCall::TestBandwidth { outcome: Err(_), .. },
    ensures
        store_calls.len() == 0,
{
}

/// The behavior of a whole run over `servers`: one iteration per server,
/// in the order given, each with the shape of `test_and_store_behavior`.
/// A failed iteration leaves every later iteration unaffected.
pub open spec fn monitor_behavior(
    servers: Seq<ServerModel>,
    probe_calls: Seq<ProbeCall>,
    store_calls: Seq<StoreCall>,
) -> bool
    decreases servers.len(),
{
    if servers.len() == 0 {
        probe_calls.len() == 0 && store_calls.len() == 0
    } else {
        &&& probe_calls.len() >= 1
        &&& exists|k: int|
            {
                &&& 0 <= k <= store_calls.len()
                &&& #[trigger] test_and_store_behavior(
                    servers[0],
                    probe_calls.take(1),
                    store_calls.take(k),
                )
                &&& monitor_behavior(servers.skip(1), probe_calls.skip(1), store_calls.skip(k))
            }
    }
}

proof fn lemma_monitor_behavior_snoc(
    servers: Seq<ServerModel>,
    server: ServerModel,
    probe_calls: Seq<ProbeCall>,
    probe_ext: Seq<ProbeCall>,
    store_calls: Seq<StoreCall>,
    store_ext: Seq<StoreCall>,
)
    requires
        monitor_behavior(servers, probe_calls, store_calls),
        test_and_store_behavior(server, probe_ext, store_ext),
    ensures
        monitor_behavior(servers.push(server), probe_calls + probe_ext, store_calls + store_ext),
    decreases servers.len(),
{
    let all_servers = servers.push(server);
    let all_probe = probe_calls + probe_ext;
    let all_store = store_calls + store_ext;
    if servers.len() == 0 {
        assert(all_probe =~= probe_ext);
        assert(all_store =~= store_ext);
        let k = store_ext.len() as int;
        assert(all_probe.take(1) =~= probe_ext);
        assert(all_store.take(k) =~= store_ext);
        assert(all_probe.skip(1) =~= Seq::<ProbeCall>::empty());
        assert(all_store.skip(k) =~= Seq::<StoreCall>::empty());
        assert(all_servers.skip(1) =~= Seq::<ServerModel>::empty());
        assert(test_and_store_behavior(all_servers[0], all_probe.take(1), all_store.take(k)));
        assert(monitor_behavior(all_servers.skip(1), all_probe.skip(1), all_store.skip(k)));
    } else {
        let k0 = choose|k: int|
            {
                &&& 0 <= k <= store_calls.len()
                &&& #[trigger] test_and_store_behavior(
                    servers[0],
                    probe_calls.take(1),
                    store_calls.take(k),
                )
                &&& monitor_behavior(servers.skip(1), probe_calls.skip(1), store_calls.skip(k))
            };
        lemma_monitor_behavior_snoc(
            servers.skip(1),
            server,
            probe_calls.skip(1),
            probe_ext,
            store_calls.skip(k0),
            store_ext,
        );
        assert(all_servers.skip(1) =~= servers.skip(1).push(server));
        assert(all_probe.skip(1) =~= probe_calls.skip(1) + probe_ext);
        assert(all_store.skip(k0) =~= store_calls.skip(k0) + store_ext);
        assert(all_probe.take(1) =~= probe_calls.take(1));
        assert(all_store.take(k0) =~= store_calls.take(k0));
        assert(test_and_store_behavior(all_servers[0], all_probe.take(1), all_store.take(k0)));
        assert(monitor_behavior(all_servers.skip(1), all_probe.skip(1), all_store.skip(k0)));
    }
}

/// Law: a run measures every server exactly once, in the order of the
/// list, whatever each iteration's outcome — one iteration's failure
/// leaves every later server's measurement in place.
pub proof fn lemma_monitor_probes_in_order(
    servers: Seq<ServerModel>,
    probe_calls: Seq<ProbeCall>,
    store_calls: Seq<StoreCall>,
)
    requires
        monitor_behavior(servers, probe_calls, store_calls),
    ensures
        probe_calls.len() == servers.len(),
        forall|i: int|
            0 <= i < servers.len() ==> ((#[trigger] probe_calls[i])
                matches ProbeCall::TestBandwidth { server, .. } && server == servers[i]),
    decreases servers.len(),
{
    if servers.len() > 0 {
        let k0 = choose|k: int|
            {
                &&& 0 <= k <= store_calls.len()
                &&& #[trigger] test_and_store_behavior(
                    servers[0],
                    probe_calls.take(1),
                    store_calls.take(k),
                )
                &&& monitor_behavior(servers.skip(1), probe_calls.skip(1), store_calls.skip(k))
            };
        lemma_monitor_probes_in_order(
            servers.skip(1),
            probe_calls.skip(1),
            store_calls.skip(k0),
        );
        assert(probe_calls.take(1)[0] == probe_calls[0]);
        assert forall|i: int| 1 <= i < servers.len() implies ((#[trigger] probe_calls[i])
            matches ProbeCall::TestBandwidth { server, .. } && server == servers[i]) by {
            assert(probe_calls[i] == probe_calls.skip(1)[i - 1]);
            assert(servers[i] == servers.skip(1)[i - 1]);
        }
    }
}

/// Fetches the nearby probe servers and runs the per-server pipeline for
/// each of them, in order. A failed fetch ends the run with no further
/// call; a failed iteration never stops the loop.
pub fn run_bandwidth_monitor<B: BandwidthTesterTrait, S: SpreadsheetTrait>(
    bandwidth_tester: &mut B,
    spreadsheet: &mut S,
)
    ensures
        old(bandwidth_tester).calls().is_prefix_of(final(bandwidth_tester).calls()),
        old(spreadsheet).calls().is_prefix_of(final(spreadsheet).calls()),
        ({
            let probe_ext = final(bandwidth_tester).calls().skip(
                old(bandwidth_tester).calls().len() as int,
            );
            let store_ext = final(spreadsheet).calls().skip(old(spreadsheet).calls().len() as int);
            &&& probe_ext.len() >= 1
            &&& (probe_ext[0] matches ProbeCall::FetchServers { outcome } && match outcome {
                Err(_) => probe_ext.len() == 1 && store_ext.len() == 0,
                Ok(servers) => monitor_behavior(servers, probe_ext.skip(1), store_ext),
            })
        }),
{
    let ghost probe_base = bandwidth_tester.calls();
    let ghost store_base = spreadsheet.calls();

    let fetched = bandwidth_tester.fetch_near_test_servers();

    let list = match fetched {
        Err(_) => {
            proof {
                assert(bandwidth_tester.calls().skip(probe_base.len() as int) =~~= seq![
                    bandwidth_tester.calls().last(),
                ]);
                assert(probe_base.is_prefix_of(bandwidth_tester.calls()));
                assert(spreadsheet.calls().skip(store_base.len() as int) =~= Seq::<
                    StoreCall,
                >::empty());
            }
            return ;
        },
        Ok(list) => list,
    };

    let ghost probe_start = bandwidth_tester.calls();
    let ghost store_start = spreadsheet.calls();

    let mut i: usize = 0;
    let n = list.servers.len();
    while i < n
        invariant
            i <= n,
            n == list.servers.len(),
            forall|j: int| 0 <= j < list.servers.len() ==> (#[trigger] list.servers[j]).wf(),
            probe_start == probe_base.push(ProbeCall::FetchServers { outcome: Ok(list@) }),
            store_start == store_base,
            probe_start.is_prefix_of(bandwidth_tester.calls()),
            store_start.is_prefix_of(spreadsheet.calls()),
            monitor_behavior(
                list@.take(i as int),
                bandwidth_tester.calls().skip(probe_start.len() as int),
                spreadsheet.calls().skip(store_start.len() as int),
            ),
        decreases n - i,
    {
        let server = &list.servers[i];
        let ghost probe_before = bandwidth_tester.calls();
        let ghost store_before = spreadsheet.calls();
        proof {
            assert(server@ == list@[i as int]);
        }
        test_and_store(bandwidth_tester, spreadsheet, server);
        proof {
            lemma_monitor_behavior_snoc(
                list@.take(i as int),
                list@[i as int],
                probe_before.skip(probe_start.len() as int),
                bandwidth_tester.calls().skip(probe_before.len() as int),
                store_before.skip(store_start.len() as int),
                spreadsheet.calls().skip(store_before.len() as int),
            );
            assert(list@.take(i as int).push(list@[i as int]) =~= list@.take(i as int + 1));
            assert(probe_before.skip(probe_start.len() as int) + bandwidth_tester.calls().skip(
                probe_before.len() as int,
            ) =~= bandwidth_tester.calls().skip(probe_start.len() as int));
            assert(store_before.skip(store_start.len() as int) + spreadsheet.calls().skip(
                store_before.len() as int,
            ) =~= spreadsheet.calls().skip(store_start.len() as int));
            assert(probe_start.is_prefix_of(bandwidth_tester.calls()));
            assert(store_start.is_prefix_of(spreadsheet.calls()));
        }
        i += 1;
    }
    proof {
        assert(list@.take(n as int) =~= list@);
        assert(bandwidth_tester.calls().subrange(0, probe_start.len() as int) == probe_start);
        assert(probe_start[probe_base.len() as int] == ProbeCall::FetchServers {
            outcome: Ok(list@),
        });
        assert(bandwidth_tester.calls().subrange(0, probe_start.len() as int)[probe_base.len() as int]
            == bandwidth_tester.calls()[probe_base.len() as int]);
        assert(bandwidth_tester.calls()[probe_base.len() as int] == ProbeCall::FetchServers {
            outcome: Ok(list@),
        });
        assert(bandwidth_tester.calls().skip(probe_base.len() as int) =~= seq![
            ProbeCall::FetchServers { outcome: Ok(list@) },
        ] + bandwidth_tester.calls().skip(probe_start.len() as int));
        assert(bandwidth_tester.calls().skip(probe_base.len() as int).skip(1)
            =~= bandwidth_tester.calls().skip(probe_start.len() as int));
        assert(spreadsheet.calls().skip(store_base.len() as int) == spreadsheet.calls().skip(
            store_start.len() as int,
        ));
        assert(probe_base.is_prefix_of(bandwidth_tester.calls()));
        assert(store_base.is_prefix_of(spreadsheet.calls()));
    }
}

} // verus!
