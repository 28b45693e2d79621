//! The persistence side: the capability interface of the remote tabular
//! store, a spreadsheet whose sheets are the per-server tables.

use vstd::prelude::*;

verus! {

/// Failures of the persistence layer: the backend could not be reached or
/// refused the request.
#[derive(Clone, Copy, Debug, PartialEq, Eq, Structural)]
pub enum BandwidthMonitorError {
    StoreUnavailable,
    StoreRejected,
    Unknown,
}

pub type ResultT<T> = Result<T, BandwidthMonitorError>;

/// One store call as recorded in a connection's call history.
#[allow(inconsistent_fields)]
#[verifier::ext_equal]
pub ghost enum StoreCall {
    SheetExists { title: Seq<char>, outcome: Result<bool, BandwidthMonitorError> },
    CreateSheet { title: Seq<char>, outcome: Result<(), BandwidthMonitorError> },
    Append {
        sheet: Seq<char>,
        rows: Seq<Seq<Seq<char>>>,
        outcome: Result<(), BandwidthMonitorError>,
    },
}

/// A connection's call history. The history is specification-only: an
/// implementation outside the verified world gives `calls` a body that is
/// never run.
pub type StoreCallLog = Seq<StoreCall>;

/// The capability interface of the remote table store. Implementations
/// speak to the authenticated backend; the contracts record every store
/// call, oldest first, in an abstract call history.
pub trait SpreadsheetTrait: Sized {
    /// The store calls made through this connection so far.
    spec fn calls(&self) -> StoreCallLog;

    /// Opens an authenticated connection to the spreadsheet with the
    /// given id; no store call has been made through it yet.
    fn connect(secrets_file: &str, spreadsheet_id: &str) -> (r: Self)
        ensures
            r.calls() == Seq::<StoreCall>::empty(),
    ;

    /// Queries whether a sheet whose title equals `title` exactly exists.
    /// A transport or authentication failure is `Err(StoreUnavailable)`,
    /// never a silent `Ok(false)`.
    fn sheet_exists(&mut self, title: &str) -> (r: ResultT<bool>)
        ensures
            final(self).calls() == old(self).calls().push(
                StoreCall::SheetExists { title: title@, outcome: r },
            ),
    ;

    /// Provisions a new empty sheet titled `title`. Behaviour when a sheet
    /// of that title already exists is backend-defined; callers check
    /// `sheet_exists` first.
    fn create_sheet(&mut self, title: &str) -> (r: ResultT<()>)
        ensures
            final(self).calls() == old(self).calls().push(
                StoreCall::CreateSheet { title: title@, outcome: r },
            ),
    ;

    /// Appends `data` to the end of the sheet titled `sheet`, preserving
    /// row order. Row width is the caller's responsibility. Fails with
    /// `StoreUnavailable` or `StoreRejected`.
    fn append(&mut self, sheet: &str, data: Vec<Vec<String>>) -> (r: ResultT<()>)
        ensures
            final(self).calls() == old(self).calls().push(
                StoreCall::Append { sheet: sheet@, rows: data.deep_view(), outcome: r },
            ),
    ;
}

} // verus!
