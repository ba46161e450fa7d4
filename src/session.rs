use vstd::prelude::*;
use crate::json::{Json, JsonModel, member, opt_model};
use crate::cell::Column;
use crate::row::{Row, project_record, projects_prefix, projection_fails, first_failure};
use crate::parse::{parse_document, json_text_valid, json_of};
use crate::error::ScanError;

verus! {

/// Where a scan session stands in its lifecycle.
#[derive(Debug, Clone, Copy, PartialEq, Eq, Structural)]
pub enum Phase {
    Created,
    Scanning,
    Exhausted,
    Failed,
    Closed,
}

/// The literal that guards a response body against being run as script.
pub open spec fn guard_prefix() -> Seq<char> {
    seq![')', ']', '}', '\'', '\n']
}

/// Whether `body` starts with the guard literal.
pub open spec fn has_guard(body: Seq<char>) -> bool {
    body.len() >= 5 && body.subrange(0, 5) == guard_prefix()
}

/// The records of a response document: the array at `table.rows`.
pub open spec fn document_records(doc: JsonModel) -> Option<Seq<JsonModel>> {
    match member(doc, seq!['t', 'a', 'b', 'l', 'e']) {
        Some(t) => match member(t, seq!['r', 'o', 'w', 's']) {
            Some(JsonModel::Array(items)) => Some(items),
            _ => None,
        },
        None => None,
    }
}

/// Removes the guard literal from the start of `body`.
pub fn strip_guard(body: &str) -> (r: Result<&str, ScanError>)
    ensures
        has_guard(body@) ==> r is Ok && r->Ok_0@ == body@.subrange(5, body@.len() as int),
        !has_guard(body@) ==> r == Err::<&str, ScanError>(ScanError::MalformedResponse),
{
    let n = body.unicode_len();
    if n < 5 {
        return Err(ScanError::MalformedResponse);
    }
    let ok = body.get_char(0) == ')' && body.get_char(1) == ']' && body.get_char(2) == '}'
        && body.get_char(3) == '\'' && body.get_char(4) == '\n';
    if ok {
        assert(body@.subrange(0, 5) =~= guard_prefix());
        Ok(body.substring_char(5, n))
    } else {
        proof {
            if has_guard(body@) {
                assert(body@.subrange(0, 5)[0] == body@[0]);
                assert(body@.subrange(0, 5)[1] == body@[1]);
                assert(body@.subrange(0, 5)[2] == body@[2]);
                assert(body@.subrange(0, 5)[3] == body@[3]);
                assert(body@.subrange(0, 5)[4] == body@[4]);
            }
        }
        Err(ScanError::MalformedResponse)
    }
}

/// Takes the records out of a response document.
pub fn records_of(doc: &Json) -> (r: Result<Vec<Json>, ScanError>)
    ensures
        match document_records(doc.model()) {
            Some(items) => r is Ok && r->Ok_0@.len() == items.len()
                && forall|i: int| 0 <= i < items.len() ==> (#[trigger] r->Ok_0@[i]).model() == items[i],
            None => r == Err::<Vec<Json>, ScanError>(ScanError::MalformedResponse),
        },
{
    let table_key = String::from_str("table");
    let rows_key = String::from_str("rows");
    proof {
        reveal_strlit("table");
        reveal_strlit("rows");
        assert(table_key@ =~= seq!['t', 'a', 'b', 'l', 'e']);
        assert(rows_key@ =~= seq!['r', 'o', 'w', 's']);
    }
    match doc.get_member(&table_key) {
        Some(t) => match t.get_member(&rows_key) {
            Some(rows) => match rows.deep_clone() {
                Json::Array(items) => Ok(items),
                _ => Err(ScanError::MalformedResponse),
            },
            None => Err(ScanError::MalformedResponse),
        },
        None => Err(ScanError::MalformedResponse),
    }
}

/// One read pass over a remote source: the declared columns, the buffered
/// records and a cursor over them.
pub struct ScanSession {
    columns: Vec<Column>,
    records: Vec<Json>,
    cursor: usize,
    phase: Phase,
}

/// The mathematical state of a [`ScanSession`].
pub struct SessionModel {
    pub columns: Seq<Column>,
    pub records: Seq<JsonModel>,
    pub cursor: nat,
    pub phase: Phase,
}

/// The state after closing a session in state `s`.
pub open spec fn after_end_scan(s: SessionModel) -> SessionModel {
    SessionModel { columns: s.columns, records: Seq::empty(), cursor: 0, phase: Phase::Closed }
}

/// The state after asking for a row in state `s` when no record is left.
pub open spec fn after_exhaustion(s: SessionModel) -> SessionModel {
    SessionModel {
        phase: if s.phase == Phase::Scanning { Phase::Exhausted } else { s.phase },
        ..s
    }
}

/// Ending a scan twice leaves the same state as ending it once.
pub proof fn lemma_end_scan_idempotent(s: SessionModel)
    ensures
        after_end_scan(after_end_scan(s)) == after_end_scan(s),
{
}

/// Once no record is left, asking for a row again finds none left and
/// changes nothing more.
pub proof fn lemma_exhaustion_is_stable(s: SessionModel)
    requires
        s.cursor >= s.records.len(),
    ensures
        after_exhaustion(s).cursor >= after_exhaustion(s).records.len(),
        after_exhaustion(after_exhaustion(s)) == after_exhaustion(s),
{
}

impl ScanSession {
    pub closed spec fn model(&self) -> SessionModel {
        SessionModel {
            columns: self.columns@,
            records: Seq::new(self.records@.len(), |i: int| self.records@[i].model()),
            cursor: self.cursor as nat,
            phase: self.phase,
        }
    }

    /// The cursor never passes the end of the records.
    pub open spec fn wf(&self) -> bool {
        self.model().cursor <= self.model().records.len()
    }

    /// A session with no columns and no records.
    pub fn new() -> (r: ScanSession)
        ensures
            r.wf(),
            r.model().columns.len() == 0,
            r.model().records.len() == 0,
            r.model().cursor == 0,
            r.model().phase == Phase::Created,
    {
        ScanSession { columns: Vec::new(), records: Vec::new(), cursor: 0, phase: Phase::Created }
    }

    /// The index of the next record to read.
    pub fn cursor(&self) -> (r: usize)
        ensures
            r == self.model().cursor,
    {
        self.cursor
    }

    /// The number of buffered records.
    pub fn record_count(&self) -> (r: usize)
        ensures
            r == self.model().records.len(),
    {
        self.records.len()
    }

    /// The lifecycle phase.
    pub fn phase(&self) -> (r: Phase)
        ensures
            r == self.model().phase,
    {
        self.phase
    }

    /// Starts a scan over the records of the parsed document `doc`.
    pub fn load_document(&mut self, columns: Vec<Column>, doc: &Json) -> (r: Result<(), ScanError>)
        ensures
            match document_records(doc.model()) {
                Some(items) => r is Ok && final(self).model() == (SessionModel {
                    columns: columns@,
                    records: items,
                    cursor: 0,
                    phase: Phase::Scanning,
                }),
                None => r == Err::<(), ScanError>(ScanError::MalformedResponse)
                    && final(self).model() == old(self).model(),
            },
            old(self).wf() ==> final(self).wf(),
    {
        match records_of(doc) {
            Ok(items) => {
                self.columns = columns;
                self.records = items;
                self.cursor = 0;
                self.phase = Phase::Scanning;
                assert(self.model().records =~= document_records(doc.model())->Some_0);
                Ok(())
            },
            Err(e) => Err(e),
        }
    }

    /// Starts a scan over the guarded response `body`: strips the guard
    /// literal, parses the rest and buffers the records at `table.rows`.
    pub fn begin_scan(&mut self, columns: Vec<Column>, body: &str) -> (r: Result<(), ScanError>)
        ensures
            !has_guard(body@) ==> r == Err::<(), ScanError>(ScanError::MalformedResponse),
            has_guard(body@) && !json_text_valid(body@.subrange(5, body@.len() as int))
                ==> r == Err::<(), ScanError>(ScanError::InvalidJson),
            has_guard(body@) && json_text_valid(body@.subrange(5, body@.len() as int)) ==>
                match document_records(json_of(body@.subrange(5, body@.len() as int))) {
                    Some(items) => r is Ok && final(self).model() == (SessionModel {
                        columns: columns@,
                        records: items,
                        cursor: 0,
                        phase: Phase::Scanning,
                    }),
                    None => r == Err::<(), ScanError>(ScanError::MalformedResponse)
                        && final(self).model() == old(self).model(),
                },
            r is Err ==> final(self).model() == old(self).model(),
            old(self).wf() ==> final(self).wf(),
    {
        let text = match strip_guard(body) {
            Ok(t) => t,
            Err(e) => return Err(e),
        };
        let doc = match parse_document(text) {
            Ok(d) => d,
            Err(e) => return Err(e),
        };
        self.load_document(columns, &doc)
    }

    /// Produces the next row, or `None` once every record has been read.
    pub fn next_row(&mut self) -> (r: Result<Option<Row>, ScanError>)
        requires
            old(self).wf(),
        ensures
            final(self).wf(),
            old(self).model().cursor >= old(self).model().records.len() ==>
                r == Ok::<Option<Row>, ScanError>(None) && final(self).model() == after_exhaustion(old(self).model()),
            old(self).model().cursor < old(self).model().records.len() ==> {
                let rec = old(self).model().records[old(self).model().cursor as int];
                let cols = old(self).model().columns;
                match r {
                    Ok(Some(row)) => !projection_fails(rec, cols)
                        && projects_prefix(row, rec, cols, cols.len() as int)
                        && final(self).model() == (SessionModel { cursor: old(self).model().cursor + 1, ..old(self).model() }),
                    Ok(None) => false,
                    Err(e) => projection_fails(rec, cols) && first_failure(e, rec, cols)
                        && final(self).model() == (SessionModel { phase: Phase::Failed, ..old(self).model() }),
                }
            },
    {
        if self.cursor >= self.records.len() {
            if self.phase == Phase::Scanning {
                self.phase = Phase::Exhausted;
            }
            return Ok(None);
        }
        match project_record(&self.records[self.cursor], &self.columns) {
            Ok(row) => {
                self.cursor = self.cursor + 1;
                Ok(Some(row))
            },
            Err(e) => {
                self.phase = Phase::Failed;
                Err(e)
            },
        }
    }

    /// Ends the scan: drops the buffered records, whatever the phase.
    pub fn end_scan(&mut self) -> (r: Result<(), ScanError>)
        ensures
            r is Ok,
            final(self).model() == after_end_scan(old(self).model()),
            final(self).wf(),
    {
        self.records = Vec::new();
        self.cursor = 0;
        self.phase = Phase::Closed;
        assert(self.model().records =~= Seq::<JsonModel>::empty());
        Ok(())
    }
}

} // verus!
