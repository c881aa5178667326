use vstd::prelude::*;
use vstd::string::*;
use crate::value::{
    Value,
    Number,
    ValModel,
    NumModel,
    val_model,
    vals_model,
    entry_models,
    lemma_entry_models,
    lemma_arr_models,
};
use crate::error::DbError;

verus! {

/// Classification of one statement by its leading keyword.
#[derive(Debug, Clone, Copy, PartialEq, Eq, Structural)]
pub enum StmtKind {
    Select,
    Write,
    Ddl,
}

/// The whitespace characters trimmed from statement fragments.
pub open spec fn is_space(c: char) -> bool {
    c == ' ' || c == '\t' || c == '\n' || c == '\r'
}

/// `s` with its leading whitespace dropped.
pub open spec fn trim_left(s: Seq<char>) -> Seq<char>
    decreases s.len(),
{
    if s.len() > 0 && is_space(s[0]) {
        trim_left(s.drop_first())
    } else {
        s
    }
}

/// `s` with its trailing whitespace dropped.
pub open spec fn trim_right(s: Seq<char>) -> Seq<char>
    decreases s.len(),
{
    if s.len() > 0 && is_space(s.last()) {
        trim_right(s.drop_last())
    } else {
        s
    }
}

/// `s` with whitespace dropped on both sides.
pub open spec fn trim_text(s: Seq<char>) -> Seq<char> {
    trim_right(trim_left(s))
}

/// Position of the first `;` of `s`, or `s.len()` if there is none.
pub open spec fn first_semi(s: Seq<char>) -> int
    decreases s.len(),
{
    if s.len() == 0 {
        0
    } else if s[0] == ';' {
        0
    } else {
        1 + first_semi(s.drop_first())
    }
}

/// If everything before `i` misses `;` and position `i` (when inside `s`)
/// holds one, then `first_semi` is exactly `i`.
pub proof fn lemma_first_semi_at(s: Seq<char>, i: int)
    requires
        0 <= i <= s.len(),
        forall|j: int| 0 <= j < i ==> s[j] != ';',
        i < s.len() ==> s[i] == ';',
    ensures
        first_semi(s) == i,
    decreases s.len(),
{
    if s.len() > 0 && i > 0 {
        lemma_first_semi_at(s.drop_first(), i - 1);
    }
}

/// The non-empty trimmed statements of a `;`-separated batch, in order.
pub open spec fn statements_of(s: Seq<char>) -> Seq<Seq<char>>
    decreases s.len(),
{
    let i = first_semi(s);
    if 0 <= i < s.len() {
        let head = trim_text(s.subrange(0, i));
        let rest = statements_of(s.subrange(i + 1, s.len() as int));
        if head.len() > 0 {
            seq![head] + rest
        } else {
            rest
        }
    } else {
        let t = trim_text(s);
        if t.len() > 0 {
            seq![t]
        } else {
            Seq::empty()
        }
    }
}

/// Whether `c` equals the upper-case letter `k` up to ASCII case.
pub open spec fn char_eq_upper(c: char, k: char) -> bool {
    c == k || ('A' <= k && k <= 'Z' && c as u32 == k as u32 + 32)
}

/// Whether `s` starts with the upper-case keyword `kw` up to ASCII case.
pub open spec fn has_prefix_ci(s: Seq<char>, kw: Seq<char>) -> bool {
    s.len() >= kw.len() && forall|i: int| 0 <= i < kw.len() ==> char_eq_upper(s[i], kw[i])
}

/// Classification of a statement: a case-insensitive leading `SELECT` reads;
/// `INSERT`, `UPDATE` and `DELETE` write; everything else counts as DDL.
pub open spec fn classify_text(s: Seq<char>) -> StmtKind {
    if has_prefix_ci(s, "SELECT"@) {
        StmtKind::Select
    } else if has_prefix_ci(s, "INSERT"@) || has_prefix_ci(s, "UPDATE"@) || has_prefix_ci(
        s,
        "DELETE"@,
    ) {
        StmtKind::Write
    } else {
        StmtKind::Ddl
    }
}

/// Whether `c` is trimmed whitespace.
fn is_space_char(c: char) -> (r: bool)
    ensures
        r == is_space(c),
{
    c == ' ' || c == '\t' || c == '\n' || c == '\r'
}

/// If the first `lo` characters are whitespace and the one after them (when
/// any) is not, `trim_left` drops exactly those `lo`.
proof fn lemma_trim_left_at(s: Seq<char>, lo: int)
    requires
        0 <= lo <= s.len(),
        forall|j: int| 0 <= j < lo ==> is_space(s[j]),
        lo < s.len() ==> !is_space(s[lo]),
    ensures
        trim_left(s) =~= s.subrange(lo, s.len() as int),
    decreases s.len(),
{
    if s.len() > 0 && lo > 0 {
        lemma_trim_left_at(s.drop_first(), lo - 1);
        assert(s.drop_first().subrange(lo - 1, s.len() - 1) =~= s.subrange(lo, s.len() as int));
    }
}

/// If everything from `hi` on is whitespace and the character before `hi`
/// (when any) is not, `trim_right` keeps exactly the first `hi`.
proof fn lemma_trim_right_at(s: Seq<char>, hi: int)
    requires
        0 <= hi <= s.len(),
        forall|j: int| hi <= j < s.len() ==> is_space(s[j]),
        hi > 0 ==> !is_space(s[hi - 1]),
    ensures
        trim_right(s) =~= s.subrange(0, hi),
    decreases s.len(),
{
    if s.len() > 0 && hi < s.len() {
        lemma_trim_right_at(s.drop_last(), hi);
        assert(s.drop_last().subrange(0, hi) =~= s.subrange(0, hi));
    }
}

/// Trims whitespace from both ends of `s`.
pub fn trim_str(s: &str) -> (r: String)
    ensures
        r@ == trim_text(s@),
{
    let n = s.unicode_len();
    let mut lo: usize = 0;
    while lo < n && is_space_char(s.get_char(lo))
        invariant
            n == s@.len(),
            0 <= lo <= n,
            forall|j: int| 0 <= j < lo ==> is_space(s@[j]),
        decreases n - lo,
    {
        lo = lo + 1;
    }
    let mut hi: usize = n;
    while hi > lo && is_space_char(s.get_char(hi - 1))
        invariant
            n == s@.len(),
            lo <= hi <= n,
            forall|j: int| hi <= j < n ==> is_space(s@[j]),
        decreases hi,
    {
        hi = hi - 1;
    }
    let frag = s.substring_char(lo, hi);
    let r = String::from_str(frag);
    proof {
        lemma_trim_left_at(s@, lo as int);
        let t = s@.subrange(lo as int, s@.len() as int);
        lemma_trim_right_at(t, hi - lo);
        assert(t.subrange(0, hi - lo) =~= s@.subrange(lo as int, hi as int));
    }
    r
}

/// Position of the first `;` of `s`, or its length if there is none.
fn find_semi(s: &str) -> (r: usize)
    ensures
        r as int == first_semi(s@),
        r <= s@.len(),
{
    let n = s.unicode_len();
    let mut i: usize = 0;
    while i < n && s.get_char(i) != ';'
        invariant
            n == s@.len(),
            0 <= i <= n,
            forall|j: int| 0 <= j < i ==> s@[j] != ';',
        decreases n - i,
    {
        i = i + 1;
    }
    proof {
        lemma_first_semi_at(s@, i as int);
    }
    i
}

/// Splits a batch on `;`, trims each fragment and drops the empty ones.
pub fn split_statements(sql: &str) -> (r: Vec<String>)
    ensures
        r@.len() == statements_of(sql@).len(),
        forall|i: int| 0 <= i < r@.len() ==> r@[i]@ == statements_of(sql@)[i],
    decreases sql@.len(),
{
    let n = sql.unicode_len();
    let i = find_semi(sql);
    if i < n {
        let head_frag = sql.substring_char(0, i);
        let head = trim_str(head_frag);
        let rest_frag = sql.substring_char(i + 1, n);
        let mut rest = split_statements(rest_frag);
        if head.as_str().unicode_len() > 0 {
            rest.insert(0, head);
            assert(forall|k: int|
                0 <= k < rest@.len() ==> rest@[k]@ == statements_of(sql@)[k]);
        }
        rest
    } else {
        let t = trim_str(sql);
        let mut out: Vec<String> = Vec::new();
        if t.as_str().unicode_len() > 0 {
            out.push(t);
        }
        out
    }
}

/// Whether `s` starts with the upper-case keyword `kw` up to ASCII case.
pub fn starts_with_ci(s: &str, kw: &str) -> (r: bool)
    ensures
        r == has_prefix_ci(s@, kw@),
{
    let sn = s.unicode_len();
    let kn = kw.unicode_len();
    if sn < kn {
        return false;
    }
    let mut i: usize = 0;
    while i < kn
        invariant
            sn == s@.len(),
            kn == kw@.len(),
            kn <= sn,
            0 <= i <= kn,
            forall|j: int| 0 <= j < i ==> char_eq_upper(s@[j], kw@[j]),
        decreases kn - i,
    {
        let c = s.get_char(i);
        let k = kw.get_char(i);
        let same = if c == k {
            true
        } else if 'A' <= k && k <= 'Z' {
            c as u32 == k as u32 + 32
        } else {
            false
        };
        if !same {
            return false;
        }
        i = i + 1;
    }
    true
}

/// Classifies one trimmed statement by its leading keyword.
pub fn classify_statement(s: &str) -> (r: StmtKind)
    ensures
        r == classify_text(s@),
{
    if starts_with_ci(s, "SELECT") {
        StmtKind::Select
    } else if starts_with_ci(s, "INSERT") || starts_with_ci(s, "UPDATE") || starts_with_ci(
        s,
        "DELETE",
    ) {
        StmtKind::Write
    } else {
        StmtKind::Ddl
    }
}

/// The record of one executed statement: its classification, its text, its
/// decoded rows (reads only) and the affected-row count the connection
/// reported (for reads, the number of rows returned).
#[derive(Debug, PartialEq)]
pub struct StatementResult {
    pub kind: StmtKind,
    pub sql: String,
    pub data: Vec<Value>,
    pub rows_affected: u64,
}

/// Mathematical model of a [`StatementResult`].
pub struct StmtResModel {
    pub kind: StmtKind,
    pub sql: Seq<char>,
    pub data: Seq<ValModel>,
    pub rows_affected: u64,
}

pub open spec fn stmt_res_model(r: StatementResult) -> StmtResModel {
    StmtResModel {
        kind: r.kind,
        sql: r.sql@,
        data: vals_model(r.data@),
        rows_affected: r.rows_affected,
    }
}

/// The envelope text tag of a statement kind.
pub open spec fn kind_text(k: StmtKind) -> Seq<char> {
    match k {
        StmtKind::Select => "select"@,
        StmtKind::Write => "write"@,
        StmtKind::Ddl => "ddl"@,
    }
}

/// The envelope entries of one statement result: reads carry their decoded
/// rows under `data`; writes and DDL carry no row data.
pub open spec fn stmt_result_entries(m: StmtResModel) -> Seq<(Seq<char>, ValModel)> {
    if m.kind == StmtKind::Select {
        seq![
            ("type"@, ValModel::Str(kind_text(m.kind))),
            ("sql"@, ValModel::Str(m.sql)),
            ("data"@, ValModel::Arr(m.data)),
            ("rows_affected"@, ValModel::Num(NumModel::UInt(m.rows_affected))),
        ]
    } else {
        seq![
            ("type"@, ValModel::Str(kind_text(m.kind))),
            ("sql"@, ValModel::Str(m.sql)),
            ("rows_affected"@, ValModel::Num(NumModel::UInt(m.rows_affected))),
        ]
    }
}

/// The envelope object of one statement result.
pub open spec fn stmt_result_model(m: StmtResModel) -> ValModel {
    ValModel::Obj(stmt_result_entries(m))
}

/// The envelope of a whole batch: a single result stands alone, anything
/// else is the ordered array of all results.
pub open spec fn batch_envelope_model(rs: Seq<StmtResModel>) -> ValModel {
    if rs.len() == 1 {
        stmt_result_model(rs[0])
    } else {
        ValModel::Arr(Seq::new(rs.len(), |i: int| stmt_result_model(rs[i])))
    }
}

/// Models of a sequence of statement results, elementwise.
pub open spec fn results_model(rs: Seq<StatementResult>) -> Seq<StmtResModel> {
    Seq::new(rs.len(), |i: int| stmt_res_model(rs[i]))
}

/// The envelope text tag of a statement kind.
pub fn kind_str(k: StmtKind) -> (r: &'static str)
    ensures
        r@ == kind_text(k),
{
    match k {
        StmtKind::Select => "select",
        StmtKind::Write => "write",
        StmtKind::Ddl => "ddl",
    }
}

/// Builds the envelope object of one statement result.
pub fn statement_result_value(r: StatementResult) -> (v: Value)
    ensures
        val_model(v) == stmt_result_model(stmt_res_model(r)),
{
    let StatementResult { kind, sql, data, rows_affected } = r;
    let mut entries: Vec<(String, Value)> = Vec::new();
    entries.push((String::from_str("type"), Value::Str(String::from_str(kind_str(kind)))));
    entries.push((String::from_str("sql"), Value::Str(sql)));
    if kind == StmtKind::Select {
        entries.push((String::from_str("data"), Value::Arr(data)));
        entries.push(
            (String::from_str("rows_affected"), Value::Num(Number::UInt(rows_affected))),
        );
    } else {
        entries.push(
            (String::from_str("rows_affected"), Value::Num(Number::UInt(rows_affected))),
        );
    }
    proof {
        lemma_entry_models(entries@, 0);
        reveal_strlit("type");
        reveal_strlit("sql");
        reveal_strlit("data");
        reveal_strlit("rows_affected");
        assert(entry_models(entries@, 0) =~= stmt_result_entries(stmt_res_model(r)));
    }
    Value::Obj(entries)
}

/// Builds the envelope of a whole batch: a single result is returned alone,
/// never wrapped; two or more come back as the ordered array.
pub fn batch_envelope(results: Vec<StatementResult>) -> (v: Value)
    ensures
        val_model(v) == batch_envelope_model(results_model(results@)),
{
    let ghost rs0 = results@;
    let mut results = results;
    if results.len() == 1 {
        let r = results.remove(0);
        let v = statement_result_value(r);
        return v;
    }
    let mut items: Vec<Value> = Vec::new();
    while results.len() > 0
        invariant
            items@.len() <= rs0.len(),
            results@ =~= rs0.subrange(items@.len() as int, rs0.len() as int),
            rs0.len() != 1,
            forall|i: int|
                0 <= i < items@.len() ==> val_model(items@[i]) == stmt_result_model(
                    stmt_res_model(rs0[i]),
                ),
        decreases results@.len(),
    {
        let r = results.remove(0);
        items.push(statement_result_value(r));
    }
    proof {
        lemma_arr_models(items@, 0);
        assert(vals_model(items@) =~= Seq::new(
            results_model(rs0).len(),
            |i: int| stmt_result_model(results_model(rs0)[i]),
        ));
    }
    Value::Arr(items)
}

/// One raw batch in flight: the split statements, and the results recorded
/// so far.  The caller asks for the next pending statement, runs it against
/// the connection, and records what came back; the first failure aborts the
/// run, and nothing partial is ever shaped into an envelope.
#[derive(Debug)]
pub struct BatchRun {
    pub statements: Vec<String>,
    pub results: Vec<StatementResult>,
}

impl BatchRun {
    /// Each recorded result belongs to the statement at its position: same
    /// text, matching classification, and a read's count is its row count.
    pub open spec fn wf(self) -> bool {
        &&& self.results@.len() <= self.statements@.len()
        &&& forall|i: int|
            0 <= i < self.results@.len() ==> (#[trigger] self.results@[i]).sql@
                == self.statements@[i]@ && self.results@[i].kind == classify_text(
                self.statements@[i]@,
            ) && (self.results@[i].kind == StmtKind::Select ==> self.results@[i].rows_affected
                == self.results@[i].data@.len()) && (self.results@[i].kind != StmtKind::Select
                ==> self.results@[i].data@.len() == 0)
    }

    /// Splits a batch and starts a run over it.  Fails with `EmptyBatch`
    /// exactly when the batch holds no non-empty statement.
    pub fn start(sql: &str) -> (r: Result<BatchRun, DbError>)
        ensures
            match r {
                Ok(b) => statements_of(sql@).len() > 0 && b.wf() && b.results@.len() == 0
                    && b.statements@.len() == statements_of(sql@).len() && forall|i: int|
                    0 <= i < b.statements@.len() ==> b.statements@[i]@ == statements_of(sql@)[i],
                Err(e) => statements_of(sql@).len() == 0 && e == DbError::EmptyBatch,
            },
    {
        let statements = split_statements(sql);
        if statements.len() == 0 {
            Err(DbError::EmptyBatch)
        } else {
            Ok(BatchRun { statements, results: Vec::new() })
        }
    }

    /// The next statement still to run, with its classification: a read is
    /// executed as a query, anything else as a command.
    pub fn next_statement(&self) -> (r: Option<(String, StmtKind)>)
        ensures
            match r {
                Some(p) => self.results@.len() < self.statements@.len() && p.0@
                    == self.statements@[self.results@.len() as int]@ && p.1 == classify_text(p.0@),
                None => self.results@.len() >= self.statements@.len(),
            },
    {
        if self.results.len() < self.statements.len() {
            let s = self.statements[self.results.len()].clone();
            let k = classify_statement(s.as_str());
            Some((s, k))
        } else {
            None
        }
    }

    /// Records the decoded rows of the pending read statement; its count is
    /// the number of rows returned.
    pub fn record_select(&mut self, data: Vec<Value>)
        requires
            old(self).wf(),
            old(self).results@.len() < old(self).statements@.len(),
            classify_text(old(self).statements@[old(self).results@.len() as int]@)
                == StmtKind::Select,
        ensures
            final(self).wf(),
            final(self).statements == old(self).statements,
            final(self).results@.len() == old(self).results@.len() + 1,
            final(self).results@.subrange(0, old(self).results@.len() as int) == old(
                self,
            ).results@,
            stmt_res_model(final(self).results@.last()) == (StmtResModel {
                kind: StmtKind::Select,
                sql: old(self).statements@[old(self).results@.len() as int]@,
                data: vals_model(data@),
                rows_affected: data@.len() as u64,
            }),
    {
        let idx = self.results.len();
        let sql = self.statements[idx].clone();
        let n = data.len() as u64;
        self.results.push(StatementResult { kind: StmtKind::Select, sql, data, rows_affected: n });
        proof {
            assert(final(self).results@.subrange(0, old(self).results@.len() as int) =~= old(
                self,
            ).results@);
        }
    }

    /// Records the affected-row count of the pending write or DDL statement.
    pub fn record_command(&mut self, affected: u64)
        requires
            old(self).wf(),
            old(self).results@.len() < old(self).statements@.len(),
            classify_text(old(self).statements@[old(self).results@.len() as int]@)
                != StmtKind::Select,
        ensures
            final(self).wf(),
            final(self).statements == old(self).statements,
            final(self).results@.len() == old(self).results@.len() + 1,
            final(self).results@.subrange(0, old(self).results@.len() as int) == old(
                self,
            ).results@,
            stmt_res_model(final(self).results@.last()) == (StmtResModel {
                kind: classify_text(old(self).statements@[old(self).results@.len() as int]@),
                sql: old(self).statements@[old(self).results@.len() as int]@,
                data: Seq::empty(),
                rows_affected: affected,
            }),
    {
        let idx = self.results.len();
        let sql = self.statements[idx].clone();
        let kind = classify_statement(sql.as_str());
        let data: Vec<Value> = Vec::new();
        self.results.push(StatementResult { kind, sql, data, rows_affected: affected });
        proof {
            assert(final(self).results@.subrange(0, old(self).results@.len() as int) =~= old(
                self,
            ).results@);
        }
    }

    /// The failure value for the pending statement: it carries that
    /// statement's text and the connection's message, and the run's partial
    /// results are discarded with the run itself.
    pub fn fail(&self, message: String) -> (e: DbError)
        requires
            self.results@.len() < self.statements@.len(),
        ensures
            match e {
                DbError::StatementExecution { sql, message: m } => sql@
                    == self.statements@[self.results@.len() as int]@ && m@ == message@,
                _ => false,
            },
    {
        let sql = self.statements[self.results.len()].clone();
        DbError::StatementExecution { sql, message }
    }

    /// Whether every statement of the batch has a recorded result.
    pub fn is_complete(&self) -> (r: bool)
        ensures
            r == (self.results@.len() == self.statements@.len()),
    {
        self.results.len() == self.statements.len()
    }

    /// Shapes the completed run into the response envelope: one result
    /// stands alone, several come back as the ordered array.
    pub fn finish(self) -> (v: Value)
        requires
            self.wf(),
            self.results@.len() == self.statements@.len(),
        ensures
            val_model(v) == batch_envelope_model(results_model(self.results@)),
    {
        batch_envelope(self.results)
    }
}

} // verus!
