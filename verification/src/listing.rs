use vstd::prelude::*;
use vstd::string::*;
use crate::value::{Value, ValModel, val_model, arr_models, entry_models, lemma_entry_models, lemma_arr_models};

verus! {

/// The strings present in a sequence of optional cells, in order: the
/// nulls and failed reads are dropped.
pub open spec fn present_strings(xs: Seq<Option<String>>, i: int) -> Seq<Seq<char>>
    decreases xs.len() - i,
{
    if i < 0 || i >= xs.len() {
        Seq::empty()
    } else {
        (match xs[i] {
            Some(s) => seq![s@],
            None => Seq::empty(),
        }) + present_strings(xs, i + 1)
    }
}

/// Collects the strings present among optional cells, dropping the rest.
pub fn collect_present(cells: Vec<Option<String>>) -> (r: Vec<String>)
    ensures
        r@.len() == present_strings(cells@, 0).len(),
        forall|i: int| 0 <= i < r@.len() ==> r@[i]@ == present_strings(cells@, 0)[i],
    decreases cells@.len(),
{
    let ghost cs0 = cells@;
    let mut cells = cells;
    let mut out: Vec<String> = Vec::new();
    let ghost i: int = 0;
    while cells.len() > 0
        invariant
            0 <= i <= cs0.len(),
            cells@ =~= cs0.subrange(i, cs0.len() as int),
            out@.len() + present_strings(cs0, i).len() == present_strings(cs0, 0).len(),
            forall|j: int|
                0 <= j < out@.len() ==> out@[j]@ == present_strings(cs0, 0)[j],
            present_strings(cs0, 0) =~= present_strings(cs0, 0).subrange(0, out@.len() as int)
                + present_strings(cs0, i),
        decreases cells@.len(),
    {
        let cell = cells.remove(0);
        proof {
            assert(cell == cs0[i]);
        }
        match cell {
            Some(s) => {
                out.push(s);
            },
            None => {},
        }
        proof {
            i = i + 1;
            assert(present_strings(cs0, 0) =~= present_strings(cs0, 0).subrange(
                0,
                out@.len() as int,
            ) + present_strings(cs0, i));
        }
    }
    out
}

/// The envelope object of a listing: the names as strings, in order, under
/// one key (`databases` or `collections`).
pub open spec fn names_envelope_model(key: Seq<char>, names: Seq<Seq<char>>) -> ValModel {
    ValModel::Obj(
        seq![(key, ValModel::Arr(Seq::new(names.len(), |i: int| ValModel::Str(names[i]))))],
    )
}

/// Builds the envelope object of a listing.
pub fn names_envelope(key: &str, names: Vec<String>) -> (v: Value)
    ensures
        val_model(v) == names_envelope_model(key@, names@.map_values(|s: String| s@)),
{
    let ghost ns0 = names@;
    let mut names = names;
    let mut items: Vec<Value> = Vec::new();
    while names.len() > 0
        invariant
            items@.len() <= ns0.len(),
            names@ =~= ns0.subrange(items@.len() as int, ns0.len() as int),
            forall|i: int|
                0 <= i < items@.len() ==> items@[i] == Value::Str(ns0[i]),
        decreases names@.len(),
    {
        let s = names.remove(0);
        items.push(Value::Str(s));
    }
    let mut entries: Vec<(String, Value)> = Vec::new();
    entries.push((String::from_str(key), Value::Arr(items)));
    proof {
        lemma_entry_models(entries@, 0);
        lemma_arr_models(items@, 0);
        let names_m = ns0.map_values(|s: String| s@);
        assert(items@.len() == ns0.len());
        assert forall|i: int| 0 <= i < items@.len() implies arr_models(items@, 0)[i]
            == ValModel::Str(names_m[i]) by {
            assert(items@[i] == Value::Str(ns0[i]));
        }
        assert(arr_models(items@, 0) =~= Seq::new(
            names_m.len(),
            |i: int| ValModel::Str(names_m[i]),
        ));
        assert(entry_models(entries@, 0) =~~= names_envelope_model(key@, names_m)->Obj_0);
    }
    Value::Obj(entries)
}

/// The query listing the tables of the connected database's public schema.
pub open spec fn same_db_query_text() -> Seq<char> {
    "SELECT table_name FROM information_schema.tables WHERE table_schema = 'public' AND table_type = 'BASE TABLE'"@
}

/// The first cross-database fallback: filter by table catalog.
pub open spec fn catalog_query_text(db: Seq<char>) -> Seq<char> {
    "SELECT table_name FROM information_schema.tables WHERE table_catalog = '"@ + db
        + "' AND table_schema = 'public' AND table_type = 'BASE TABLE'"@
}

/// The second cross-database fallback: qualify the schema with the database
/// name.
pub open spec fn qualified_query_text(db: Seq<char>) -> Seq<char> {
    "SELECT table_name FROM "@ + db
        + ".information_schema.tables WHERE table_schema = 'public' AND table_type = 'BASE TABLE'"@
}

/// The third cross-database fallback: read the name as a schema.
pub open spec fn schema_query_text(db: Seq<char>) -> Seq<char> {
    "SELECT table_name FROM information_schema.tables WHERE table_schema = '"@ + db + "'"@
}

/// The queries a table listing tries, in order: the exact public-schema
/// query alone when the asked database is the connected one, and otherwise
/// the three cross-database fallbacks.  The caller runs them in order and
/// keeps the first non-empty result.
pub fn collection_queries(database: &str, current_db: &str) -> (r: Vec<String>)
    ensures
        database@ == current_db@ ==> r@.len() == 1 && r@[0]@ == same_db_query_text(),
        database@ != current_db@ ==> r@.len() == 3 && r@[0]@ == catalog_query_text(database@)
            && r@[1]@ == qualified_query_text(database@) && r@[2]@ == schema_query_text(database@),
{
    let mut r: Vec<String> = Vec::new();
    if crate::render::str_eq(database, current_db) {
        r.push(
            String::from_str(
                "SELECT table_name FROM information_schema.tables WHERE table_schema = 'public' AND table_type = 'BASE TABLE'",
            ),
        );
    } else {
        let mut q1 = String::from_str(
            "SELECT table_name FROM information_schema.tables WHERE table_catalog = '",
        );
        q1.append(database);
        q1.append("' AND table_schema = 'public' AND table_type = 'BASE TABLE'");
        assert(q1@ =~= catalog_query_text(database@));
        r.push(q1);
        let mut q2 = String::from_str("SELECT table_name FROM ");
        q2.append(database);
        q2.append(
            ".information_schema.tables WHERE table_schema = 'public' AND table_type = 'BASE TABLE'",
        );
        assert(q2@ =~= qualified_query_text(database@));
        r.push(q2);
        let mut q3 = String::from_str(
            "SELECT table_name FROM information_schema.tables WHERE table_schema = '",
        );
        q3.append(database);
        q3.append("'");
        assert(q3@ =~= schema_query_text(database@));
        r.push(q3);
    }
    r
}

/// The first probe outcome that came back with at least one name, if any.
/// A failed probe is a `None`; later probes are never reached once one
/// succeeds with names.
pub open spec fn first_nonempty(os: Seq<Option<Vec<String>>>) -> Option<Vec<String>>
    decreases os.len(),
{
    if os.len() == 0 {
        None
    } else {
        match os[0] {
            Some(v) => if v@.len() > 0 {
                Some(v)
            } else {
                first_nonempty(os.drop_first())
            },
            None => first_nonempty(os.drop_first()),
        }
    }
}

/// If the outcomes before `i` are failures or empty and outcome `i` (when
/// present) has names, then `first_nonempty` picks exactly outcome `i`.
pub proof fn lemma_first_nonempty_at(os: Seq<Option<Vec<String>>>, i: int)
    requires
        0 <= i <= os.len(),
        forall|j: int|
            0 <= j < i ==> (os[j] is None || (os[j] matches Some(v) && v@.len() == 0)),
        i < os.len() ==> (os[i] matches Some(v) && v@.len() > 0),
    ensures
        first_nonempty(os) == if i < os.len() {
            os[i]
        } else {
            None::<Vec<String>>
        },
    decreases os.len(),
{
    if os.len() > 0 && i > 0 {
        lemma_first_nonempty_at(os.drop_first(), i - 1);
    }
}

/// Picks the names of the first probe that succeeded with at least one
/// name, and an empty listing when every probe failed or came back empty.
pub fn pick_first_nonempty(outcomes: Vec<Option<Vec<String>>>) -> (r: Vec<String>)
    ensures
        match first_nonempty(outcomes@) {
            Some(v) => r == v,
            None => r@.len() == 0,
        },
{
    let ghost os0 = outcomes@;
    let mut i: usize = 0;
    let mut found: Option<usize> = None;
    while i < outcomes.len() && found.is_none()
        invariant
            0 <= i <= os0.len(),
            outcomes@ == os0,
            forall|j: int|
                0 <= j < i ==> (found is Some || os0[j] is None || (os0[j] matches Some(v)
                    && v@.len() == 0)),
            match found {
                Some(f) => f < os0.len() && i == f + 1 && (os0[f as int] matches Some(v)
                    && v@.len() > 0) && forall|j: int|
                    0 <= j < f ==> (os0[j] is None || (os0[j] matches Some(v) && v@.len() == 0)),
                None => forall|j: int|
                    0 <= j < i ==> (os0[j] is None || (os0[j] matches Some(v) && v@.len() == 0)),
            },
        decreases os0.len() - i,
    {
        let hit = match &outcomes[i] {
            Some(v) => v.len() > 0,
            None => false,
        };
        if hit {
            found = Some(i);
        }
        i = i + 1;
    }
    match found {
        Some(f) => {
            let mut outcomes = outcomes;
            let got = outcomes.remove(f);
            proof {
                lemma_first_nonempty_at(os0, f as int);
            }
            match got {
                Some(v) => v,
                None => {
                    proof {
                        assert(false);
                    }
                    Vec::new()
                },
            }
        },
        None => {
            proof {
                lemma_first_nonempty_at(os0, os0.len() as int);
            }
            Vec::new()
        },
    }
}

} // verus!
