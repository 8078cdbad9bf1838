//! Marshaling: the rows of a result set, column by column, into a sink.

use crate::coerce::coerce;
use crate::coerce::coerced;
use crate::coerce::named;
use crate::coerce::NativeValue;
use crate::schema::lemma_lookup_absent;
use crate::schema::lookup;
use crate::schema::Schema;
use crate::sink::Sink;
use crate::value::TypeTag;
use crate::value::WireValue;
use vstd::prelude::*;

verus! {

/// What a read query returned: the names of the columns, the rows, and the
/// counters that the driver reports with them.
pub struct ResultSet {
    pub columns: Vec<String>,
    pub rows: Vec<Vec<NativeValue>>,
    pub last_insert_id: Option<u64>,
    pub affected_rows: u64,
}

/// What a command that returns no rows reported.
pub struct ExecSummary {
    pub last_insert_id: Option<u64>,
    pub affected_rows: u64,
}

/// The name under which `insert` reports the key that the backend assigned.
pub const DB_RESULT_PROTO: &'static str = "msg_db_result";

/// The key `id` where there is one, else `otherwise`.
pub open spec fn key_or(id: Option<u64>, otherwise: u64) -> u64 {
    match id {
        Some(id) => id,
        None => otherwise,
    }
}

/// The pair by which `insert` reports the key `id` that the backend
/// assigned: the key itself, as an unsigned integer of 64 bits, under the
/// name `DB_RESULT_PROTO`.
pub open spec fn generated_key(id: u64) -> (Seq<char>, WireValue) {
    (DB_RESULT_PROTO@, WireValue::Integer(TypeTag::U64, id as int))
}

/// What one column of one row adds to the sink: one pair where the schema
/// knows the column and the rule of coercion gives a value, else nothing.
/// A column that is passed over leaves no trace: no pair, and no mark that
/// a value is missing.
pub open spec fn column_entries(
    schema: Seq<(Seq<char>, TypeTag)>,
    name: Seq<char>,
    value: NativeValue,
) -> Seq<(Seq<char>, WireValue)> {
    match lookup(schema, name) {
        Some(tag) => named(name, coerced(value, tag)),
        None => Seq::empty(),
    }
}

/// What the first `n` columns of a row add to the sink, in the order of the
/// columns. A column for which the row has no value adds nothing.
pub open spec fn row_entries(
    schema: Seq<(Seq<char>, TypeTag)>,
    columns: Seq<String>,
    row: Seq<NativeValue>,
    n: nat,
) -> Seq<(Seq<char>, WireValue)>
    decreases n,
{
    if n == 0 {
        Seq::empty()
    } else {
        let before = row_entries(schema, columns, row, (n - 1) as nat);
        if n <= columns.len() && n <= row.len() {
            before + column_entries(schema, columns[n - 1]@, row[n - 1])
        } else {
            before
        }
    }
}

/// What the first `n` rows add to the sink, row after row.
pub open spec fn rows_entries(
    schema: Seq<(Seq<char>, TypeTag)>,
    columns: Seq<String>,
    rows: Seq<Vec<NativeValue>>,
    n: nat,
) -> Seq<(Seq<char>, WireValue)>
    decreases n,
{
    if n == 0 {
        Seq::empty()
    } else {
        let before = rows_entries(schema, columns, rows, (n - 1) as nat);
        if n <= rows.len() {
            before + row_entries(schema, columns, rows[n - 1]@, columns.len())
        } else {
            before
        }
    }
}

/// Appends to the sink what one row gives, column by column.
pub fn marshal_row(schema: &Schema, columns: &Vec<String>, row: &Vec<NativeValue>, sink: &mut Sink)
    ensures
        final(sink)@ == old(sink)@ + row_entries(schema@, columns@, row@, columns@.len()),
{
    let n: usize = columns.len();
    let mut i: usize = 0;
    assert(sink@ =~= old(sink)@ + row_entries(schema@, columns@, row@, 0));
    while i < n
        invariant
            i <= n,
            n == columns@.len(),
            sink@ == old(sink)@ + row_entries(schema@, columns@, row@, i as nat),
        decreases n - i,
    {
        let ghost before = sink@;
        if i < row.len() {
            let name: &String = &columns[i];
            match schema.get_field_by_name(name.as_str()) {
                Some(tag) => match coerce(&row[i], tag) {
                    Some(t) => {
                        sink.put(name.clone(), t);
                    },
                    None => {},
                },
                None => {},
            }
            assert(sink@ =~= before + column_entries(schema@, columns@[i as int]@, row@[i as int]));
        }
        i = i + 1;
        assert(sink@ =~= old(sink)@ + row_entries(schema@, columns@, row@, i as nat));
    }
}

/// Appends to the sink what the rows give, row after row.
pub fn marshal_rows(
    schema: &Schema,
    columns: &Vec<String>,
    rows: &Vec<Vec<NativeValue>>,
    sink: &mut Sink,
)
    ensures
        final(sink)@ == old(sink)@ + rows_entries(schema@, columns@, rows@, rows@.len()),
{
    let n: usize = rows.len();
    let mut i: usize = 0;
    assert(sink@ =~= old(sink)@ + rows_entries(schema@, columns@, rows@, 0));
    while i < n
        invariant
            i <= n,
            n == rows@.len(),
            sink@ == old(sink)@ + rows_entries(schema@, columns@, rows@, i as nat),
        decreases n - i,
    {
        marshal_row(schema, columns, &rows[i], sink);
        i = i + 1;
        assert(sink@ =~= old(sink)@ + rows_entries(schema@, columns@, rows@, i as nat));
    }
}

/// How many of the first `n` columns of a row the schema knows and the row
/// fills with a value that is not null.
pub open spec fn filled_known_columns(
    schema: Seq<(Seq<char>, TypeTag)>,
    columns: Seq<String>,
    row: Seq<NativeValue>,
    n: nat,
) -> nat
    decreases n,
{
    if n == 0 {
        0
    } else {
        let before = filled_known_columns(schema, columns, row, (n - 1) as nat);
        if n <= columns.len() && n <= row.len() && lookup(schema, columns[n - 1]@) is Some && !(row[n
            - 1] is Null) {
            before + 1
        } else {
            before
        }
    }
}

/// What a column adds to the sink bears the name of the column and the
/// pattern that the schema declares for it.
pub proof fn lemma_column_bears_pattern(
    schema: Seq<(Seq<char>, TypeTag)>,
    name: Seq<char>,
    value: NativeValue,
)
    ensures
        column_entries(schema, name, value).len() <= 1,
        forall|i: int|
            0 <= i < column_entries(schema, name, value).len() ==> (#[trigger] column_entries(
                schema,
                name,
                value,
            )[i]).0 == name && lookup(schema, name) == Some(
                column_entries(schema, name, value)[i].1.tag(),
            ) && column_entries(schema, name, value)[i].1.wf(),
{
}

/// A column whose value is null adds nothing to the sink, whatever the
/// schema says of it.
pub proof fn lemma_null_adds_nothing(schema: Seq<(Seq<char>, TypeTag)>, name: Seq<char>)
    ensures
        column_entries(schema, name, NativeValue::Null) == Seq::<(Seq<char>, WireValue)>::empty(),
{
}

/// A column whose name no field of the schema bears adds nothing to the
/// sink, whatever its value.
pub proof fn lemma_unknown_adds_nothing(
    schema: Seq<(Seq<char>, TypeTag)>,
    name: Seq<char>,
    value: NativeValue,
)
    requires
        forall|i: int| 0 <= i < schema.len() ==> schema[i].0 != name,
    ensures
        column_entries(schema, name, value) == Seq::<(Seq<char>, WireValue)>::empty(),
{
    lemma_lookup_absent(schema, name);
}

/// A row adds at most one pair for each column that the schema knows and
/// that is not null.
pub proof fn lemma_row_adds_at_most_filled_known(
    schema: Seq<(Seq<char>, TypeTag)>,
    columns: Seq<String>,
    row: Seq<NativeValue>,
    n: nat,
)
    ensures
        row_entries(schema, columns, row, n).len() <= filled_known_columns(schema, columns, row, n),
    decreases n,
{
    if n > 0 {
        lemma_row_adds_at_most_filled_known(schema, columns, row, (n - 1) as nat);
    }
}

/// Where the rule of coercion gives a value for every column that the
/// schema knows and that is not null, a row adds exactly one pair for each
/// of them.
pub proof fn lemma_row_adds_filled_known(
    schema: Seq<(Seq<char>, TypeTag)>,
    columns: Seq<String>,
    row: Seq<NativeValue>,
    n: nat,
)
    requires
        forall|i: int|
            0 <= i < n && i < columns.len() && i < row.len() && lookup(schema, columns[i]@) is Some
                && !(row[i] is Null) ==> coerced(row[i], lookup(schema, columns[i]@)->0) is Some,
    ensures
        row_entries(schema, columns, row, n).len() == filled_known_columns(schema, columns, row, n),
    decreases n,
{
    if n > 0 {
        lemma_row_adds_filled_known(schema, columns, row, (n - 1) as nat);
    }
}

} // verus!
