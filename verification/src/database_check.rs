//! What a destructive change needs to know about the live database, and the
//! snapshot of what was found there.

use crate::text::{decimal, occurs_in};
use vstd::hash_map::StringHashMap;
use vstd::prelude::*;

verus! {

/// A check that depends on the current state of the database and serves to
/// qualify a destructive change. Dropping a table that holds no rows, for
/// example, is safe.
#[derive(Debug, PartialEq, Eq)]
pub enum DatabaseCheck {
    /// The number of rows in `table` is needed.
    TableNotEmpty { table: String },
    /// The number of non-null values in `column` of `table` is needed.
    ColumnHasValues { table: String, column: String },
    /// Nothing is needed from the database.
    NoCheck,
}

/// A [`DatabaseCheck`] with its names as texts.
pub enum Fact {
    TableNotEmpty { table: Seq<char> },
    ColumnHasValues { table: Seq<char>, column: Seq<char> },
    NoCheck,
}

impl View for DatabaseCheck {
    type V = Fact;

    open spec fn view(&self) -> Fact {
        match self {
            DatabaseCheck::TableNotEmpty { table } => Fact::TableNotEmpty { table: table@ },
            DatabaseCheck::ColumnHasValues { table, column } => Fact::ColumnHasValues {
                table: table@,
                column: column@,
            },
            DatabaseCheck::NoCheck => Fact::NoCheck,
        }
    }
}

impl Fact {
    /// Whether anything is asked of the database.
    pub open spec fn is_asked(self) -> bool {
        !(self is NoCheck)
    }

    /// The table that the fact is about.
    pub open spec fn table(self) -> Seq<char>
        recommends
            self.is_asked(),
    {
        match self {
            Fact::TableNotEmpty { table } => table,
            Fact::ColumnHasValues { table, .. } => table,
            Fact::NoCheck => Seq::empty(),
        }
    }

    /// The fact that a change asks for through its row-count hook.
    pub open spec fn of_row_count(table: Option<Seq<char>>) -> Fact {
        match table {
            Some(table) => Fact::TableNotEmpty { table },
            None => Fact::NoCheck,
        }
    }

    /// The fact that a change asks for through its existing-values hook.
    pub open spec fn of_existing_values(column: Option<(Seq<char>, Seq<char>)>) -> Fact {
        match column {
            Some((table, column)) => Fact::ColumnHasValues { table, column },
            None => Fact::NoCheck,
        }
    }
}

impl DatabaseCheck {
    /// The check for the row count of `table`, or no check where none is
    /// asked for.
    pub fn of_row_count(table: Option<&str>) -> (check: DatabaseCheck)
        ensures
            check@ == Fact::of_row_count(text_of(table)),
    {
        match table {
            Some(table) => DatabaseCheck::TableNotEmpty { table: table.to_owned() },
            None => DatabaseCheck::NoCheck,
        }
    }

    /// The check for the non-null values of a column, or no check where none
    /// is asked for.
    pub fn of_existing_values(column: Option<(&str, &str)>) -> (check: DatabaseCheck)
        ensures
            check@ == Fact::of_existing_values(texts_of(column)),
    {
        match column {
            Some((table, column)) => DatabaseCheck::ColumnHasValues {
                table: table.to_owned(),
                column: column.to_owned(),
            },
            None => DatabaseCheck::NoCheck,
        }
    }

    /// Whether two checks ask for the same fact.
    pub fn same_as(&self, other: &DatabaseCheck) -> (same: bool)
        ensures
            same == (self@ == other@),
    {
        match self {
            DatabaseCheck::TableNotEmpty { table } => match other {
                DatabaseCheck::TableNotEmpty { table: other_table } => *table == *other_table,
                _ => false,
            },
            DatabaseCheck::ColumnHasValues { table, column } => match other {
                DatabaseCheck::ColumnHasValues { table: other_table, column: other_column } => {
                    *table == *other_table && *column == *other_column
                },
                _ => false,
            },
            DatabaseCheck::NoCheck => match other {
                DatabaseCheck::NoCheck => true,
                _ => false,
            },
        }
    }
}

/// What a snapshot holds. A fact that is not in it is unknown: it was not
/// asked for, it could not be read, or the table or column is gone. Unknown is
/// never taken for zero.
pub struct Snapshot {
    /// The number of rows by table.
    pub row_counts: Map<Seq<char>, i64>,
    /// The number of non-null values by table and column.
    pub value_counts: Map<(Seq<char>, Seq<char>), i64>,
}

impl Snapshot {
    /// The snapshot in which nothing is known.
    pub open spec fn empty() -> Snapshot {
        Snapshot { row_counts: Map::empty(), value_counts: Map::empty() }
    }

    /// The number of rows in `table`, if it is known.
    pub open spec fn rows_in_table(self, table: Seq<char>) -> Option<i64> {
        if self.row_counts.contains_key(table) {
            Some(self.row_counts[table])
        } else {
            None
        }
    }

    /// The number of non-null values in `column` of `table`, if it is known.
    pub open spec fn non_null_values(self, table: Seq<char>, column: Seq<char>) -> Option<i64> {
        if self.value_counts.contains_key((table, column)) {
            Some(self.value_counts[(table, column)])
        } else {
            None
        }
    }

    /// The count that answers `fact`, if it is known.
    pub open spec fn count_of(self, fact: Fact) -> Option<i64> {
        match fact {
            Fact::TableNotEmpty { table } => self.rows_in_table(table),
            Fact::ColumnHasValues { table, column } => self.non_null_values(table, column),
            Fact::NoCheck => None,
        }
    }

    /// The snapshot after `count` was found for `fact`.
    pub open spec fn record(self, fact: Fact, count: i64) -> Snapshot {
        match fact {
            Fact::TableNotEmpty { table } => Snapshot {
                row_counts: self.row_counts.insert(table, count),
                value_counts: self.value_counts,
            },
            Fact::ColumnHasValues { table, column } => Snapshot {
                row_counts: self.row_counts,
                value_counts: self.value_counts.insert((table, column), count),
            },
            Fact::NoCheck => self,
        }
    }

    /// The snapshot after the question for `fact` was put: with the count
    /// where one was answered, unchanged where the question failed.
    pub open spec fn answered(self, fact: Fact, answer: Option<i64>) -> Snapshot {
        match answer {
            Some(count) => self.record(fact, count),
            None => self,
        }
    }
}

/// The count found for one column.
struct ColumnValues {
    table: String,
    column: String,
    count: i64,
}

/// The map that a list of column counts stands for. A later entry for a
/// column supersedes an earlier one.
spec fn value_counts_of(entries: Seq<ColumnValues>) -> Map<(Seq<char>, Seq<char>), i64>
    decreases entries.len(),
{
    if entries.len() == 0 {
        Map::empty()
    } else {
        let entry = entries.last();
        value_counts_of(entries.drop_last()).insert((entry.table@, entry.column@), entry.count)
    }
}

/// The information about the current state of the database that was gathered
/// for a migration.
pub struct DatabaseCheckResults {
    /// From table name to row count.
    row_counts: StringHashMap<i64>,
    /// The non-null value counts, each with its table and column, in the
    /// order in which they were set.
    value_counts: Vec<ColumnValues>,
}

impl View for DatabaseCheckResults {
    type V = Snapshot;

    closed spec fn view(&self) -> Snapshot {
        Snapshot {
            row_counts: self.row_counts@,
            value_counts: value_counts_of(self.value_counts@),
        }
    }
}

impl DatabaseCheckResults {
    /// The results in which nothing is known.
    pub fn new() -> (results: DatabaseCheckResults)
        ensures
            results@ == Snapshot::empty(),
    {
        DatabaseCheckResults { row_counts: StringHashMap::new(), value_counts: Vec::new() }
    }

    /// Sets the number of rows found in `table`.
    pub fn set_row_count(&mut self, table: &str, count: i64)
        ensures
            final(self)@ == old(self)@.record((Fact::TableNotEmpty { table: table@ }), count),
    {
        self.row_counts.insert(table.to_owned(), count);
    }

    /// Sets the number of non-null values found in `column` of `table`.
    pub fn set_value_count(&mut self, table: &str, column: &str, count: i64)
        ensures
            final(self)@ == old(self)@.record(
                (Fact::ColumnHasValues { table: table@, column: column@ }),
                count,
            ),
    {
        let ghost before = self.value_counts@;
        self.value_counts.push(
            ColumnValues { table: table.to_owned(), column: column.to_owned(), count },
        );
        assert(self.value_counts@.drop_last() =~= before);
    }

    /// Files what the database answered to `check`: the count, or nothing
    /// where the question could not be answered. Then the fact stays unknown,
    /// as it does where the check asks for nothing.
    pub fn set_answer(&mut self, check: &DatabaseCheck, answer: Option<i64>)
        ensures
            final(self)@ == old(self)@.answered(check@, answer),
    {
        match answer {
            Some(count) => match check {
                DatabaseCheck::TableNotEmpty { table } => self.set_row_count(
                    table.as_str(),
                    count,
                ),
                DatabaseCheck::ColumnHasValues { table, column } => self.set_value_count(
                    table.as_str(),
                    column.as_str(),
                    count,
                ),
                DatabaseCheck::NoCheck => {},
            },
            None => {},
        }
    }

    /// The number of rows in `table`, if it is known.
    pub fn rows_in_table(&self, table: &str) -> (rows: Option<i64>)
        ensures
            rows == self@.rows_in_table(table@),
    {
        match self.row_counts.get(table) {
            Some(count) => Some(*count),
            None => None,
        }
    }

    /// The number of non-null values in `column` of `table`, if it is known.
    fn non_null_values(&self, table: &str, column: &str) -> (values: Option<i64>)
        ensures
            values == self@.non_null_values(table@, column@),
    {
        let wanted_table = table.to_owned();
        let wanted_column = column.to_owned();
        let ghost key = (table@, column@);
        let ghost entries = self.value_counts@;
        let mut at: usize = self.value_counts.len();
        assert(entries.take(at as int) =~= entries);
        while at > 0
            invariant
                at <= entries.len(),
                entries == self.value_counts@,
                key == (table@, column@),
                key == (wanted_table@, wanted_column@),
                value_counts_of(entries).contains_key(key) == value_counts_of(
                    entries.take(at as int),
                ).contains_key(key),
                value_counts_of(entries).contains_key(key) ==> value_counts_of(entries)[key]
                    == value_counts_of(entries.take(at as int))[key],
            decreases at,
        {
            at = at - 1;
            let entry = &self.value_counts[at];
            assert(entries.take(at + 1).drop_last() =~= entries.take(at as int));
            if entry.table == wanted_table && entry.column == wanted_column {
                return Some(entry.count);
            }
        }
        None
    }

    /// The row count in the table and the non-null value count in the column,
    /// each if it is known.
    pub fn values_in_column(&self, table: &str, column: &str) -> (counts: (
        Option<i64>,
        Option<i64>,
    ))
        ensures
            counts.0 == self@.rows_in_table(table@),
            counts.1 == self@.non_null_values(table@, column@),
    {
        (self.rows_in_table(table), self.non_null_values(table, column))
    }
}

/// At least one fact is asked for, and each that is asked for is known to be
/// zero.
pub open spec fn confirmed_empty(snapshot: Snapshot, rows: Fact, values: Fact) -> bool {
    &&& rows.is_asked() || values.is_asked()
    &&& rows.is_asked() ==> snapshot.count_of(rows) == Some(0i64)
    &&& values.is_asked() ==> snapshot.count_of(values) == Some(0i64)
}

/// `fact` is known and not zero.
pub open spec fn populated(snapshot: Snapshot, fact: Fact) -> bool {
    snapshot.count_of(fact) matches Some(count) && count != 0
}

/// At least one fact is asked for, and each that is asked for is known and
/// not zero.
pub open spec fn confirmed_populated(snapshot: Snapshot, rows: Fact, values: Fact) -> bool {
    &&& rows.is_asked() || values.is_asked()
    &&& rows.is_asked() ==> populated(snapshot, rows)
    &&& values.is_asked() ==> populated(snapshot, values)
}

/// At least one fact is asked for, and none that is asked for is known.
pub open spec fn unverified(snapshot: Snapshot, rows: Fact, values: Fact) -> bool {
    &&& rows.is_asked() || values.is_asked()
    &&& snapshot.count_of(rows) is None
    &&& snapshot.count_of(values) is None
}

/// Where `fact` is asked for, `message` holds the name of its table and the
/// decimal numeral of the count known for it.
pub open spec fn states(message: Seq<char>, snapshot: Snapshot, fact: Fact) -> bool {
    fact.is_asked() ==> {
        &&& occurs_in(fact.table(), message)
        &&& occurs_in(decimal(snapshot.count_of(fact)->0 as int), message)
    }
}

/// What every destructive change can do: say which facts it needs from the
/// database, and render its diagnostic from a snapshot of them. Rendering
/// reads nothing but the snapshot.
pub trait Check: Sized {
    /// The fact that the change asks for by its row count hook: the number of
    /// rows in a table, or nothing.
    spec fn row_fact(&self) -> Fact;

    /// The fact that the change asks for by its existing values hook: the
    /// number of non-null values in a column, or nothing.
    spec fn value_fact(&self) -> Fact;

    /// The diagnostic of the change against `snapshot`: none where the
    /// snapshot shows that the change is safe, a message otherwise.
    spec fn rendering(&self, snapshot: Snapshot) -> Option<Seq<char>>;

    /// Fetch the row count for the table with the returned name.
    fn check_row_count(&self) -> (table: Option<&str>)
        ensures
            Fact::of_row_count(text_of(table)) == self.row_fact(),
    ;

    /// Fetch the number of non-null values for the returned table and column.
    fn check_existing_values(&self) -> (column: Option<(&str, &str)>)
        ensures
            Fact::of_existing_values(texts_of(column)) == self.value_fact(),
    ;

    /// Renders the change against the results. Where a fact that the change
    /// needs is not in the results, the state of the database could not be
    /// checked, and the message says under which conditions the change loses
    /// data or cannot be applied. No message is returned only where the
    /// results show that the change is safe.
    fn render(&self, database_check_results: &DatabaseCheckResults) -> (message: Option<String>)
        ensures
            message_of(message) == self.rendering(database_check_results@),
    ;

    /// What every kind of change owes: it is silent where each fact it asks
    /// for is known to be zero, and only where one is; where each fact is
    /// known and not zero, its message holds the table's name and the exact
    /// count of each; and no message it gives is empty.
    proof fn lemma_rendering_follows_facts(&self, snapshot: Snapshot)
        ensures
            confirmed_empty(snapshot, self.row_fact(), self.value_fact()) ==> self.rendering(
                snapshot,
            ) is None,
            confirmed_populated(snapshot, self.row_fact(), self.value_fact()) ==> ({
                &&& self.rendering(snapshot) is Some
                &&& states(self.rendering(snapshot)->0, snapshot, self.row_fact())
                &&& states(self.rendering(snapshot)->0, snapshot, self.value_fact())
            }),
            self.rendering(snapshot) is None ==> snapshot.count_of(self.row_fact()) == Some(0i64)
                || snapshot.count_of(self.value_fact()) == Some(0i64),
            self.rendering(snapshot) matches Some(message) ==> message.len() > 0,
    ;

    /// What every kind of change owes besides: it reads only the facts that
    /// it asks for.
    proof fn lemma_rendering_reads_only_facts(&self, first: Snapshot, second: Snapshot)
        requires
            first.count_of(self.row_fact()) == second.count_of(self.row_fact()),
            first.count_of(self.value_fact()) == second.count_of(self.value_fact()),
        ensures
            self.rendering(first) == self.rendering(second),
    ;
}

/// A change whose facts are all known to be zero renders nothing.
pub proof fn lemma_silent_when_confirmed_empty<C: Check>(change: &C, snapshot: Snapshot)
    requires
        confirmed_empty(snapshot, change.row_fact(), change.value_fact()),
    ensures
        change.rendering(snapshot) is None,
{
    change.lemma_rendering_follows_facts(snapshot);
}

/// A change whose facts are all known and not zero renders a message that
/// holds, for each fact, the table's name and the exact count.
pub proof fn lemma_counts_stated_when_confirmed_populated<C: Check>(
    change: &C,
    snapshot: Snapshot,
)
    requires
        confirmed_populated(snapshot, change.row_fact(), change.value_fact()),
    ensures
        change.rendering(snapshot) is Some,
        states(change.rendering(snapshot)->0, snapshot, change.row_fact()),
        states(change.rendering(snapshot)->0, snapshot, change.value_fact()),
{
    change.lemma_rendering_follows_facts(snapshot);
}

/// A change none of whose facts is known renders a message, and not an empty
/// one: what could not be checked is never passed over as safe.
pub proof fn lemma_warns_when_unverified<C: Check>(change: &C, snapshot: Snapshot)
    requires
        unverified(snapshot, change.row_fact(), change.value_fact()),
    ensures
        change.rendering(snapshot) matches Some(message) && message.len() > 0,
{
    change.lemma_rendering_follows_facts(snapshot);
}

/// A change that asks for nothing renders a message whatever the snapshot
/// holds.
pub proof fn lemma_warns_when_nothing_asked<C: Check>(change: &C, snapshot: Snapshot)
    requires
        !change.row_fact().is_asked(),
        !change.value_fact().is_asked(),
    ensures
        change.rendering(snapshot) matches Some(message) && message.len() > 0,
{
    change.lemma_rendering_follows_facts(snapshot);
}

/// A change is silent only on proof: where it renders nothing, a fact that it
/// asks for is known to be zero.
pub proof fn lemma_silent_only_on_proof<C: Check>(change: &C, snapshot: Snapshot)
    requires
        change.rendering(snapshot) is None,
    ensures
        ({
            ||| change.row_fact().is_asked() && snapshot.count_of(change.row_fact()) == Some(0i64)
            ||| change.value_fact().is_asked() && snapshot.count_of(change.value_fact()) == Some(
                0i64,
            )
        }),
{
    change.lemma_rendering_follows_facts(snapshot);
}

/// Rendering keeps no state: what two calls of `render` return for one change
/// against one snapshot is the same text, or nothing both times.
pub proof fn lemma_render_repeatable<C: Check>(
    change: &C,
    snapshot: Snapshot,
    first: Option<String>,
    second: Option<String>,
)
    requires
        message_of(first) == change.rendering(snapshot),
        message_of(second) == change.rendering(snapshot),
    ensures
        message_of(first) == message_of(second),
{
}

/// Rendering reads only the facts that a change asks for: two snapshots that
/// agree on them give the same diagnostic, whatever else they hold.
pub proof fn lemma_reads_only_its_facts<C: Check>(change: &C, first: Snapshot, second: Snapshot)
    requires
        first.count_of(change.row_fact()) == second.count_of(change.row_fact()),
        first.count_of(change.value_fact()) == second.count_of(change.value_fact()),
    ensures
        change.rendering(first) == change.rendering(second),
{
    change.lemma_rendering_reads_only_facts(first, second);
}

/// The text of an optional name.
pub open spec fn text_of(name: Option<&str>) -> Option<Seq<char>> {
    match name {
        Some(name) => Some(name@),
        None => None,
    }
}

/// The texts of an optional pair of names.
pub open spec fn texts_of(names: Option<(&str, &str)>) -> Option<(Seq<char>, Seq<char>)> {
    match names {
        Some((first, second)) => Some((first@, second@)),
        None => None,
    }
}

/// The text of an optional message.
pub open spec fn message_of(message: Option<String>) -> Option<Seq<char>> {
    match message {
        Some(message) => Some(message@),
        None => None,
    }
}

} // verus!
