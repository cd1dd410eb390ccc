//! The plan of the checks for one migration: the changes are registered, the
//! distinct facts they need are listed once, and after the facts were
//! gathered each change is rendered against them.

use crate::database_check::{
    confirmed_populated, Check, DatabaseCheck, DatabaseCheckResults, Fact, Snapshot,
};
use crate::sql_migration_warning::SqlMigrationWarning;
use crate::sql_unexecutable_migration::SqlUnexecutableMigration;
use vstd::prelude::*;

verus! {

/// The facts that a list of checks asks for, one by one.
pub open spec fn facts_in(checks: Seq<DatabaseCheck>) -> Seq<Fact> {
    checks.map_values(|check: DatabaseCheck| check@)
}

/// The texts of a list of messages, one by one.
pub open spec fn texts_in(messages: Seq<String>) -> Seq<Seq<char>> {
    messages.map_values(|message: String| message@)
}

/// `facts` with `fact` added at the end, unless `fact` asks for nothing or is
/// among them already.
pub open spec fn with_fact(facts: Seq<Fact>, fact: Fact) -> Seq<Fact> {
    if fact.is_asked() && !facts.contains(fact) {
        facts.push(fact)
    } else {
        facts
    }
}

/// `facts` with what `changes` ask for added: change by change, for each its
/// row count before its value count, and each fact only where it is first
/// asked for.
pub open spec fn with_facts_of<C: Check>(facts: Seq<Fact>, changes: Seq<C>) -> Seq<Fact>
    decreases changes.len(),
{
    if changes.len() == 0 {
        facts
    } else {
        let change = changes.last();
        with_fact(
            with_fact(with_facts_of(facts, changes.drop_last()), change.row_fact()),
            change.value_fact(),
        )
    }
}

/// One of `changes` asks for `fact`.
pub open spec fn asked_by<C: Check>(changes: Seq<C>, fact: Fact) -> bool {
    &&& fact.is_asked()
    &&& exists|i: int|
        0 <= i < changes.len() && ((#[trigger] changes[i]).row_fact() == fact
            || changes[i].value_fact() == fact)
}

/// `snapshot` knows every fact that `change` asks for.
pub open spec fn known_to<C: Check>(snapshot: Snapshot, change: C) -> bool {
    &&& change.row_fact().is_asked() ==> snapshot.count_of(change.row_fact()) is Some
    &&& change.value_fact().is_asked() ==> snapshot.count_of(change.value_fact()) is Some
}

/// The messages that `changes` render against `snapshot`, in the order of the
/// changes. A change that renders nothing leaves no trace.
pub open spec fn rendered<C: Check>(changes: Seq<C>, snapshot: Snapshot) -> Seq<Seq<char>>
    decreases changes.len(),
{
    if changes.len() == 0 {
        Seq::empty()
    } else {
        let before = rendered(changes.drop_last(), snapshot);
        match changes.last().rendering(snapshot) {
            Some(message) => before.push(message),
            None => before,
        }
    }
}

/// What came of the checks: the warnings to disclose, and the reasons for
/// which the migration cannot be applied.
pub struct DestructiveChangeDiagnostics {
    /// What the operator must be told before the migration is applied.
    pub warnings: Vec<String>,
    /// Why the migration must not be applied: every reason, not only the
    /// first.
    pub unexecutable_migrations: Vec<String>,
}

/// The diagnostics as two lists of texts.
pub struct Diagnostics {
    pub warnings: Seq<Seq<char>>,
    pub unexecutable_migrations: Seq<Seq<char>>,
}

impl View for DestructiveChangeDiagnostics {
    type V = Diagnostics;

    open spec fn view(&self) -> Diagnostics {
        Diagnostics {
            warnings: texts_in(self.warnings@),
            unexecutable_migrations: texts_in(self.unexecutable_migrations@),
        }
    }
}

impl DestructiveChangeDiagnostics {
    /// Whether the migration must be rejected: it must where any change gave a
    /// reason against it.
    pub fn blocks_migration(&self) -> (blocked: bool)
        ensures
            blocked == (self@.unexecutable_migrations.len() > 0),
    {
        self.unexecutable_migrations.len() > 0
    }
}

/// The changes of a plan, each list in the order of registration.
pub struct Plan {
    pub warnings: Seq<SqlMigrationWarning>,
    pub unexecutable_migrations: Seq<SqlUnexecutableMigration>,
}

impl Plan {
    /// The distinct facts that the changes need: those of the warnings
    /// before those of the unexecutable migrations, each where it is first
    /// asked for.
    pub open spec fn facts(self) -> Seq<Fact> {
        with_facts_of(with_facts_of(Seq::empty(), self.warnings), self.unexecutable_migrations)
    }

    /// Whether a change of the plan asks for `fact`.
    pub open spec fn asks_for(self, fact: Fact) -> bool {
        asked_by(self.warnings, fact) || asked_by(self.unexecutable_migrations, fact)
    }

    /// The diagnostics of the changes against `snapshot`.
    pub open spec fn diagnostics(self, snapshot: Snapshot) -> Diagnostics {
        Diagnostics {
            warnings: rendered(self.warnings, snapshot),
            unexecutable_migrations: rendered(self.unexecutable_migrations, snapshot),
        }
    }
}

/// The destructive changes of one migration, gathered before the database is
/// asked anything.
pub struct DestructiveCheckPlan {
    warnings: Vec<SqlMigrationWarning>,
    unexecutable_migrations: Vec<SqlUnexecutableMigration>,
}

impl View for DestructiveCheckPlan {
    type V = Plan;

    closed spec fn view(&self) -> Plan {
        Plan {
            warnings: self.warnings@,
            unexecutable_migrations: self.unexecutable_migrations@,
        }
    }
}

/// Adds `check` to `checks`, unless it asks for nothing or a check for the
/// same fact is there already.
fn add_check(checks: &mut Vec<DatabaseCheck>, check: DatabaseCheck)
    ensures
        facts_in(final(checks)@) == with_fact(facts_in(old(checks)@), check@),
{
    if let DatabaseCheck::NoCheck = check {
        return ;
    }
    let ghost facts = facts_in(checks@);
    let mut at: usize = 0;
    while at < checks.len()
        invariant
            at <= checks.len(),
            checks@ == old(checks)@,
            facts == facts_in(checks@),
            forall|i: int| 0 <= i < at ==> facts[i] != check@,
        decreases checks.len() - at,
    {
        if checks[at].same_as(&check) {
            assert(facts[at as int] == check@);
            return ;
        }
        at = at + 1;
    }
    checks.push(check);
}

/// Adds the checks that `changes` need to `checks`.
fn add_checks_of<C: Check>(checks: &mut Vec<DatabaseCheck>, changes: &Vec<C>)
    ensures
        facts_in(final(checks)@) == with_facts_of(facts_in(old(checks)@), changes@),
{
    let mut at: usize = 0;
    while at < changes.len()
        invariant
            at <= changes.len(),
            facts_in(checks@) == with_facts_of(facts_in(old(checks)@), changes@.take(at as int)),
        decreases changes.len() - at,
    {
        let change = &changes[at];
        add_check(checks, DatabaseCheck::of_row_count(change.check_row_count()));
        add_check(checks, DatabaseCheck::of_existing_values(change.check_existing_values()));
        assert(changes@.take(at + 1).drop_last() =~= changes@.take(at as int));
        at = at + 1;
    }
    assert(changes@.take(at as int) =~= changes@);
}

/// Renders each of `changes` against the results and keeps the messages, in
/// the order of the changes.
fn render_all<C: Check>(changes: &Vec<C>, results: &DatabaseCheckResults) -> (messages: Vec<
    String,
>)
    ensures
        texts_in(messages@) == rendered(changes@, results@),
{
    let mut messages: Vec<String> = Vec::new();
    let mut at: usize = 0;
    while at < changes.len()
        invariant
            at <= changes.len(),
            texts_in(messages@) == rendered(changes@.take(at as int), results@),
        decreases changes.len() - at,
    {
        if let Some(message) = changes[at].render(results) {
            messages.push(message);
        }
        assert(changes@.take(at + 1).drop_last() =~= changes@.take(at as int));
        at = at + 1;
    }
    assert(changes@.take(at as int) =~= changes@);
    messages
}

impl DestructiveCheckPlan {
    /// The plan without any change.
    pub fn new() -> (plan: Self)
        ensures
            plan@ == (Plan { warnings: Seq::empty(), unexecutable_migrations: Seq::empty() }),
    {
        DestructiveCheckPlan { warnings: Vec::new(), unexecutable_migrations: Vec::new() }
    }

    /// Registers a warning, after those registered before.
    pub fn push_warning(&mut self, warning: SqlMigrationWarning)
        ensures
            final(self)@ == (Plan {
                warnings: old(self)@.warnings.push(warning),
                unexecutable_migrations: old(self)@.unexecutable_migrations,
            }),
    {
        self.warnings.push(warning)
    }

    /// Registers an unexecutable migration, after those registered before.
    pub fn push_unexecutable(&mut self, unexecutable_migration: SqlUnexecutableMigration)
        ensures
            final(self)@ == (Plan {
                warnings: old(self)@.warnings,
                unexecutable_migrations: old(self)@.unexecutable_migrations.push(
                    unexecutable_migration,
                ),
            }),
    {
        self.unexecutable_migrations.push(unexecutable_migration)
    }

    /// The checks to run against the database before the plan is executed:
    /// one for each distinct fact that a registered change needs, and no
    /// other.
    pub fn database_checks(&self) -> (checks: Vec<DatabaseCheck>)
        ensures
            facts_in(checks@) == self@.facts(),
    {
        let mut checks: Vec<DatabaseCheck> = Vec::new();
        assert(facts_in(checks@) =~= Seq::empty());
        add_checks_of(&mut checks, &self.warnings);
        add_checks_of(&mut checks, &self.unexecutable_migrations);
        checks
    }

    /// Renders every registered change against the results and gives the
    /// diagnostics. The plan is used up.
    pub fn execute(self, results: &DatabaseCheckResults) -> (diagnostics:
        DestructiveChangeDiagnostics)
        ensures
            diagnostics@ == self@.diagnostics(results@),
    {
        DestructiveChangeDiagnostics {
            warnings: render_all(&self.warnings, results),
            unexecutable_migrations: render_all(&self.unexecutable_migrations, results),
        }
    }
}

/// Adding a fact keeps a list of distinct facts distinct, and adds at most
/// that fact.
proof fn lemma_with_fact(facts: Seq<Fact>, fact: Fact)
    requires
        facts.no_duplicates(),
    ensures
        with_fact(facts, fact).no_duplicates(),
        forall|other: Fact|
            with_fact(facts, fact).contains(other) <==> facts.contains(other) || (fact.is_asked()
                && other == fact),
{
    let added = with_fact(facts, fact);
    if fact.is_asked() && !facts.contains(fact) {
        assert forall|other: Fact| added.contains(other) <==> facts.contains(other) || other
            == fact by {
            if facts.contains(other) {
                let i: int = choose|i: int| 0 <= i < facts.len() && facts[i] == other;
                assert(added[i] == other);
            }
            if other == fact {
                assert(added[facts.len() as int] == other);
            }
        }
    }
}

/// The facts of a list of changes, added to distinct facts, are distinct, and
/// they are the facts that were there and those that a change asks for.
proof fn lemma_with_facts_of<C: Check>(facts: Seq<Fact>, changes: Seq<C>)
    requires
        facts.no_duplicates(),
    ensures
        with_facts_of(facts, changes).no_duplicates(),
        forall|fact: Fact|
            with_facts_of(facts, changes).contains(fact) <==> facts.contains(fact) || asked_by(
                changes,
                fact,
            ),
    decreases changes.len(),
{
    if changes.len() > 0 {
        let earlier = changes.drop_last();
        let change = changes.last();
        let before = with_facts_of(facts, earlier);
        lemma_with_facts_of(facts, earlier);
        lemma_with_fact(before, change.row_fact());
        lemma_with_fact(with_fact(before, change.row_fact()), change.value_fact());
        assert forall|fact: Fact|
            asked_by(changes, fact) <==> asked_by(earlier, fact) || (fact.is_asked() && (
            change.row_fact() == fact || change.value_fact() == fact)) by {
            if asked_by(changes, fact) {
                let i: int = choose|i: int|
                    0 <= i < changes.len() && ((#[trigger] changes[i]).row_fact() == fact
                        || changes[i].value_fact() == fact);
                if i < earlier.len() {
                    assert(earlier[i] == changes[i]);
                }
            }
        }
    }
}

/// However many changes of a plan ask for a fact, the fact stands once among
/// the facts of the plan; and a fact that no change asks for does not stand
/// there.
pub proof fn lemma_each_fact_once(plan: Plan, fact: Fact)
    ensures
        plan.facts().no_duplicates(),
        plan.facts().contains(fact) <==> plan.asks_for(fact),
        plan.facts().to_multiset().count(fact) == if plan.asks_for(fact) {
            1nat
        } else {
            0nat
        },
{
    let of_warnings = with_facts_of(Seq::<Fact>::empty(), plan.warnings);
    lemma_with_facts_of(Seq::<Fact>::empty(), plan.warnings);
    lemma_with_facts_of(of_warnings, plan.unexecutable_migrations);
    assert(!Seq::<Fact>::empty().contains(fact));
    plan.facts().lemma_multiset_has_no_duplicates();
    vstd::seq_lib::to_multiset_contains(plan.facts(), fact);
}

/// A snapshot that knows every fact that one of `changes` asks for knows, for
/// each change, the facts that it asks for.
proof fn lemma_known_to_each<C: Check>(changes: Seq<C>, snapshot: Snapshot)
    requires
        forall|fact: Fact| asked_by(changes, fact) ==> snapshot.count_of(fact) is Some,
    ensures
        forall|i: int| 0 <= i < changes.len() ==> known_to(snapshot, #[trigger] changes[i]),
{
    assert forall|i: int| 0 <= i < changes.len() implies known_to(
        snapshot,
        #[trigger] changes[i],
    ) by {
        let change = changes[i];
        if change.row_fact().is_asked() {
            assert(asked_by(changes, change.row_fact()));
        }
        if change.value_fact().is_asked() {
            assert(asked_by(changes, change.value_fact()));
        }
    }
}

/// The facts of a plan are all that its changes read: against a snapshot
/// that knows each of them, no change is left unverified.
pub proof fn lemma_facts_cover_every_change(plan: Plan, snapshot: Snapshot)
    requires
        forall|at: int|
            0 <= at < plan.facts().len() ==> snapshot.count_of(#[trigger] plan.facts()[at])
                is Some,
    ensures
        forall|i: int|
            0 <= i < plan.warnings.len() ==> known_to(snapshot, #[trigger] plan.warnings[i]),
        forall|i: int|
            0 <= i < plan.unexecutable_migrations.len() ==> known_to(
                snapshot,
                #[trigger] plan.unexecutable_migrations[i],
            ),
{
    assert forall|fact: Fact| #[trigger] plan.asks_for(fact) implies snapshot.count_of(fact)
        is Some by {
        lemma_each_fact_once(plan, fact);
        let at: int = choose|at: int| 0 <= at < plan.facts().len() && plan.facts()[at] == fact;
    }
    assert forall|fact: Fact| asked_by(plan.warnings, fact) implies snapshot.count_of(fact)
        is Some by {
        assert(plan.asks_for(fact));
    }
    assert forall|fact: Fact|
        asked_by(plan.unexecutable_migrations, fact) implies snapshot.count_of(fact) is Some by {
        assert(plan.asks_for(fact));
    }
    lemma_known_to_each(plan.warnings, snapshot);
    lemma_known_to_each(plan.unexecutable_migrations, snapshot);
}

/// What the first `upto` changes render is the beginning of what all of them
/// render.
proof fn lemma_rendered_prefix<C: Check>(changes: Seq<C>, snapshot: Snapshot, upto: int)
    requires
        0 <= upto <= changes.len(),
    ensures
        rendered(changes.take(upto), snapshot).is_prefix_of(rendered(changes, snapshot)),
    decreases changes.len(),
{
    if upto == changes.len() {
        assert(changes.take(upto) =~= changes);
    } else {
        assert(changes.drop_last().take(upto) =~= changes.take(upto));
        lemma_rendered_prefix(changes.drop_last(), snapshot, upto);
    }
}

/// The message of a change is kept: it stands in the output after the
/// messages of the changes before it.
pub proof fn lemma_rendered_keeps_message<C: Check>(changes: Seq<C>, snapshot: Snapshot, i: int)
    requires
        0 <= i < changes.len(),
        changes[i].rendering(snapshot) is Some,
    ensures
        ({
            let messages = rendered(changes, snapshot);
            let at: int = rendered(changes.take(i), snapshot).len() as int;
            at < messages.len() && messages[at] == changes[i].rendering(snapshot)->0
        }),
{
    let messages = rendered(changes, snapshot);
    let upto = rendered(changes.take(i + 1), snapshot);
    let at: int = rendered(changes.take(i), snapshot).len() as int;
    assert(changes.take(i + 1).drop_last() =~= changes.take(i));
    lemma_rendered_prefix(changes, snapshot, i + 1);
    assert(messages.subrange(0, upto.len() as int)[at] == messages[at]);
}

/// The messages come out in the order in which the changes were registered:
/// of two changes that render a message, the message of the one registered
/// first stands first.
pub proof fn lemma_rendered_in_order<C: Check>(
    changes: Seq<C>,
    snapshot: Snapshot,
    i: int,
    j: int,
)
    requires
        0 <= i < j < changes.len(),
        changes[i].rendering(snapshot) is Some,
        changes[j].rendering(snapshot) is Some,
    ensures
        ({
            let messages = rendered(changes, snapshot);
            let first: int = rendered(changes.take(i), snapshot).len() as int;
            let second: int = rendered(changes.take(j), snapshot).len() as int;
            &&& first < second < messages.len()
            &&& messages[first] == changes[i].rendering(snapshot)->0
            &&& messages[second] == changes[j].rendering(snapshot)->0
        }),
{
    lemma_rendered_keeps_message(changes, snapshot, i);
    lemma_rendered_keeps_message(changes, snapshot, j);
    lemma_rendered_keeps_message(changes.take(j), snapshot, i);
    assert(changes.take(j).take(i) =~= changes.take(i));
}

/// Every message in the output is the message of a registered change, and
/// stands where the order of registration puts it.
pub proof fn lemma_rendered_has_source<C: Check>(changes: Seq<C>, snapshot: Snapshot, at: int)
    requires
        0 <= at < rendered(changes, snapshot).len(),
    ensures
        exists|i: int|
            0 <= i < changes.len() && (#[trigger] changes[i]).rendering(snapshot) == Some(
                rendered(changes, snapshot)[at],
            ) && rendered(changes.take(i), snapshot).len() == at,
    decreases changes.len(),
{
    let earlier = changes.drop_last();
    if at < rendered(earlier, snapshot).len() {
        lemma_rendered_has_source(earlier, snapshot, at);
        let i: int = choose|i: int|
            0 <= i < earlier.len() && (#[trigger] earlier[i]).rendering(snapshot) == Some(
                rendered(earlier, snapshot)[at],
            ) && rendered(earlier.take(i), snapshot).len() == at;
        assert(earlier.take(i) =~= changes.take(i));
    }
}

/// Where nothing is known of the database, every change renders a message:
/// none is passed over for want of data.
pub proof fn lemma_all_rendered_when_nothing_known<C: Check>(changes: Seq<C>)
    ensures
        rendered(changes, Snapshot::empty()).len() == changes.len(),
        forall|i: int|
            0 <= i < changes.len() ==> (#[trigger] changes[i]).rendering(Snapshot::empty())
                == Some(rendered(changes, Snapshot::empty())[i]),
    decreases changes.len(),
{
    if changes.len() > 0 {
        lemma_all_rendered_when_nothing_known(changes.drop_last());
        changes.last().lemma_rendering_follows_facts(Snapshot::empty());
        assert forall|i: int| 0 <= i < changes.len() implies (#[trigger] changes[i]).rendering(
            Snapshot::empty(),
        ) == Some(rendered(changes, Snapshot::empty())[i]) by {
            if i < changes.len() - 1 {
                assert(changes[i] == changes.drop_last()[i]);
            }
        }
    }
}

/// A plan with an unexecutable migration whose facts are known and not zero
/// gives diagnostics with a reason against the migration, and the reason is
/// not empty.
pub proof fn lemma_blocked_when_confirmed_populated(plan: Plan, snapshot: Snapshot, i: int)
    requires
        0 <= i < plan.unexecutable_migrations.len(),
        confirmed_populated(
            snapshot,
            plan.unexecutable_migrations[i].row_fact(),
            plan.unexecutable_migrations[i].value_fact(),
        ),
    ensures
        ({
            let reasons = plan.diagnostics(snapshot).unexecutable_migrations;
            let at: int = rendered(plan.unexecutable_migrations.take(i), snapshot).len() as int;
            &&& at < reasons.len()
            &&& plan.unexecutable_migrations[i].rendering(snapshot) == Some(reasons[at])
            &&& reasons[at].len() > 0
        }),
{
    let change = plan.unexecutable_migrations[i];
    change.lemma_rendering_follows_facts(snapshot);
    lemma_rendered_keeps_message(plan.unexecutable_migrations, snapshot, i);
}

} // verus!
