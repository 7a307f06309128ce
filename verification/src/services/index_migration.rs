//! The migration of a collection's indexes: the origin's indexes are listed,
//! then the destination's, and each origin index that is neither the default
//! `_id_` index nor already present in the destination (by name) is created,
//! in origin order. The first step that fails ends the migration.
use vstd::prelude::*;

use crate::text::str_eq;

verus! {

/// What becomes of one origin index.
#[derive(Clone, Copy, Debug, PartialEq, Eq, Structural)]
pub enum IndexDecision {
    /// It is the default `_id_` index, which every collection has.
    SkipDefault,
    /// The destination already has an index of its name.
    SkipExisting,
    /// It is created in the destination.
    Create,
}

/// Where a migration of indexes stands.
#[derive(Clone, Copy, Debug, PartialEq, Eq, Structural)]
pub enum IndexPhase {
    ListingSource,
    ListingTarget,
    Creating,
    Succeeded,
    Failed,
}

/// What the caller is to do next.
#[derive(Clone, Copy, Debug, PartialEq, Eq, Structural)]
pub enum IndexAction {
    /// List the origin collection's indexes.
    ListSourceIndexes,
    /// List the destination collection's indexes.
    ListTargetIndexes,
    /// Create, in the destination, the origin index at this position of the
    /// origin's list (counted from 0).
    CreateIndex(usize),
    /// The migration is done.
    Complete,
    /// The migration ends with the failure of the last step.
    Abort,
}

/// The state of a migration of indexes.
pub struct IndexMigration {
    source: Vec<Option<String>>,
    decisions: Vec<IndexDecision>,
    phase: IndexPhase,
    next: usize,
}

/// An `IndexMigration` as plain values.
pub struct IndexMigrationView {
    pub source: Seq<Option<Seq<char>>>,
    pub decisions: Seq<IndexDecision>,
    pub phase: IndexPhase,
    pub next: nat,
}

impl View for IndexMigration {
    type V = IndexMigrationView;

    closed spec fn view(&self) -> IndexMigrationView {
        IndexMigrationView {
            source: self.source.deep_view(),
            decisions: self.decisions@,
            phase: self.phase, next: self.next as nat }
    }
}

/// The name under which an index is reported and compared: its own, or
/// `<unnamed>` where it has none.
pub open spec fn display_name(name: Option<Seq<char>>) -> Seq<char> {
    match name {
        Some(n) => n,
        None => "<unnamed>"@,
    }
}

/// What becomes of an origin index of this name, given the names of the
/// destination's indexes.
pub open spec fn decide(name: Option<Seq<char>>, target: Seq<Option<Seq<char>>>) -> IndexDecision {
    let n = display_name(name);
    if n == "_id_"@ {
        IndexDecision::SkipDefault
    } else if target.contains(Some(n)) {
        IndexDecision::SkipExisting
    } else {
        IndexDecision::Create
    }
}

/// What becomes of each origin index.
pub open spec fn decisions_for(source: Seq<Option<Seq<char>>>, target: Seq<Option<Seq<char>>>) -> Seq<
    IndexDecision,
> {
    source.map_values(|name: Option<Seq<char>>| decide(name, target))
}

/// The first position at or after `i` whose index is to be created, or the
/// length of `d` where there is none.
pub open spec fn next_create(d: Seq<IndexDecision>, i: int) -> int
    decreases d.len() - i,
{
    if i < 0 || i >= d.len() {
        d.len() as int
    } else if d[i] == IndexDecision::Create {
        i
    } else {
        next_create(d, i + 1)
    }
}

impl IndexMigrationView {
    /// The state in which a migration of indexes starts.
    pub open spec fn start() -> Self {
        IndexMigrationView {
            source: Seq::empty(),
            decisions: Seq::empty(),
            phase: IndexPhase::ListingSource,
            next: 0,
        }
    }

    /// The state that creates the first index at or after `i`, or ends the
    /// migration where there is none.
    pub open spec fn creating_from(self, i: int) -> Self {
        let j = next_create(self.decisions, i);
        if j < self.decisions.len() {
            IndexMigrationView { phase: IndexPhase::Creating, next: j as nat, ..self }
        } else {
            IndexMigrationView { phase: IndexPhase::Succeeded, next: 0, ..self }
        }
    }

    /// The state after the origin's indexes were listed.
    pub open spec fn after_source(self, source: Seq<Option<Seq<char>>>) -> Self {
        if self.phase == IndexPhase::ListingSource {
            IndexMigrationView {
                source,
                decisions: Seq::empty(),
                phase: IndexPhase::ListingTarget,
                next: 0,
            }
        } else {
            self
        }
    }

    /// The state after the destination's indexes were listed.
    pub open spec fn after_target(self, target: Seq<Option<Seq<char>>>) -> Self {
        if self.phase == IndexPhase::ListingTarget {
            IndexMigrationView {
                decisions: decisions_for(self.source, target),
                ..self
            }.creating_from(0)
        } else {
            self
        }
    }

    /// The state after the current step succeeded.
    pub open spec fn after_success(self) -> Self {
        if self.phase == IndexPhase::Creating {
            self.creating_from(self.next + 1int)
        } else {
            self
        }
    }

    /// The state after the current step failed.
    pub open spec fn after_failure(self) -> Self {
        if self.phase == IndexPhase::Succeeded || self.phase == IndexPhase::Failed {
            self
        } else {
            IndexMigrationView { phase: IndexPhase::Failed, next: 0, ..self }
        }
    }

    /// What the caller is to do in this state.
    pub open spec fn action(self) -> IndexAction {
        match self.phase {
            IndexPhase::ListingSource => IndexAction::ListSourceIndexes,
            IndexPhase::ListingTarget => IndexAction::ListTargetIndexes,
            IndexPhase::Creating => IndexAction::CreateIndex(self.next as usize),
            IndexPhase::Succeeded => IndexAction::Complete,
            IndexPhase::Failed => IndexAction::Abort,
        }
    }
}

/// The name under which an index is reported: its own, or `<unnamed>`.
pub fn index_display_name(name: &Option<String>) -> (n: String)
    ensures
        n@ == display_name(name.deep_view()),
{
    match name {
        Some(n) => n.clone(),
        None => "<unnamed>".to_owned(),
    }
}

/// Whether one of `names` is present and equal to `name`.
fn has_name(names: &Vec<Option<String>>, name: &str) -> (found: bool)
    ensures
        found == names.deep_view().contains(Some(name@)),
{
    let mut i: usize = 0;
    while i < names.len()
        invariant
            i <= names.len(),
            forall|k: int| 0 <= k < i ==> names.deep_view()[k] != Some(name@),
        decreases names.len() - i,
    {
        match &names[i] {
            Some(n) => {
                if str_eq(n.as_str(), name) {
                    assert(names.deep_view()[i as int] == Some(name@));
                    return true;
                }
            },
            None => {},
        }
        i = i + 1;
    }
    false
}

/// What becomes of an origin index of this name.
pub fn decide_index(name: &Option<String>, target: &Vec<Option<String>>) -> (d: IndexDecision)
    ensures
        d == decide(name.deep_view(), target.deep_view()),
{
    let n = index_display_name(name);
    if str_eq(n.as_str(), "_id_") {
        IndexDecision::SkipDefault
    } else if has_name(target, n.as_str()) {
        IndexDecision::SkipExisting
    } else {
        IndexDecision::Create
    }
}

/// What becomes of each origin index, given the destination's index names.
pub fn plan_indices(source: &Vec<Option<String>>, target: &Vec<Option<String>>) -> (d: Vec<
    IndexDecision,
>)
    ensures
        d@ == decisions_for(source.deep_view(), target.deep_view()),
{
    let mut d: Vec<IndexDecision> = Vec::new();
    let mut i: usize = 0;
    while i < source.len()
        invariant
            i <= source.len(),
            d@.len() == i,
            forall|k: int|
                0 <= k < i ==> d@[k] == decide(source.deep_view()[k], target.deep_view()),
        decreases source.len() - i,
    {
        let x = decide_index(&source[i], target);
        d.push(x);
        i = i + 1;
    }
    assert(d@ =~= decisions_for(source.deep_view(), target.deep_view()));
    d
}

/// The first position at or after `i` whose index is to be created, or the
/// length of `d` where there is none.
fn find_next_create(d: &Vec<IndexDecision>, i: usize) -> (j: usize)
    ensures
        j == next_create(d@, i as int),
{
    let mut j = i;
    while j < d.len() && d[j] != IndexDecision::Create
        invariant
            i <= j,
            next_create(d@, i as int) == next_create(d@, j as int),
        decreases d.len() - j,
    {
        j = j + 1;
    }
    if j < d.len() {
        j
    } else {
        d.len()
    }
}

proof fn lemma_next_create_bounds(d: Seq<IndexDecision>, i: int)
    ensures
        next_create(d, i) <= d.len(),
        next_create(d, i) < d.len() ==> d[next_create(d, i)] == IndexDecision::Create,
        0 <= i <= d.len() ==> i <= next_create(d, i),
    decreases d.len() - i,
{
    if 0 <= i < d.len() && d[i] != IndexDecision::Create {
        lemma_next_create_bounds(d, i + 1);
    }
}

impl IndexMigration {
    #[verifier::type_invariant]
    spec fn wf(self) -> bool {
        self.phase == IndexPhase::Creating ==> self.next < self.decisions.len()
    }

    /// Starts a migration of indexes.
    pub fn new() -> (m: Self)
        ensures
            m@ == IndexMigrationView::start(),
    {
        let d: Vec<IndexDecision> = Vec::new();
        proof {
            assert(d@ =~= Seq::<IndexDecision>::empty());
        }
        let none: Vec<Option<String>> = Vec::new();
        proof {
            assert(none.deep_view() =~= Seq::<Option<Seq<char>>>::empty());
        }
        IndexMigration { source: none, decisions: d, phase: IndexPhase::ListingSource, next: 0 }
    }

    /// What the caller is to do next.
    pub fn next_action(&self) -> (action: IndexAction)
        ensures
            action == self@.action(),
    {
        match self.phase {
            IndexPhase::ListingSource => IndexAction::ListSourceIndexes,
            IndexPhase::ListingTarget => IndexAction::ListTargetIndexes,
            IndexPhase::Creating => IndexAction::CreateIndex(self.next),
            IndexPhase::Succeeded => IndexAction::Complete,
            IndexPhase::Failed => IndexAction::Abort,
        }
    }

    /// What becomes of each origin index, once both lists are known.
    pub fn decisions(&self) -> (d: &Vec<IndexDecision>)
        ensures
            d@ == self@.decisions,
    {
        &self.decisions
    }

    fn create_from(&mut self, i: usize)
        requires
            i <= old(self).decisions.len(),
        ensures
            final(self)@ == old(self)@.creating_from(i as int),
    {
        proof {
            use_type_invariant(&*self);
        }
        let j = find_next_create(&self.decisions, i);
        proof {
            lemma_next_create_bounds(self.decisions@, i as int);
        }
        if j < self.decisions.len() {
            self.next = j;
            self.phase = IndexPhase::Creating;
        } else {
            self.next = 0;
            self.phase = IndexPhase::Succeeded;
        }
    }

    /// Hands back the names of the origin's indexes, in the origin's order
    /// (`None` for an index without a name).
    pub fn on_source_listed(&mut self, source: Vec<Option<String>>)
        ensures
            final(self)@ == old(self)@.after_source(source.deep_view()),
    {
        if self.phase == IndexPhase::ListingSource {
            let d: Vec<IndexDecision> = Vec::new();
            proof {
                assert(d@ =~= Seq::<IndexDecision>::empty());
            }
            self.source = source;
            self.decisions = d;
            self.next = 0;
            self.phase = IndexPhase::ListingTarget;
        }
    }

    /// Hands back the names of the destination's indexes (`None` for an
    /// index without a name).
    pub fn on_target_listed(&mut self, target: &Vec<Option<String>>)
        ensures
            final(self)@ == old(self)@.after_target(target.deep_view()),
    {
        if self.phase == IndexPhase::ListingTarget {
            let d = plan_indices(&self.source, target);
            self.decisions = d;
            self.create_from(0);
        }
    }

    /// Reports that the current step succeeded.
    pub fn on_success(&mut self)
        ensures
            final(self)@ == old(self)@.after_success(),
    {
        proof {
            use_type_invariant(&*self);
        }
        if self.phase == IndexPhase::Creating {
            self.create_from(self.next + 1);
        }
    }

    /// Reports that the current step failed.
    pub fn on_failure(&mut self)
        ensures
            final(self)@ == old(self)@.after_failure(),
    {
        proof {
            use_type_invariant(&*self);
        }
        match self.phase {
            IndexPhase::Succeeded | IndexPhase::Failed => {},
            _ => {
                self.next = 0;
                self.phase = IndexPhase::Failed;
            },
        }
    }
}

} // verus!

verus! {

/// The positions at or after `i` whose index is to be created, in order.
pub open spec fn creates_from(d: Seq<IndexDecision>, i: int) -> Seq<nat>
    decreases d.len() - i,
{
    if i < 0 || i >= d.len() {
        Seq::empty()
    } else if d[i] == IndexDecision::Create {
        seq![i as nat] + creates_from(d, i + 1)
    } else {
        creates_from(d, i + 1)
    }
}

/// The actions asked for in `n` steps from `v` when every step succeeds.
pub open spec fn index_actions_on_success(v: IndexMigrationView, n: nat) -> Seq<IndexAction>
    decreases n,
{
    if n == 0 {
        Seq::empty()
    } else {
        seq![v.action()] + index_actions_on_success(v.after_success(), (n - 1) as nat)
    }
}

proof fn lemma_creates_skip(d: Seq<IndexDecision>, i: int)
    requires
        0 <= i <= d.len(),
    ensures
        creates_from(d, i) == creates_from(d, next_create(d, i)),
    decreases d.len() - i,
{
    if i < d.len() && d[i] != IndexDecision::Create {
        lemma_creates_skip(d, i + 1);
    }
}

proof fn lemma_creating_from_run(v: IndexMigrationView, i: int)
    requires
        0 <= i <= v.decisions.len(),
    ensures
        index_actions_on_success(v.creating_from(i), creates_from(v.decisions, i).len() + 1)
            == creates_from(v.decisions, i).map_values(|p: nat| IndexAction::CreateIndex(p as usize))
            + seq![IndexAction::Complete],
    decreases v.decisions.len() - i,
{
    let d = v.decisions;
    let j = next_create(d, i);
    lemma_next_create_bounds(d, i);
    lemma_creates_skip(d, i);
    let w = v.creating_from(i);
    if j < d.len() {
        lemma_creating_from_run(v, j + 1);
        let rest = creates_from(d, j + 1);
        assert(creates_from(d, j) == seq![j as nat] + rest);
        assert(w.after_success() == v.creating_from(j + 1));
        assert(index_actions_on_success(w, rest.len() + 2) == seq![w.action()]
            + index_actions_on_success(w.after_success(), rest.len() + 1));
        assert((seq![j as nat] + rest).map_values(|p: nat| IndexAction::CreateIndex(p as usize))
            =~= seq![IndexAction::CreateIndex(j as usize)] + rest.map_values(
            |p: nat| IndexAction::CreateIndex(p as usize),
        ));
        assert(seq![IndexAction::CreateIndex(j as usize)] + (rest.map_values(
            |p: nat| IndexAction::CreateIndex(p as usize),
        ) + seq![IndexAction::Complete]) =~= seq![IndexAction::CreateIndex(j as usize)]
            + rest.map_values(|p: nat| IndexAction::CreateIndex(p as usize)) + seq![
            IndexAction::Complete,
        ]);
    } else {
        assert(creates_from(d, j) =~= Seq::<nat>::empty());
        assert(index_actions_on_success(w.after_success(), 0) =~= Seq::<IndexAction>::empty());
        assert(index_actions_on_success(w, 1) =~= seq![IndexAction::Complete]);
        assert(Seq::<nat>::empty().map_values(|p: nat| IndexAction::CreateIndex(p as usize))
            + seq![IndexAction::Complete] =~= seq![IndexAction::Complete]);
    }
}

/// A migration of indexes whose every step succeeds asks, once both lists
/// of indexes are known, for the creation of exactly the origin indexes
/// that are to be created, in origin order, and then nothing more, the
/// migration being complete.
pub proof fn lemma_successful_index_migration(
    source: Seq<Option<Seq<char>>>,
    target: Seq<Option<Seq<char>>>,
)
    ensures
        ({
            let v = IndexMigrationView::start().after_source(source).after_target(target);
            let creates = creates_from(decisions_for(source, target), 0);
            index_actions_on_success(v, creates.len() + 1) == creates.map_values(
                |p: nat| IndexAction::CreateIndex(p as usize),
            ) + seq![IndexAction::Complete]
        }),
{
    let u = IndexMigrationView {
        source,
        decisions: decisions_for(source, target),
        phase: IndexPhase::ListingTarget,
        next: 0,
    };
    assert(IndexMigrationView::start().after_source(source).after_target(target) == u.creating_from(0));
    lemma_creating_from_run(u, 0);
}

/// An origin index is created exactly where it is neither the default
/// `_id_` index nor of a name that an index of the destination has; an index
/// without a name goes by `<unnamed>`.
pub proof fn lemma_index_created_iff(
    source: Seq<Option<Seq<char>>>,
    target: Seq<Option<Seq<char>>>,
    i: int,
)
    requires
        0 <= i < source.len(),
    ensures
        (decisions_for(source, target)[i] == IndexDecision::Create) <==> (display_name(source[i])
            != "_id_"@ && !target.contains(Some(display_name(source[i])))),
        (decisions_for(source, target)[i] == IndexDecision::SkipDefault) <==> display_name(
            source[i],
        ) == "_id_"@,
{
}

/// The positions whose index is created are exactly those decided for
/// creation, each once, in increasing order.
pub proof fn lemma_creates_are_the_create_decisions(d: Seq<IndexDecision>, i: int)
    requires
        0 <= i <= d.len(),
    ensures
        forall|p: nat| #[trigger] creates_from(d, i).contains(p) <==> (i <= p < d.len() && d[p as int]
            == IndexDecision::Create),
        forall|a: int, b: int|
            0 <= a < b < creates_from(d, i).len() ==> creates_from(d, i)[a] < creates_from(d, i)[b],
    decreases d.len() - i,
{
    if i < d.len() {
        lemma_creates_are_the_create_decisions(d, i + 1);
        let rest = creates_from(d, i + 1);
        if d[i] == IndexDecision::Create {
            let all = seq![i as nat] + rest;
            assert(creates_from(d, i) == all);
            assert forall|p: nat| #[trigger] all.contains(p) <==> (i <= p < d.len() && d[p as int]
                == IndexDecision::Create) by {
                if all.contains(p) && p != i {
                    let k = choose|k: int| 0 <= k < all.len() && all[k] == p;
                    assert(k > 0);
                    assert(rest[k - 1] == p);
                    assert(rest.contains(p));
                }
                if i < p < d.len() && d[p as int] == IndexDecision::Create {
                    assert(rest.contains(p));
                    let k = choose|k: int| 0 <= k < rest.len() && rest[k] == p;
                    assert(all[k + 1] == p);
                }
                if p == i {
                    assert(all[0] == p);
                }
            }
            assert forall|a: int, b: int| 0 <= a < b < all.len() implies all[a] < all[b] by {
                if a > 0 {
                    assert(all[a] == rest[a - 1]);
                }
                assert(all[b] == rest[b - 1]);
                assert(rest.contains(rest[b - 1]));
            }
        }
    } else {
        assert(creates_from(d, i) =~= Seq::<nat>::empty());
    }
}

/// A failed migration of indexes stays failed and asks for nothing but to
/// end with its failure, whatever is reported next.
pub proof fn lemma_index_failure_is_final(
    v: IndexMigrationView,
    source: Seq<Option<Seq<char>>>,
    target: Seq<Option<Seq<char>>>,
)
    requires
        v.phase == IndexPhase::Failed,
    ensures
        v.action() == IndexAction::Abort,
        v.after_success() == v,
        v.after_failure() == v,
        v.after_source(source) == v,
        v.after_target(target) == v,
{
}

} // verus!

verus! {

/// An index with a name is reported and compared under exactly that name;
/// one without goes by `<unnamed>`.
pub proof fn lemma_display_name(n: Seq<char>)
    ensures
        display_name(Some(n)) == n,
        display_name(None) == "<unnamed>"@,
{
}

/// An origin index of a name that the destination already has is never
/// created; one of another name is created unless it is `_id_`.
pub proof fn lemma_existing_index_is_not_created(n: Seq<char>, target: Seq<Option<Seq<char>>>)
    ensures
        target.contains(Some(n)) ==> decide(Some(n), target) != IndexDecision::Create,
        (decide(Some(n), target) == IndexDecision::Create) <==> (n != "_id_"@ && !target.contains(
            Some(n),
        )),
        (decide(None, target) == IndexDecision::Create) <==> !target.contains(Some("<unnamed>"@)),
{
    reveal_strlit("<unnamed>");
    reveal_strlit("_id_");
    assert("<unnamed>"@ != "_id_"@) by {
        assert("<unnamed>"@.len() != "_id_"@.len());
    }
}

} // verus!
