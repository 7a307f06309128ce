//! The migration of a database's collections: the collections that the
//! destination lacks are created first, then every collection's migration is
//! started, then each started migration is awaited, in order. The first step
//! that fails ends the migration with that failure.
use vstd::prelude::*;

verus! {

/// Where a migration of collections stands.
#[derive(Clone, Copy, Debug, PartialEq, Eq, Structural)]
pub enum CollectionPhase {
    /// The destination's collections are to be listed.
    ListingTargets,
    /// The missing collections are being created.
    Creating,
    /// The migrations of the collections are being started.
    Spawning,
    /// The started migrations are being awaited.
    Joining,
    /// Every step succeeded.
    Succeeded,
    /// A step failed.
    Failed,
}

/// What the caller is to do next.
#[derive(Clone, Debug, PartialEq, Eq)]
pub enum CollectionAction {
    /// List the names of the destination database's collections.
    ListTargetCollections,
    /// Create the collection of this name in the destination database.
    CreateCollection(String),
    /// Start the migration of this collection.
    SpawnCollectionTask { collection: String, migrate_indices: bool, in_memory: bool },
    /// Await the migration started at this position (counted from 0).
    AwaitCollectionTask(usize),
    /// The migration is done.
    Complete,
    /// The migration ends with the failure of the last step.
    Abort,
}

/// A `CollectionAction` as plain values.
pub enum CollectionActionView {
    ListTargetCollections,
    CreateCollection(Seq<char>),
    SpawnCollectionTask { collection: Seq<char>, migrate_indices: bool, in_memory: bool },
    AwaitCollectionTask(nat),
    Complete,
    Abort,
}

impl View for CollectionAction {
    type V = CollectionActionView;

    open spec fn view(&self) -> CollectionActionView {
        match self {
            CollectionAction::ListTargetCollections => CollectionActionView::ListTargetCollections,
            CollectionAction::CreateCollection(name) => CollectionActionView::CreateCollection(
                name@,
            ),
            CollectionAction::SpawnCollectionTask { collection, migrate_indices, in_memory } =>
                CollectionActionView::SpawnCollectionTask {
                collection: collection@,
                migrate_indices: *migrate_indices,
                in_memory: *in_memory,
            },
            CollectionAction::AwaitCollectionTask(i) => CollectionActionView::AwaitCollectionTask(
                *i as nat,
            ),
            CollectionAction::Complete => CollectionActionView::Complete,
            CollectionAction::Abort => CollectionActionView::Abort,
        }
    }
}

/// The state of a migration of collections.
pub struct CollectionMigration {
    origin_db: String,
    destination_db: String,
    origin_collections: Vec<String>,
    migrate_indices: bool,
    in_memory: bool,
    to_create: Vec<String>,
    phase: CollectionPhase,
    next: usize,
}

/// A `CollectionMigration` as plain values.
pub struct CollectionMigrationView {
    /// The name of the database that the collections are read from.
    pub origin_db: Seq<char>,
    /// The name of the database that the collections are written to.
    pub destination_db: Seq<char>,
    pub origin_collections: Seq<Seq<char>>,
    pub migrate_indices: bool,
    pub in_memory: bool,
    pub to_create: Seq<Seq<char>>,
    pub phase: CollectionPhase,
    pub next: nat,
}

impl View for CollectionMigration {
    type V = CollectionMigrationView;

    closed spec fn view(&self) -> CollectionMigrationView {
        CollectionMigrationView {
            origin_db: self.origin_db@,
            destination_db: self.destination_db@,
            origin_collections: self.origin_collections.deep_view(),
            migrate_indices: self.migrate_indices,
            in_memory: self.in_memory,
            to_create: self.to_create.deep_view(),
            phase: self.phase,
            next: self.next as nat,
        }
    }
}

/// The origin collections that the destination lacks, in origin order.
pub open spec fn missing_collections(origin: Seq<Seq<char>>, targets: Seq<Seq<char>>) -> Seq<
    Seq<char>,
> {
    origin.filter(|c: Seq<char>| !targets.contains(c))
}

impl CollectionMigrationView {
    /// The state in which a migration of these collections, from the origin
    /// database `origin_db` to the destination database `destination_db`,
    /// starts.
    pub open spec fn start(
        origin_db: Seq<char>,
        destination_db: Seq<char>,
        origin: Seq<Seq<char>>,
        migrate_indices: bool,
        in_memory: bool,
    ) -> Self {
        CollectionMigrationView {
            origin_db,
            destination_db,
            origin_collections: origin,
            migrate_indices,
            in_memory,
            to_create: Seq::empty(),
            phase: CollectionPhase::ListingTargets,
            next: 0,
        }
    }

    /// The state that starts the migrations of the collections, or ends the
    /// migration where there is none.
    pub open spec fn spawning(self) -> Self {
        if self.origin_collections.len() > 0 {
            CollectionMigrationView { phase: CollectionPhase::Spawning, next: 0, ..self }
        } else {
            CollectionMigrationView { phase: CollectionPhase::Succeeded, next: 0, ..self }
        }
    }

    /// The state after the destination's collections were listed.
    pub open spec fn after_targets(self, targets: Seq<Seq<char>>) -> Self {
        if self.phase == CollectionPhase::ListingTargets {
            let missing = missing_collections(self.origin_collections, targets);
            let v = CollectionMigrationView { to_create: missing, ..self };
            if missing.len() > 0 {
                CollectionMigrationView { phase: CollectionPhase::Creating, next: 0, ..v }
            } else {
                v.spawning()
            }
        } else {
            self
        }
    }

    /// The state after the current step succeeded.
    pub open spec fn after_success(self) -> Self {
        match self.phase {
            CollectionPhase::Creating => {
                if self.next + 1 < self.to_create.len() {
                    CollectionMigrationView { next: self.next + 1, ..self }
                } else {
                    self.spawning()
                }
            },
            CollectionPhase::Spawning => {
                if self.next + 1 < self.origin_collections.len() {
                    CollectionMigrationView { next: self.next + 1, ..self }
                } else {
                    CollectionMigrationView { phase: CollectionPhase::Joining, next: 0, ..self }
                }
            },
            CollectionPhase::Joining => {
                if self.next + 1 < self.origin_collections.len() {
                    CollectionMigrationView { next: self.next + 1, ..self }
                } else {
                    CollectionMigrationView { phase: CollectionPhase::Succeeded, next: 0, ..self }
                }
            },
            _ => self,
        }
    }

    /// Whether the migration has ended.
    pub open spec fn is_finished(self) -> bool {
        self.phase == CollectionPhase::Succeeded || self.phase == CollectionPhase::Failed
    }

    /// The state after the current step failed.
    pub open spec fn after_failure(self) -> Self {
        if self.is_finished() {
            self
        } else {
            CollectionMigrationView { phase: CollectionPhase::Failed, next: 0, ..self }
        }
    }

    /// What the caller is to do in this state.
    pub open spec fn action(self) -> CollectionActionView {
        match self.phase {
            CollectionPhase::ListingTargets => CollectionActionView::ListTargetCollections,
            CollectionPhase::Creating => CollectionActionView::CreateCollection(
                self.to_create[self.next as int],
            ),
            CollectionPhase::Spawning => CollectionActionView::SpawnCollectionTask {
                collection: self.origin_collections[self.next as int],
                migrate_indices: self.migrate_indices,
                in_memory: self.in_memory,
            },
            CollectionPhase::Joining => CollectionActionView::AwaitCollectionTask(self.next),
            CollectionPhase::Succeeded => CollectionActionView::Complete,
            CollectionPhase::Failed => CollectionActionView::Abort,
        }
    }
}

/// Whether a list of names holds `name`.
pub fn contains_name(names: &Vec<String>, name: &String) -> (found: bool)
    ensures
        found == names.deep_view().contains(name@),
{
    let mut i: usize = 0;
    while i < names.len()
        invariant
            i <= names.len(),
            forall|k: int| 0 <= k < i ==> names.deep_view()[k] != name@,
        decreases names.len() - i,
    {
        if names[i] == *name {
            assert(names.deep_view()[i as int] == name@);
            return true;
        }
        i = i + 1;
    }
    false
}

/// The origin collections that the destination lacks, in origin order.
pub fn collections_to_create(origin: &Vec<String>, targets: &Vec<String>) -> (missing: Vec<String>)
    ensures
        missing.deep_view() == missing_collections(origin.deep_view(), targets.deep_view()),
{
    let ghost pred = |c: Seq<char>| !targets.deep_view().contains(c);
    let mut missing: Vec<String> = Vec::new();
    let mut i: usize = 0;
    proof {
        assert(origin.deep_view().take(0) =~= Seq::<Seq<char>>::empty());
        reveal_with_fuel(Seq::<_>::filter, 1);
        assert(missing.deep_view() =~= Seq::<Seq<char>>::empty());
    }
    while i < origin.len()
        invariant
            i <= origin.len(),
            pred == (|c: Seq<char>| !targets.deep_view().contains(c)),
            missing.deep_view() == origin.deep_view().take(i as int).filter(pred),
        decreases origin.len() - i,
    {
        let ghost before = missing.deep_view();
        proof {
            reveal_with_fuel(Seq::<_>::filter, 1);
            assert(origin.deep_view().take(i + 1).drop_last() =~= origin.deep_view().take(
                i as int,
            ));
            assert(origin.deep_view().take(i + 1).last() == origin[i as int]@);
        }
        if !contains_name(targets, &origin[i]) {
            missing.push(origin[i].clone());
            proof {
                assert(missing.deep_view() =~= before.push(origin[i as int]@));
            }
        }
        i = i + 1;
    }
    proof {
        assert(origin.deep_view().take(origin.len() as int) =~= origin.deep_view());
    }
    missing
}

impl CollectionMigration {
    #[verifier::type_invariant]
    spec fn wf(self) -> bool {
        &&& self.phase == CollectionPhase::Creating ==> self.next < self.to_create.len()
        &&& self.phase == CollectionPhase::Spawning ==> self.next < self.origin_collections.len()
        &&& self.phase == CollectionPhase::Joining ==> self.next < self.origin_collections.len()
    }

    /// Starts the migration of these collections from the origin database of
    /// name `origin_db` to the destination database of name `destination_db`.
    pub fn new(
        origin_db: String,
        destination_db: String,
        origin_collections: Vec<String>,
        migrate_indices: bool,
        in_memory: bool,
    ) -> (m: Self)
        ensures
            m@ == CollectionMigrationView::start(
                origin_db@,
                destination_db@,
                origin_collections.deep_view(),
                migrate_indices,
                in_memory,
            ),
    {
        let none: Vec<String> = Vec::new();
        proof {
            assert(none.deep_view() =~= Seq::<Seq<char>>::empty());
        }
        CollectionMigration {
            origin_db,
            destination_db,
            origin_collections,
            migrate_indices,
            in_memory,
            to_create: none,
            phase: CollectionPhase::ListingTargets,
            next: 0,
        }
    }

    /// The name of the database that the collections are read from.
    pub fn origin_db(&self) -> (name: &String)
        ensures
            name@ == self@.origin_db,
    {
        &self.origin_db
    }

    /// The name of the database that the collections are written to: the
    /// one whose collections are listed and created.
    pub fn destination_db(&self) -> (name: &String)
        ensures
            name@ == self@.destination_db,
    {
        &self.destination_db
    }

    /// What the caller is to do next.
    pub fn next_action(&self) -> (action: CollectionAction)
        ensures
            action@ == self@.action(),
    {
        proof {
            use_type_invariant(self);
        }
        match self.phase {
            CollectionPhase::ListingTargets => CollectionAction::ListTargetCollections,
            CollectionPhase::Creating => CollectionAction::CreateCollection(
                self.to_create[self.next].clone(),
            ),
            CollectionPhase::Spawning => CollectionAction::SpawnCollectionTask {
                collection: self.origin_collections[self.next].clone(),
                migrate_indices: self.migrate_indices,
                in_memory: self.in_memory,
            },
            CollectionPhase::Joining => CollectionAction::AwaitCollectionTask(self.next),
            CollectionPhase::Succeeded => CollectionAction::Complete,
            CollectionPhase::Failed => CollectionAction::Abort,
        }
    }

    /// Hands back the names of the destination database's collections.
    pub fn on_targets_listed(&mut self, targets: Vec<String>)
        ensures
            final(self)@ == old(self)@.after_targets(targets.deep_view()),
    {
        if self.phase == CollectionPhase::ListingTargets {
            let missing = collections_to_create(&self.origin_collections, &targets);
            if missing.len() > 0 {
                self.to_create = missing;
                self.next = 0;
                self.phase = CollectionPhase::Creating;
            } else {
                self.to_create = missing;
                self.start_spawning();
            }
        }
    }

    fn start_spawning(&mut self)
        ensures
            final(self)@ == old(self)@.spawning(),
    {
        proof {
            use_type_invariant(&*self);
        }
        self.next = 0;
        if self.origin_collections.len() > 0 {
            self.phase = CollectionPhase::Spawning;
        } else {
            self.phase = CollectionPhase::Succeeded;
        }
    }

    /// Reports that the current step succeeded.
    pub fn on_success(&mut self)
        ensures
            final(self)@ == old(self)@.after_success(),
    {
        proof {
            use_type_invariant(&*self);
        }
        match self.phase {
            CollectionPhase::Creating => {
                if self.next + 1 < self.to_create.len() {
                    self.next = self.next + 1;
                } else {
                    self.start_spawning();
                }
            },
            CollectionPhase::Spawning => {
                if self.next + 1 < self.origin_collections.len() {
                    self.next = self.next + 1;
                } else {
                    self.next = 0;
                    self.phase = CollectionPhase::Joining;
                }
            },
            CollectionPhase::Joining => {
                if self.next + 1 < self.origin_collections.len() {
                    self.next = self.next + 1;
                } else {
                    self.next = 0;
                    self.phase = CollectionPhase::Succeeded;
                }
            },
            _ => {},
        }
    }

    /// Reports that the current step failed.
    pub fn on_failure(&mut self)
        ensures
            final(self)@ == old(self)@.after_failure(),
    {
        match self.phase {
            CollectionPhase::Succeeded | CollectionPhase::Failed => {},
            _ => {
                self.phase = CollectionPhase::Failed;
                self.next = 0;
            },
        }
    }
}

} // verus!

verus! {

/// The actions asked for in `n` steps from `v` when every step succeeds.
pub open spec fn actions_on_success(v: CollectionMigrationView, n: nat) -> Seq<
    CollectionActionView,
>
    decreases n,
{
    if n == 0 {
        Seq::empty()
    } else {
        seq![v.action()] + actions_on_success(v.after_success(), (n - 1) as nat)
    }
}

/// The state `n` steps after `v` when every step succeeds.
pub open spec fn state_on_success(v: CollectionMigrationView, n: nat) -> CollectionMigrationView
    decreases n,
{
    if n == 0 {
        v
    } else {
        state_on_success(v.after_success(), (n - 1) as nat)
    }
}

/// The action that creates a collection.
pub open spec fn create_action(c: Seq<char>) -> CollectionActionView {
    CollectionActionView::CreateCollection(c)
}

proof fn lemma_run_split(v: CollectionMigrationView, a: nat, b: nat)
    ensures
        actions_on_success(v, a + b) == actions_on_success(v, a) + actions_on_success(
            state_on_success(v, a),
            b,
        ),
        state_on_success(v, a + b) == state_on_success(state_on_success(v, a), b),
    decreases a,
{
    if a == 0 {
        assert(actions_on_success(v, 0) =~= Seq::<CollectionActionView>::empty());
        assert(Seq::<CollectionActionView>::empty() + actions_on_success(v, b) =~= actions_on_success(v, b));
    } else {
        lemma_run_split(v.after_success(), (a - 1) as nat, b);
        assert((a + b - 1) as nat == (a - 1) as nat + b);
        assert(seq![v.action()] + (actions_on_success(v.after_success(), (a - 1) as nat)
            + actions_on_success(state_on_success(v.after_success(), (a - 1) as nat), b))
            =~= (seq![v.action()] + actions_on_success(v.after_success(), (a - 1) as nat))
            + actions_on_success(state_on_success(v.after_success(), (a - 1) as nat), b));
    }
}

proof fn lemma_one_step(v: CollectionMigrationView)
    ensures
        actions_on_success(v, 1) == seq![v.action()],
        state_on_success(v, 1) == v.after_success(),
{
    assert(actions_on_success(v.after_success(), 0) =~= Seq::<CollectionActionView>::empty());
    assert(seq![v.action()] + Seq::<CollectionActionView>::empty() =~= seq![v.action()]);
    assert(state_on_success(v.after_success(), 0) == v.after_success());
}

proof fn lemma_creating_run(v: CollectionMigrationView)
    requires
        v.phase == CollectionPhase::Creating,
        v.next < v.to_create.len(),
    ensures
        actions_on_success(v, (v.to_create.len() - v.next) as nat) == v.to_create.subrange(
            v.next as int,
            v.to_create.len() as int,
        ).map_values(|c: Seq<char>| create_action(c)),
        state_on_success(v, (v.to_create.len() - v.next) as nat) == v.spawning(),
    decreases v.to_create.len() - v.next,
{
    let len = v.to_create.len();
    let n = (len - v.next) as nat;
    lemma_one_step(v);
    lemma_run_split(v, 1, (n - 1) as nat);
    if v.next + 1 < len {
        let w = v.after_success();
        lemma_creating_run(w);
        assert(w.spawning() == v.spawning());
        assert(v.to_create.subrange(v.next as int, len as int).map_values(
            |c: Seq<char>| create_action(c),
        ) =~= seq![create_action(v.to_create[v.next as int])] + w.to_create.subrange(
            w.next as int,
            len as int,
        ).map_values(|c: Seq<char>| create_action(c)));
    } else {
        assert(actions_on_success(v.after_success(), 0) =~= Seq::<CollectionActionView>::empty());
        assert(v.to_create.subrange(v.next as int, len as int).map_values(
            |c: Seq<char>| create_action(c),
        ) =~= seq![create_action(v.to_create[v.next as int])]);
    }
}

/// The action that starts the migration of a collection.
pub open spec fn spawn_action(c: Seq<char>, migrate_indices: bool, in_memory: bool) -> CollectionActionView {
    CollectionActionView::SpawnCollectionTask { collection: c, migrate_indices, in_memory }
}

proof fn lemma_spawning_run(v: CollectionMigrationView)
    requires
        v.phase == CollectionPhase::Spawning,
        v.next < v.origin_collections.len(),
    ensures
        actions_on_success(v, (v.origin_collections.len() - v.next) as nat)
            == v.origin_collections.subrange(
            v.next as int,
            v.origin_collections.len() as int,
        ).map_values(|c: Seq<char>| spawn_action(c, v.migrate_indices, v.in_memory)),
        state_on_success(v, (v.origin_collections.len() - v.next) as nat) == (
        CollectionMigrationView { phase: CollectionPhase::Joining, next: 0, ..v }),
    decreases v.origin_collections.len() - v.next,
{
    let len = v.origin_collections.len();
    let n = (len - v.next) as nat;
    lemma_one_step(v);
    lemma_run_split(v, 1, (n - 1) as nat);
    if v.next + 1 < len {
        let w = v.after_success();
        lemma_spawning_run(w);
        assert(v.origin_collections.subrange(v.next as int, len as int).map_values(
            |c: Seq<char>| spawn_action(c, v.migrate_indices, v.in_memory),
        ) =~= seq![spawn_action(v.origin_collections[v.next as int], v.migrate_indices, v.in_memory)]
            + w.origin_collections.subrange(w.next as int, len as int).map_values(
            |c: Seq<char>| spawn_action(c, w.migrate_indices, w.in_memory),
        ));
    } else {
        assert(actions_on_success(v.after_success(), 0) =~= Seq::<CollectionActionView>::empty());
        assert(v.origin_collections.subrange(v.next as int, len as int).map_values(
            |c: Seq<char>| spawn_action(c, v.migrate_indices, v.in_memory),
        ) =~= seq![spawn_action(v.origin_collections[v.next as int], v.migrate_indices, v.in_memory)]);
    }
}

/// The actions that await the started migrations from position `i` on.
pub open spec fn await_actions(from: nat, count: nat) -> Seq<CollectionActionView> {
    Seq::new(count, |j: int| CollectionActionView::AwaitCollectionTask((from + j) as nat))
}

proof fn lemma_joining_run(v: CollectionMigrationView)
    requires
        v.phase == CollectionPhase::Joining,
        v.next < v.origin_collections.len(),
    ensures
        actions_on_success(v, (v.origin_collections.len() - v.next) as nat) == await_actions(
            v.next,
            (v.origin_collections.len() - v.next) as nat,
        ),
        state_on_success(v, (v.origin_collections.len() - v.next) as nat) == (
        CollectionMigrationView { phase: CollectionPhase::Succeeded, next: 0, ..v }),
    decreases v.origin_collections.len() - v.next,
{
    let len = v.origin_collections.len();
    let n = (len - v.next) as nat;
    lemma_one_step(v);
    lemma_run_split(v, 1, (n - 1) as nat);
    if v.next + 1 < len {
        let w = v.after_success();
        lemma_joining_run(w);
        assert(await_actions(v.next, n) =~= seq![
            CollectionActionView::AwaitCollectionTask(v.next),
        ] + await_actions(w.next, (n - 1) as nat));
    } else {
        assert(actions_on_success(v.after_success(), 0) =~= Seq::<CollectionActionView>::empty());
        assert(await_actions(v.next, n) =~= seq![CollectionActionView::AwaitCollectionTask(v.next)]);
    }
}

/// A migration of collections whose every step succeeds asks, once the
/// destination's collections are listed, for exactly this: the creation of
/// each origin collection that the destination lacks, in origin order; then
/// the start of the migration of every origin collection, in origin order;
/// then the awaiting of each started migration, in the order they were
/// started; then nothing more, the migration being complete.
pub proof fn lemma_successful_collection_migration(
    origin_db: Seq<char>,
    destination_db: Seq<char>,
    origin: Seq<Seq<char>>,
    targets: Seq<Seq<char>>,
    migrate_indices: bool,
    in_memory: bool,
)
    ensures
        ({
            let v = CollectionMigrationView::start(
                origin_db,
                destination_db,
                origin,
                migrate_indices,
                in_memory,
            ).after_targets(targets);
            let missing = missing_collections(origin, targets);
            actions_on_success(v, missing.len() + 2 * origin.len() + 1) == missing.map_values(
                |c: Seq<char>| create_action(c),
            ) + origin.map_values(|c: Seq<char>| spawn_action(c, migrate_indices, in_memory))
                + await_actions(0, origin.len()) + seq![CollectionActionView::Complete]
        }),
{
    let v0 = CollectionMigrationView::start(
        origin_db,
        destination_db,
        origin,
        migrate_indices,
        in_memory,
    );
    let v = v0.after_targets(targets);
    let missing = missing_collections(origin, targets);
    let m = missing.len();
    let k = origin.len();
    let creates = missing.map_values(|c: Seq<char>| create_action(c));
    let spawns = origin.map_values(|c: Seq<char>| spawn_action(c, migrate_indices, in_memory));
    let awaits = await_actions(0, k);
    origin.lemma_filter_len(|c: Seq<char>| !targets.contains(c));
    // The creations.
    let vs = v.spawning();
    if m > 0 {
        lemma_creating_run(v);
        assert(missing.subrange(0, m as int) =~= missing);
    } else {
        assert(actions_on_success(v, 0) =~= Seq::<CollectionActionView>::empty());
        assert(creates =~= Seq::<CollectionActionView>::empty());
        assert(v == vs);
    }
    assert(actions_on_success(v, m) == creates);
    assert(state_on_success(v, m) == vs);
    lemma_run_split(v, m, 2 * k + 1);
    if k > 0 {
        // The starts and the awaits.
        lemma_spawning_run(vs);
        assert(origin.subrange(0, k as int) =~= origin);
        let vj = CollectionMigrationView { phase: CollectionPhase::Joining, next: 0, ..vs };
        lemma_run_split(vs, k, k + 1);
        lemma_joining_run(vj);
        let vd = CollectionMigrationView { phase: CollectionPhase::Succeeded, next: 0, ..vj };
        lemma_run_split(vj, k, 1);
        lemma_one_step(vd);
        assert(actions_on_success(vs, 2 * k + 1) == spawns + (awaits + seq![
            CollectionActionView::Complete,
        ]));
        assert(creates + (spawns + (awaits + seq![CollectionActionView::Complete])) =~= creates
            + spawns + awaits + seq![CollectionActionView::Complete]);
    } else {
        lemma_one_step(vs);
        assert(spawns =~= Seq::<CollectionActionView>::empty());
        assert(awaits =~= Seq::<CollectionActionView>::empty());
        assert(creates + seq![CollectionActionView::Complete] =~= creates + spawns + awaits + seq![
            CollectionActionView::Complete,
        ]);
    }
}

/// A collection is created exactly where it is an origin collection that
/// the destination lacks.
pub proof fn lemma_created_iff_missing(
    origin: Seq<Seq<char>>,
    targets: Seq<Seq<char>>,
    c: Seq<char>,
)
    ensures
        missing_collections(origin, targets).contains(c) <==> (origin.contains(c)
            && !targets.contains(c)),
{
    let pred = |x: Seq<char>| !targets.contains(x);
    let missing = origin.filter(pred);
    if missing.contains(c) {
        let i = choose|i: int| 0 <= i < missing.len() && missing[i] == c;
        origin.lemma_filter_pred(pred, i);
        origin.lemma_filter_contains_rev(pred, c);
    }
    if origin.contains(c) && !targets.contains(c) {
        let i = choose|i: int| 0 <= i < origin.len() && origin[i] == c;
        origin.lemma_filter_contains(pred, i);
    }
}

/// A failed migration of collections stays failed and asks for nothing but
/// to end with its failure, whatever is reported next.
pub proof fn lemma_collection_failure_is_final(v: CollectionMigrationView, targets: Seq<Seq<char>>)
    requires
        v.phase == CollectionPhase::Failed,
    ensures
        v.action() == CollectionActionView::Abort,
        v.after_success() == v,
        v.after_failure() == v,
        v.after_targets(targets) == v,
{
}

/// A failure in any step before the end ends the migration with that
/// failure.
pub proof fn lemma_collection_failure_aborts(v: CollectionMigrationView)
    requires
        !v.is_finished(),
    ensures
        v.after_failure().action() == CollectionActionView::Abort,
{
}

} // verus!

verus! {

/// A migration of collections reads from the origin database and writes to
/// the destination database it was started with, with the collections and
/// settings it was started with; no report changes any of them.
pub proof fn lemma_migration_keeps_its_databases(
    origin_db: Seq<char>,
    destination_db: Seq<char>,
    origin: Seq<Seq<char>>,
    migrate_indices: bool,
    in_memory: bool,
    v: CollectionMigrationView,
    targets: Seq<Seq<char>>,
)
    ensures
        ({
            let s = CollectionMigrationView::start(
                origin_db,
                destination_db,
                origin,
                migrate_indices,
                in_memory,
            );
            &&& s.origin_db == origin_db
            &&& s.destination_db == destination_db
            &&& s.origin_collections == origin
            &&& s.migrate_indices == migrate_indices
            &&& s.in_memory == in_memory
            &&& s.action() == CollectionActionView::ListTargetCollections
        }),
        ({
            let w1 = v.after_targets(targets);
            let w2 = v.after_success();
            let w3 = v.after_failure();
            &&& w1.origin_db == v.origin_db && w1.destination_db == v.destination_db
            &&& w2.origin_db == v.origin_db && w2.destination_db == v.destination_db
            &&& w3.origin_db == v.origin_db && w3.destination_db == v.destination_db
            &&& w1.origin_collections == v.origin_collections
            &&& w2.origin_collections == v.origin_collections
            &&& w3.origin_collections == v.origin_collections
        }),
{
}

} // verus!
