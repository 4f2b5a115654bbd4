//! The bootstrap plan: which capability plugins the application
//! registers, in what order, with which database and migration, and
//! what startup does to the database state.

use vstd::prelude::*;
use vstd::string::StringExecFns;
use crate::migration::DbState;
use crate::migration::Migration;
use crate::migration::clipboard_migration;
use crate::migration::is_clipboard_migration;
use crate::migration::spec_apply_migration;
use crate::migration::apply_migration;
use crate::migration::db_well_formed;

verus! {

/// One of the opaque capability plugins the bootstrap registers.
#[derive(Debug, Clone, Copy, PartialEq, Eq, Structural)]
pub enum Capability {
    Persistence,
    Clipboard,
    GlobalShortcut,
    Opener,
}

/// Everything the bootstrap decides: whether a tray icon is built, the
/// plugin registration order, the database identifier, and the
/// migrations handed to the persistence plugin.
#[derive(Debug, Clone)]
pub struct BootstrapPlan {
    pub with_tray: bool,
    pub plugins: Vec<Capability>,
    pub database_url: String,
    pub migrations: Vec<Migration>,
}

/// The identifier of the one local database.
pub open spec fn database_url_spec() -> Seq<char> {
    "sqlite:clipboard.db"@
}

/// The plan this application always runs: the four capability plugins
/// in their fixed order, the one local database, and exactly the one
/// clipboard-history migration.
pub open spec fn plan_well_formed(p: BootstrapPlan) -> bool {
    &&& p.plugins@ == seq![
        Capability::Persistence,
        Capability::Clipboard,
        Capability::GlobalShortcut,
        Capability::Opener,
    ]
    &&& p.database_url@ == database_url_spec()
    &&& p.migrations@.len() == 1
    &&& is_clipboard_migration(p.migrations@[0])
}

/// Build the application's bootstrap plan. The schema DDL is an opaque
/// blob owned by the caller.
pub fn default_plan(sql: String) -> (p: BootstrapPlan)
    ensures
        plan_well_formed(p),
        p.with_tray,
        p.migrations@[0].sql == sql,
{
    let mut plugins: Vec<Capability> = Vec::new();
    plugins.push(Capability::Persistence);
    plugins.push(Capability::Clipboard);
    plugins.push(Capability::GlobalShortcut);
    plugins.push(Capability::Opener);
    let mut migrations: Vec<Migration> = Vec::new();
    migrations.push(clipboard_migration(sql));
    proof {
        assert(plugins@ =~= seq![
            Capability::Persistence,
            Capability::Clipboard,
            Capability::GlobalShortcut,
            Capability::Opener,
        ]);
    }
    BootstrapPlan {
        with_tray: true,
        plugins: plugins,
        database_url: String::from_str("sqlite:clipboard.db"),
        migrations: migrations,
    }
}

/// Opening the database creates the backing file if it is missing and
/// touches nothing else.
pub open spec fn spec_open_database(db: DbState) -> DbState {
    DbState { file_exists: true, ..db }
}

/// Connect to the database: the file exists afterwards, the schema is
/// untouched.
pub fn open_database(db: DbState) -> (r: DbState)
    ensures
        r == spec_open_database(db),
{
    DbState { file_exists: true, ..db }
}

/// What running a list of migrations in order does to the database.
pub open spec fn spec_run_migrations(db: DbState, ms: Seq<Migration>) -> DbState
    decreases ms.len(),
{
    if ms.len() == 0 {
        db
    } else {
        spec_run_migrations(spec_apply_migration(db, ms[0]), ms.skip(1))
    }
}

/// Startup as the persistence plugin sees it: open the database, then
/// run the plan's migrations in order. Under the application's plan the
/// clipboard-history table exists afterwards, and a database that was
/// already migrated is not migrated again.
pub fn startup(db: DbState, plan: &BootstrapPlan) -> (r: DbState)
    requires
        forall|i: int| 0 <= i < plan.migrations@.len() ==> plan.migrations@[i].version >= 1,
    ensures
        r == spec_run_migrations(spec_open_database(db), plan.migrations@),
        r.file_exists,
        plan_well_formed(*plan) ==> r == spec_apply_migration(spec_open_database(db), plan.migrations@[0]),
        plan_well_formed(*plan) && db.applied_version < 1 ==> r.applied_version == 1
            && r.history_table_exists,
        plan_well_formed(*plan) && db.applied_version >= 1 ==> r == spec_open_database(db),
        plan_well_formed(*plan) && db_well_formed(db) ==> r.history_table_exists
            && r.applied_version >= 1 && db_well_formed(r),
{
    let mut cur = open_database(db);
    let mut i: usize = 0;
    proof {
        assert(plan.migrations@.skip(0) =~= plan.migrations@);
    }
    while i < plan.migrations.len()
        invariant
            0 <= i <= plan.migrations@.len(),
            forall|j: int| 0 <= j < plan.migrations@.len() ==> plan.migrations@[j].version >= 1,
            cur.file_exists,
            spec_run_migrations(cur, plan.migrations@.skip(i as int))
                == spec_run_migrations(spec_open_database(db), plan.migrations@),
        decreases plan.migrations@.len() - i,
    {
        proof {
            assert(plan.migrations@.skip(i as int)[0] == plan.migrations@[i as int]);
            assert(plan.migrations@.skip(i as int).skip(1) =~= plan.migrations@.skip(
                i as int + 1,
            ));
        }
        cur = apply_migration(cur, &plan.migrations[i]);
        i = i + 1;
    }
    proof {
        assert(plan.migrations@.skip(i as int) =~= Seq::<Migration>::empty());
        if plan_well_formed(*plan) {
            lemma_run_single_migration(spec_open_database(db), plan.migrations@);
        }
    }
    cur
}

/// Running a one-element migration list is applying that migration.
pub proof fn lemma_run_single_migration(db: DbState, ms: Seq<Migration>)
    requires
        ms.len() == 1,
    ensures
        spec_run_migrations(db, ms) == spec_apply_migration(db, ms[0]),
{
    assert(ms.skip(1) =~= Seq::<Migration>::empty());
    assert(spec_run_migrations(spec_apply_migration(db, ms[0]), ms.skip(1))
        == spec_apply_migration(db, ms[0]));
    assert(spec_run_migrations(db, ms)
        == spec_run_migrations(spec_apply_migration(db, ms[0]), ms.skip(1)));
}

} // verus!
