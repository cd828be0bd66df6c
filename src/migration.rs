use vstd::prelude::*;

use crate::schema::{
    apply_object, apply_objects, lemma_apply_objects_idempotent, script_sql, script_text, Catalog, ObjectKind,
    SchemaObject,
};

verus! {

/// Direction of a migration.
#[derive(Clone, Copy, Debug, PartialEq, Eq, Structural)]
pub enum MigrationKind {
    Up,
    Down,
}

/// A versioned batch of schema statements.
pub struct Migration {
    pub version: i64,
    pub description: &'static str,
    pub statements: Vec<SchemaObject>,
    pub kind: MigrationKind,
}

/// Where the application keeps its history.
pub const DATABASE_URL: &'static str = "sqlite:transcription_history.db";

/// Columns of `transcriptions`; both timestamps default to the time of insertion.
pub const TRANSCRIPTIONS_COLUMNS: &'static str = "(id TEXT PRIMARY KEY, audio_file_id TEXT NOT NULL, text TEXT NOT NULL, language TEXT NOT NULL, model_used TEXT NOT NULL, duration REAL NOT NULL, confidence REAL, created_at DATETIME DEFAULT CURRENT_TIMESTAMP, updated_at DATETIME DEFAULT CURRENT_TIMESTAMP)";

/// Columns of `summaries`, each of which refers to a transcription.
pub const SUMMARIES_COLUMNS: &'static str = "(id TEXT PRIMARY KEY, transcription_id TEXT NOT NULL, summary TEXT NOT NULL, language TEXT NOT NULL, model_used TEXT NOT NULL, original_length INTEGER NOT NULL, summary_length INTEGER NOT NULL, compression_ratio REAL NOT NULL, processing_time INTEGER NOT NULL, created_at DATETIME DEFAULT CURRENT_TIMESTAMP, FOREIGN KEY (transcription_id) REFERENCES transcriptions(id))";

/// Columns of `user_preferences`, a store of key and value.
pub const USER_PREFERENCES_COLUMNS: &'static str = "(key TEXT PRIMARY KEY, value TEXT NOT NULL, updated_at DATETIME DEFAULT CURRENT_TIMESTAMP)";

/// The objects that the first migration creates, in order.
pub open spec fn initial_schema_objects() -> Seq<SchemaObject> {
    seq![
        SchemaObject { kind: ObjectKind::Table, name: "transcriptions", definition: TRANSCRIPTIONS_COLUMNS },
        SchemaObject { kind: ObjectKind::Table, name: "summaries", definition: SUMMARIES_COLUMNS },
        SchemaObject { kind: ObjectKind::Table, name: "user_preferences", definition: USER_PREFERENCES_COLUMNS },
        SchemaObject { kind: ObjectKind::Index, name: "idx_transcriptions_created_at", definition: "ON transcriptions(created_at)" },
        SchemaObject { kind: ObjectKind::Index, name: "idx_transcriptions_language", definition: "ON transcriptions(language)" },
        SchemaObject { kind: ObjectKind::Index, name: "idx_summaries_transcription_id", definition: "ON summaries(transcription_id)" },
    ]
}

/// The catalog of a fresh database after the first migration.
pub open spec fn initial_catalog() -> Catalog {
    map![
        "transcriptions"@ => ObjectKind::Table,
        "summaries"@ => ObjectKind::Table,
        "user_preferences"@ => ObjectKind::Table,
        "idx_transcriptions_created_at"@ => ObjectKind::Index,
        "idx_transcriptions_language"@ => ObjectKind::Index,
        "idx_summaries_transcription_id"@ => ObjectKind::Index,
    ]
}

/// The catalog after running migration `m` on a database whose catalog is `c`.
pub open spec fn apply_migration(c: Catalog, m: Migration) -> Catalog {
    apply_objects(c, m.statements@)
}

/// Running the first migration on a fresh, empty database creates exactly the
/// tables `transcriptions`, `summaries` and `user_preferences` and the indexes
/// `idx_transcriptions_created_at`, `idx_transcriptions_language` and
/// `idx_summaries_transcription_id`.
pub proof fn lemma_initial_migration_on_fresh_database(m: Migration)
    requires
        m.version == 1,
        m.statements@ == initial_schema_objects(),
    ensures
        apply_migration(Map::empty(), m) == initial_catalog(),
{
    let objs = initial_schema_objects();
    reveal_strlit("transcriptions");
    reveal_strlit("summaries");
    reveal_strlit("user_preferences");
    reveal_strlit("idx_transcriptions_created_at");
    reveal_strlit("idx_transcriptions_language");
    reveal_strlit("idx_summaries_transcription_id");
    let e: Catalog = Map::empty();
    let c1 = e.insert("transcriptions"@, ObjectKind::Table);
    let c2 = c1.insert("summaries"@, ObjectKind::Table);
    let c3 = c2.insert("user_preferences"@, ObjectKind::Table);
    let c4 = c3.insert("idx_transcriptions_created_at"@, ObjectKind::Index);
    let c5 = c4.insert("idx_transcriptions_language"@, ObjectKind::Index);
    let c6 = c5.insert("idx_summaries_transcription_id"@, ObjectKind::Index);
    assert(objs.take(1).drop_last() =~= objs.take(0));
    assert(objs.take(2).drop_last() =~= objs.take(1));
    assert(objs.take(3).drop_last() =~= objs.take(2));
    assert(objs.take(4).drop_last() =~= objs.take(3));
    assert(objs.take(5).drop_last() =~= objs.take(4));
    assert(objs.take(6).drop_last() =~= objs.take(5));
    assert(objs.take(6) =~= objs);
    assert(apply_objects(e, objs.take(0)) == e);
    assert(apply_objects(e, objs.take(1)) == c1);
    assert(apply_objects(e, objs.take(2)) == c2);
    assert(apply_objects(e, objs.take(3)) == c3);
    assert("idx_transcriptions_created_at"@.len() == 29);
    assert(!c3.contains_key("idx_transcriptions_created_at"@));
    assert(objs.take(4).last() == objs[3]);
    assert(apply_objects(e, objs.take(4)) == c4);
    assert("idx_transcriptions_language"@.len() == 27);
    assert(!c4.contains_key("idx_transcriptions_language"@));
    assert(objs.take(5).last() == objs[4]);
    assert(apply_objects(e, objs.take(5)) == c5);
    assert("idx_summaries_transcription_id"@.len() == 30);
    assert(!c5.contains_key("idx_summaries_transcription_id"@));
    assert(objs.take(6).last() == objs[5]);
    assert(apply_objects(e, objs.take(6)) == c6);
    assert(c6 =~= initial_catalog());
}

/// Running a migration a second time on the same database neither fails nor
/// adds anything: its statements are all guarded creations.
pub proof fn lemma_migration_twice(c: Catalog, m: Migration)
    ensures
        apply_migration(apply_migration(c, m), m) == apply_migration(c, m),
{
    lemma_apply_objects_idempotent(c, m.statements@);
}

impl Migration {
    /// The SQL batch of this migration.
    pub fn sql(&self) -> (r: String)
        ensures
            r@ == script_text(self.statements@),
    {
        script_sql(&self.statements)
    }
}

/// The statements of the first migration.
pub fn initial_schema() -> (r: Vec<SchemaObject>)
    ensures
        r@ == initial_schema_objects(),
{
    let r = vec![
        SchemaObject { kind: ObjectKind::Table, name: "transcriptions", definition: TRANSCRIPTIONS_COLUMNS },
        SchemaObject { kind: ObjectKind::Table, name: "summaries", definition: SUMMARIES_COLUMNS },
        SchemaObject { kind: ObjectKind::Table, name: "user_preferences", definition: USER_PREFERENCES_COLUMNS },
        SchemaObject { kind: ObjectKind::Index, name: "idx_transcriptions_created_at", definition: "ON transcriptions(created_at)" },
        SchemaObject { kind: ObjectKind::Index, name: "idx_transcriptions_language", definition: "ON transcriptions(language)" },
        SchemaObject { kind: ObjectKind::Index, name: "idx_summaries_transcription_id", definition: "ON summaries(transcription_id)" },
    ];
    assert(r@ =~= initial_schema_objects());
    r
}

/// The application's migrations, in ascending version order: one, which
/// creates the initial tables and indexes.
pub fn migrations() -> (r: Vec<Migration>)
    ensures
        r@.len() == 1,
        r@[0].version == 1,
        r@[0].description@ == "Create initial tables"@,
        r@[0].kind == MigrationKind::Up,
        r@[0].statements@ == initial_schema_objects(),
{
    let m = Migration {
        version: 1,
        description: "Create initial tables",
        statements: initial_schema(),
        kind: MigrationKind::Up,
    };
    vec![m]
}

/// Whether version `v` is recorded in `applied`.
pub fn is_recorded(applied: &Vec<i64>, v: i64) -> (r: bool)
    ensures
        r == applied@.contains(v),
{
    let mut i: usize = 0;
    while i < applied.len()
        invariant
            i <= applied@.len(),
            forall|j: int| 0 <= j < i ==> applied@[j] != v,
        decreases applied@.len() - i,
    {
        if applied[i] == v {
            return true;
        }
        i = i + 1;
    }
    false
}

/// The migration to run next on a database whose applied versions are
/// `applied`: among those not yet recorded, the one of lowest version (the
/// first of them, where versions repeat). `None` when every migration is
/// recorded as applied.
pub fn next_pending(ms: &Vec<Migration>, applied: &Vec<i64>) -> (r: Option<usize>)
    ensures
        r is None <==> forall|j: int| 0 <= j < ms@.len() ==> applied@.contains(#[trigger] ms@[j].version),
        r matches Some(i) ==> {
            &&& i < ms@.len()
            &&& !applied@.contains(ms@[i as int].version)
            &&& forall|j: int|
                0 <= j < ms@.len() && !applied@.contains(#[trigger] ms@[j].version) ==> ms@[i as int].version
                    < ms@[j].version || (ms@[i as int].version == ms@[j].version && i <= j)
        },
{
    let mut best: Option<usize> = None;
    let mut j: usize = 0;
    while j < ms.len()
        invariant
            j <= ms@.len(),
            best is None <==> forall|k: int| 0 <= k < j ==> applied@.contains(#[trigger] ms@[k].version),
            best matches Some(i) ==> {
                &&& i < j
                &&& !applied@.contains(ms@[i as int].version)
                &&& forall|k: int|
                    0 <= k < j && !applied@.contains(#[trigger] ms@[k].version) ==> ms@[i as int].version
                        < ms@[k].version || (ms@[i as int].version == ms@[k].version && i <= k)
            },
        decreases ms@.len() - j,
    {
        let v = ms[j].version;
        if !is_recorded(applied, v) {
            match best {
                None => {
                    best = Some(j);
                },
                Some(i) => {
                    if v < ms[i].version {
                        best = Some(j);
                    }
                },
            }
        }
        j = j + 1;
    }
    best
}

} // verus!
