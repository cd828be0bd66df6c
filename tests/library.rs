use transcription_history::greeting::greet;
use transcription_history::migration::{
    initial_schema, is_recorded, migrations, next_pending, Migration, MigrationKind, DATABASE_URL,
    SUMMARIES_COLUMNS, TRANSCRIPTIONS_COLUMNS, USER_PREFERENCES_COLUMNS,
};
use transcription_history::schema::{script_sql, statement_sql, ObjectKind, SchemaObject};

fn migration(version: i64) -> Migration {
    Migration {
        version,
        description: "test",
        statements: Vec::new(),
        kind: MigrationKind::Up,
    }
}

#[test]
fn greet_ada() {
    assert_eq!(greet("Ada"), "Hello, Ada! You've been greeted from Rust!");
}

#[test]
fn greet_empty_name() {
    assert_eq!(greet(""), "Hello, ! You've been greeted from Rust!");
}

#[test]
fn greet_keeps_name_verbatim() {
    let name = "  Zoë {x} 日本 ";
    let expected = format!("Hello, {}! You've been greeted from Rust!", name);
    assert_eq!(greet(name), expected);
}

#[test]
fn statement_sql_of_index() {
    let o = SchemaObject {
        kind: ObjectKind::Index,
        name: "idx_a",
        definition: "ON t(a)",
    };
    assert_eq!(statement_sql(&o), "CREATE INDEX IF NOT EXISTS idx_a ON t(a);\n");
}

#[test]
fn statement_sql_of_table() {
    let o = SchemaObject {
        kind: ObjectKind::Table,
        name: "t",
        definition: "(a TEXT)",
    };
    assert_eq!(statement_sql(&o), "CREATE TABLE IF NOT EXISTS t (a TEXT);\n");
}

#[test]
fn script_sql_empty() {
    assert_eq!(script_sql(&Vec::new()), "");
}

#[test]
fn script_sql_keeps_order() {
    let objs = vec![
        SchemaObject { kind: ObjectKind::Table, name: "t", definition: "(a TEXT)" },
        SchemaObject { kind: ObjectKind::Index, name: "i", definition: "ON t(a)" },
    ];
    assert_eq!(
        script_sql(&objs),
        "CREATE TABLE IF NOT EXISTS t (a TEXT);\nCREATE INDEX IF NOT EXISTS i ON t(a);\n"
    );
}

#[test]
fn migration_list_has_initial_migration() {
    let ms = migrations();
    assert_eq!(ms.len(), 1);
    assert_eq!(ms[0].version, 1);
    assert_eq!(ms[0].description, "Create initial tables");
    assert_eq!(ms[0].kind, MigrationKind::Up);
    assert_eq!(ms[0].statements.len(), 6);
    assert_eq!(DATABASE_URL, "sqlite:transcription_history.db");
}

#[test]
fn initial_migration_creates_three_tables_and_three_indexes() {
    let sql = migrations()[0].sql();
    assert_eq!(sql.matches("CREATE TABLE IF NOT EXISTS ").count(), 3);
    assert_eq!(sql.matches("CREATE INDEX IF NOT EXISTS ").count(), 3);
    for name in ["transcriptions (", "summaries (", "user_preferences ("] {
        assert!(sql.contains(&format!("CREATE TABLE IF NOT EXISTS {}", name)));
    }
    assert!(sql.contains(
        "CREATE INDEX IF NOT EXISTS idx_transcriptions_created_at ON transcriptions(created_at);"
    ));
    assert!(sql.contains(
        "CREATE INDEX IF NOT EXISTS idx_transcriptions_language ON transcriptions(language);"
    ));
    assert!(sql.contains(
        "CREATE INDEX IF NOT EXISTS idx_summaries_transcription_id ON summaries(transcription_id);"
    ));
    assert_eq!(sql.matches(';').count(), 6);
}

#[test]
fn initial_schema_names_in_order() {
    let names: Vec<&str> = initial_schema().iter().map(|o| o.name).collect();
    assert_eq!(
        names,
        vec![
            "transcriptions",
            "summaries",
            "user_preferences",
            "idx_transcriptions_created_at",
            "idx_transcriptions_language",
            "idx_summaries_transcription_id",
        ]
    );
}

#[test]
fn created_at_defaults_to_now() {
    assert!(TRANSCRIPTIONS_COLUMNS.contains("created_at DATETIME DEFAULT CURRENT_TIMESTAMP"));
    assert!(TRANSCRIPTIONS_COLUMNS.contains("updated_at DATETIME DEFAULT CURRENT_TIMESTAMP"));
    assert!(SUMMARIES_COLUMNS.contains("created_at DATETIME DEFAULT CURRENT_TIMESTAMP"));
    assert!(USER_PREFERENCES_COLUMNS.contains("updated_at DATETIME DEFAULT CURRENT_TIMESTAMP"));
}

#[test]
fn summaries_declare_foreign_key() {
    assert!(SUMMARIES_COLUMNS
        .contains("FOREIGN KEY (transcription_id) REFERENCES transcriptions(id)"));
}

#[test]
fn is_recorded_finds_versions() {
    let applied = vec![3, 1, 7];
    assert!(is_recorded(&applied, 1));
    assert!(is_recorded(&applied, 7));
    assert!(!is_recorded(&applied, 2));
    assert!(!is_recorded(&Vec::new(), 1));
}

#[test]
fn fresh_database_runs_initial_migration() {
    assert_eq!(next_pending(&migrations(), &Vec::new()), Some(0));
}

#[test]
fn applied_migration_is_not_run_again() {
    assert_eq!(next_pending(&migrations(), &vec![1]), None);
}

#[test]
fn pending_migrations_run_in_version_order() {
    let ms = vec![migration(3), migration(1), migration(2)];
    let mut applied: Vec<i64> = Vec::new();
    let mut order = Vec::new();
    while let Some(i) = next_pending(&ms, &applied) {
        order.push(ms[i].version);
        applied.push(ms[i].version);
    }
    assert_eq!(order, vec![1, 2, 3]);
}

#[test]
fn pending_skips_recorded_versions() {
    let ms = vec![migration(1), migration(2), migration(3)];
    assert_eq!(next_pending(&ms, &vec![1, 3]), Some(1));
    assert_eq!(next_pending(&ms, &vec![1, 2, 3]), None);
}

#[test]
fn pending_with_repeated_version_takes_first() {
    let ms = vec![migration(5), migration(2), migration(2)];
    assert_eq!(next_pending(&ms, &Vec::new()), Some(1));
}

#[test]
fn pending_with_no_migrations() {
    assert_eq!(next_pending(&Vec::new(), &vec![1]), None);
}
