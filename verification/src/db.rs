//! The database: the sequence of checks and statements that sets up (or migrates) its
//! tables, and how the upload switch is read from the parameters table.
use vstd::prelude::*;
use vstd::string::*;

verus! {

/// Asks whether the `images` table exists.
pub const IMAGES_TABLE_EXISTS: &'static str = "SELECT EXISTS (SELECT 1 FROM sqlite_master WHERE type='table' AND name='images')";

/// Creates the `images` table and its indexes.
pub const CREATE_IMAGES_TABLE: &'static str = r#"
            CREATE TABLE images (
                id INTEGER PRIMARY KEY AUTOINCREMENT,
                filename TEXT NOT NULL,
                is_public BOOLEAN NOT NULL DEFAULT FALSE,
                karma INTEGER DEFAULT 0,
                content_hash TEXT,
                created_at TIMESTAMP NOT NULL DEFAULT CURRENT_TIMESTAMP
            );
            CREATE INDEX idx_is_public ON images(is_public);
            CREATE INDEX idx_karma ON images(karma);
            CREATE INDEX idx_content_hash ON images(content_hash);
            "#;

/// Asks whether the `images` table has the `content_hash` column.
pub const CONTENT_HASH_COLUMN_EXISTS: &'static str = "SELECT EXISTS (SELECT 1 FROM pragma_table_info('images') WHERE name = 'content_hash')";

/// Adds the `content_hash` column (and its index) to an older `images` table.
pub const ADD_CONTENT_HASH_COLUMN: &'static str = r#"
            ALTER TABLE images ADD COLUMN content_hash TEXT;
            CREATE INDEX IF NOT EXISTS idx_content_hash ON images(content_hash);
            "#;

/// Asks whether the `params` table exists.
pub const PARAMS_TABLE_EXISTS: &'static str = "SELECT EXISTS (SELECT 1 FROM sqlite_master WHERE type='table' AND name='params')";

/// Creates the `params` table, its update trigger, and the `upload_allowed` parameter (off).
pub const CREATE_PARAMS_TABLE: &'static str = r#"
            CREATE TABLE params (
                key         TEXT PRIMARY KEY,
                value       TEXT NOT NULL,
                description TEXT,
                updated_at  TIMESTAMP DEFAULT CURRENT_TIMESTAMP
            );
            CREATE TRIGGER update_params_timestamp
            AFTER UPDATE ON params
            FOR EACH ROW
            BEGIN
                UPDATE params
                SET updated_at = CURRENT_TIMESTAMP
                WHERE key = OLD.key;
            END;
            INSERT INTO params (key, value, description) VALUES ('upload_allowed', '0', 'whether image upload is allowed');
            "#;

/// The steps of setting up the database, in order.
#[derive(Debug, Clone, Copy, PartialEq, Eq, Structural)]
pub enum DbInitStep {
    ImagesTable,
    ContentHashColumn,
    ParamsTable,
    Done,
}

/// The question asked at a step (a query returning one boolean), `None` once done.
pub open spec fn spec_init_probe(step: DbInitStep) -> Option<Seq<char>> {
    match step {
        DbInitStep::ImagesTable => Some(IMAGES_TABLE_EXISTS@),
        DbInitStep::ContentHashColumn => Some(CONTENT_HASH_COLUMN_EXISTS@),
        DbInitStep::ParamsTable => Some(PARAMS_TABLE_EXISTS@),
        DbInitStep::Done => None,
    }
}

/// The statement run at a step when the answer is "missing".
pub open spec fn spec_init_statement(step: DbInitStep) -> Option<Seq<char>> {
    match step {
        DbInitStep::ImagesTable => Some(CREATE_IMAGES_TABLE@),
        DbInitStep::ContentHashColumn => Some(ADD_CONTENT_HASH_COLUMN@),
        DbInitStep::ParamsTable => Some(CREATE_PARAMS_TABLE@),
        DbInitStep::Done => None,
    }
}

/// The step after a step.
pub open spec fn spec_next_step(step: DbInitStep) -> DbInitStep {
    match step {
        DbInitStep::ImagesTable => DbInitStep::ContentHashColumn,
        DbInitStep::ContentHashColumn => DbInitStep::ParamsTable,
        _ => DbInitStep::Done,
    }
}

/// The query to ask at a step; `None` once done.
pub fn db_init_probe(step: DbInitStep) -> (r: Option<&'static str>)
    ensures
        match r {
            Some(q) => spec_init_probe(step) == Some(q@),
            None => spec_init_probe(step) is None,
        },
{
    match step {
        DbInitStep::ImagesTable => Some(IMAGES_TABLE_EXISTS),
        DbInitStep::ContentHashColumn => Some(CONTENT_HASH_COLUMN_EXISTS),
        DbInitStep::ParamsTable => Some(PARAMS_TABLE_EXISTS),
        DbInitStep::Done => None,
    }
}

/// Moves on once the answer to a step's question is known: the statement to run (only where
/// the checked part is missing) and the next step.
pub fn db_init_advance(step: DbInitStep, present: bool) -> (r: (DbInitStep, Option<&'static str>))
    ensures
        r.0 == spec_next_step(step),
        r.1 is Some ==> !present && spec_init_statement(step) == Some(r.1->0@),
        r.1 is None ==> present || step == DbInitStep::Done,
{
    let next = match step {
        DbInitStep::ImagesTable => DbInitStep::ContentHashColumn,
        DbInitStep::ContentHashColumn => DbInitStep::ParamsTable,
        _ => DbInitStep::Done,
    };
    if present {
        return (next, None);
    }
    let statement = match step {
        DbInitStep::ImagesTable => Some(CREATE_IMAGES_TABLE),
        DbInitStep::ContentHashColumn => Some(ADD_CONTENT_HASH_COLUMN),
        DbInitStep::ParamsTable => Some(CREATE_PARAMS_TABLE),
        DbInitStep::Done => None,
    };
    (next, statement)
}

/// The statements a run of the set-up executes, from `step` on, given the answers to the
/// questions in order.
pub open spec fn spec_init_run(step: DbInitStep, answers: Seq<bool>) -> (DbInitStep, Seq<Seq<char>>)
    decreases answers.len(),
{
    if answers.len() == 0 || step == DbInitStep::Done {
        (step, seq![])
    } else {
        let here = if answers[0] { seq![] } else {
            match spec_init_statement(step) {
                Some(q) => seq![q],
                None => seq![],
            }
        };
        let (last, rest) = spec_init_run(spec_next_step(step), answers.drop_first());
        (last, here + rest)
    }
}

/// Setting up takes three questions and creates exactly what is missing, in order: the
/// `images` table, the `content_hash` column, the `params` table.
pub proof fn law_init_creates_exactly_what_is_missing(images: bool, column: bool, params: bool)
    ensures
        ({
            let (last, run) = spec_init_run(DbInitStep::ImagesTable, seq![images, column, params]);
            &&& last == DbInitStep::Done
            &&& run == (if images { seq![] } else { seq![CREATE_IMAGES_TABLE@] }) + (if column { seq![] } else {
                seq![ADD_CONTENT_HASH_COLUMN@]
            }) + (if params { seq![] } else { seq![CREATE_PARAMS_TABLE@] })
        }),
{
    let a = seq![images, column, params];
    assert(a.drop_first() =~= seq![column, params]);
    assert(seq![column, params].drop_first() =~= seq![params]);
    assert(seq![params].drop_first() =~= Seq::<bool>::empty());
    let (l3, r3) = spec_init_run(DbInitStep::Done, Seq::<bool>::empty());
    let (l2, r2) = spec_init_run(DbInitStep::ParamsTable, seq![params]);
    let (l1, r1) = spec_init_run(DbInitStep::ContentHashColumn, seq![column, params]);
    let (l0, r0) = spec_init_run(DbInitStep::ImagesTable, a);
    assert(r2 =~= (if params { seq![] } else { seq![CREATE_PARAMS_TABLE@] }) + r3);
    assert(r1 =~= (if column { seq![] } else { seq![ADD_CONTENT_HASH_COLUMN@] }) + r2);
    assert(r0 =~= (if images { seq![] } else { seq![CREATE_IMAGES_TABLE@] }) + r1);
}

/// The parts of the schema that setting up checks and creates.
pub enum DbObject {
    ImagesTable,
    ContentHashColumn,
    ParamsTable,
}

/// What a question asks about: the part of the schema whose presence it answers.
pub open spec fn asked_about(query: Seq<char>) -> Option<DbObject> {
    if query == IMAGES_TABLE_EXISTS@ {
        Some(DbObject::ImagesTable)
    } else if query == CONTENT_HASH_COLUMN_EXISTS@ {
        Some(DbObject::ContentHashColumn)
    } else if query == PARAMS_TABLE_EXISTS@ {
        Some(DbObject::ParamsTable)
    } else {
        None
    }
}

/// The schema after running a statement: creating the `images` table creates it with its
/// `content_hash` column; adding the column adds the column; creating the `params` table
/// creates it.
pub open spec fn after_statement(schema: Set<DbObject>, statement: Seq<char>) -> Set<DbObject> {
    if statement == CREATE_IMAGES_TABLE@ {
        schema.insert(DbObject::ImagesTable).insert(DbObject::ContentHashColumn)
    } else if statement == ADD_CONTENT_HASH_COLUMN@ {
        schema.insert(DbObject::ContentHashColumn)
    } else if statement == CREATE_PARAMS_TABLE@ {
        schema.insert(DbObject::ParamsTable)
    } else {
        schema
    }
}

/// The schema after setting up from `step` on, against a database whose schema is `schema`:
/// each step asks its question of the current schema and, where the answer is "missing",
/// runs its statement.
pub open spec fn schema_after_setup(step: DbInitStep, schema: Set<DbObject>) -> Set<DbObject>
    decreases (match step {
        DbInitStep::ImagesTable => 3int,
        DbInitStep::ContentHashColumn => 2int,
        DbInitStep::ParamsTable => 1int,
        DbInitStep::Done => 0int,
    }),
{
    match (spec_init_probe(step), spec_init_statement(step)) {
        (Some(q), Some(st)) => {
            let present = match asked_about(q) {
                Some(o) => schema.contains(o),
                None => false,
            };
            let next = if present { schema } else { after_statement(schema, st) };
            match step {
                DbInitStep::ImagesTable => schema_after_setup(DbInitStep::ContentHashColumn, next),
                DbInitStep::ContentHashColumn => schema_after_setup(DbInitStep::ParamsTable, next),
                _ => next,
            }
        },
        _ => schema,
    }
}

/// Each step asks about exactly what its statement creates, so setting up leaves every part
/// of the schema in place whatever the database held before (a fresh database included), and
/// keeps what was there.
pub proof fn law_setup_completes_the_schema(schema: Set<DbObject>)
    ensures
        schema_after_setup(DbInitStep::ImagesTable, schema).contains(DbObject::ImagesTable),
        schema_after_setup(DbInitStep::ImagesTable, schema).contains(DbObject::ContentHashColumn),
        schema_after_setup(DbInitStep::ImagesTable, schema).contains(DbObject::ParamsTable),
        schema.subset_of(schema_after_setup(DbInitStep::ImagesTable, schema)),
{
    reveal_strlit("SELECT EXISTS (SELECT 1 FROM sqlite_master WHERE type='table' AND name='images')");
    reveal_strlit("SELECT EXISTS (SELECT 1 FROM pragma_table_info('images') WHERE name = 'content_hash')");
    reveal_strlit("SELECT EXISTS (SELECT 1 FROM sqlite_master WHERE type='table' AND name='params')");
    assert(IMAGES_TABLE_EXISTS@[72] != PARAMS_TABLE_EXISTS@[72]);
    reveal_strlit(r#"
            CREATE TABLE images (
                id INTEGER PRIMARY KEY AUTOINCREMENT,
                filename TEXT NOT NULL,
                is_public BOOLEAN NOT NULL DEFAULT FALSE,
                karma INTEGER DEFAULT 0,
                content_hash TEXT,
                created_at TIMESTAMP NOT NULL DEFAULT CURRENT_TIMESTAMP
            );
            CREATE INDEX idx_is_public ON images(is_public);
            CREATE INDEX idx_karma ON images(karma);
            CREATE INDEX idx_content_hash ON images(content_hash);
            "#);
    reveal_strlit(r#"
            ALTER TABLE images ADD COLUMN content_hash TEXT;
            CREATE INDEX IF NOT EXISTS idx_content_hash ON images(content_hash);
            "#);
    reveal_strlit(r#"
            CREATE TABLE params (
                key         TEXT PRIMARY KEY,
                value       TEXT NOT NULL,
                description TEXT,
                updated_at  TIMESTAMP DEFAULT CURRENT_TIMESTAMP
            );
            CREATE TRIGGER update_params_timestamp
            AFTER UPDATE ON params
            FOR EACH ROW
            BEGIN
                UPDATE params
                SET updated_at = CURRENT_TIMESTAMP
                WHERE key = OLD.key;
            END;
            INSERT INTO params (key, value, description) VALUES ('upload_allowed', '0', 'whether image upload is allowed');
            "#);
    assert(CONTENT_HASH_COLUMN_EXISTS@.len() != IMAGES_TABLE_EXISTS@.len());
    assert(CONTENT_HASH_COLUMN_EXISTS@.len() != PARAMS_TABLE_EXISTS@.len());
    assert(CREATE_IMAGES_TABLE@.len() != ADD_CONTENT_HASH_COLUMN@.len());
    assert(CREATE_PARAMS_TABLE@.len() != ADD_CONTENT_HASH_COLUMN@.len());
    assert(CREATE_PARAMS_TABLE@.len() != CREATE_IMAGES_TABLE@.len());
    let s1 = if schema.contains(DbObject::ImagesTable) {
        schema
    } else {
        after_statement(schema, CREATE_IMAGES_TABLE@)
    };
    let s2 = if s1.contains(DbObject::ContentHashColumn) {
        s1
    } else {
        after_statement(s1, ADD_CONTENT_HASH_COLUMN@)
    };
    let s3 = if s2.contains(DbObject::ParamsTable) {
        s2
    } else {
        after_statement(s2, CREATE_PARAMS_TABLE@)
    };
    assert(schema_after_setup(DbInitStep::ParamsTable, s2) == s3);
    assert(schema_after_setup(DbInitStep::ContentHashColumn, s1) == s3);
    assert(schema_after_setup(DbInitStep::ImagesTable, schema) == s3);
}

/// Whether image upload is allowed by the value of the `upload_allowed` parameter: only the
/// value `1` allows it; a missing or other value denies it.
pub fn upload_allowed_from_param(value: Option<&str>) -> (r: bool)
    ensures
        r == (value is Some && value->0@ == "1"@),
{
    match value {
        Some(v) => crate::text::str_eq(v, "1"),
        None => false,
    }
}

} // verus!
