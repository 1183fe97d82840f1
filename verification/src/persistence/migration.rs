//! Versioned schema migrations: their list, their checksums, and which of
//! them are due given what the database has recorded as applied.

use sha2::{Digest, Sha256};
use vstd::prelude::*;
use vstd::string::StringSliceAdditionalSpecFns;

use crate::persistence::error::{PersistenceError, PersistenceErrorView};
use crate::text::{hex_lower, hex_lower_text, text_equals};

verus! {

/// A schema migration: its version, what it does, and its SQL.
#[derive(Debug, Clone, Copy)]
pub struct Migration {
    pub version: i64,
    pub description: &'static str,
    pub sql: &'static str,
}

/// A migration as recorded in the migration history of a database.
#[derive(Debug, Clone)]
pub struct AppliedMigration {
    pub version: i64,
    pub checksum: String,
}

pub open spec fn initialize_foundation() -> Migration {
    Migration {
        version: 1,
        description: "initialize persistence foundation",
        sql: "CREATE TABLE IF NOT EXISTS application_metadata (
    key TEXT PRIMARY KEY NOT NULL,
    value TEXT NOT NULL
) STRICT;
",
    }
}

pub open spec fn create_application_settings() -> Migration {
    Migration {
        version: 2,
        description: "create application settings",
        sql: "CREATE TABLE application_settings (
    singleton_id INTEGER PRIMARY KEY NOT NULL CHECK (singleton_id = 1),
    theme TEXT NOT NULL CHECK (theme IN ('system', 'light', 'dark')),
    language TEXT NOT NULL CHECK (language IN ('en', 'pt-BR')),
    updated_at TEXT NOT NULL
) STRICT;

INSERT INTO application_settings (singleton_id, theme, language, updated_at)
VALUES (1, 'system', 'en', strftime('%Y-%m-%dT%H:%M:%fZ', 'now'));
",
    }
}

pub open spec fn create_projects() -> Migration {
    Migration {
        version: 3,
        description: "create projects",
        sql: "CREATE TABLE projects (
    id TEXT PRIMARY KEY NOT NULL,
    name TEXT NOT NULL CHECK (length(trim(name)) > 0),
    description TEXT,
    project_type TEXT NOT NULL CHECK (
        project_type IN (
            'custom',
            'learning',
            'certification',
            'reading',
            'software',
            'fitness',
            'administrative'
        )
    ),
    status TEXT NOT NULL CHECK (
        status IN ('active', 'paused', 'completed', 'archived', 'cancelled')
    ),
    start_date TEXT,
    target_date TEXT,
    priority INTEGER NOT NULL CHECK (priority BETWEEN 1 AND 5),
    color TEXT,
    icon TEXT,
    objective TEXT,
    settings_json TEXT NOT NULL DEFAULT '{}' CHECK (json_valid(settings_json)),
    created_at TEXT NOT NULL,
    updated_at TEXT NOT NULL,
    archived_at TEXT,
    deleted_at TEXT,
    CHECK (start_date IS NULL OR target_date IS NULL OR target_date >= start_date),
    CHECK (
        (status = 'archived' AND archived_at IS NOT NULL)
        OR (status <> 'archived' AND archived_at IS NULL)
    )
) STRICT;

CREATE INDEX projects_listing ON projects (deleted_at, status, created_at, id);
",
    }
}

/// Every migration, in the order in which they are applied.
pub open spec fn all_migrations() -> Seq<Migration> {
    seq![initialize_foundation(), create_application_settings(), create_projects()]
}

/// Every migration, in the order in which they are applied.
pub fn migrations() -> (r: Vec<Migration>)
    ensures
        r@ == all_migrations(),
{
    let r = vec![
        Migration {
            version: 1,
            description: "initialize persistence foundation",
            sql: "CREATE TABLE IF NOT EXISTS application_metadata (
    key TEXT PRIMARY KEY NOT NULL,
    value TEXT NOT NULL
) STRICT;
",
        },
        Migration {
            version: 2,
            description: "create application settings",
            sql: "CREATE TABLE application_settings (
    singleton_id INTEGER PRIMARY KEY NOT NULL CHECK (singleton_id = 1),
    theme TEXT NOT NULL CHECK (theme IN ('system', 'light', 'dark')),
    language TEXT NOT NULL CHECK (language IN ('en', 'pt-BR')),
    updated_at TEXT NOT NULL
) STRICT;

INSERT INTO application_settings (singleton_id, theme, language, updated_at)
VALUES (1, 'system', 'en', strftime('%Y-%m-%dT%H:%M:%fZ', 'now'));
",
        },
        Migration {
            version: 3,
            description: "create projects",
            sql: "CREATE TABLE projects (
    id TEXT PRIMARY KEY NOT NULL,
    name TEXT NOT NULL CHECK (length(trim(name)) > 0),
    description TEXT,
    project_type TEXT NOT NULL CHECK (
        project_type IN (
            'custom',
            'learning',
            'certification',
            'reading',
            'software',
            'fitness',
            'administrative'
        )
    ),
    status TEXT NOT NULL CHECK (
        status IN ('active', 'paused', 'completed', 'archived', 'cancelled')
    ),
    start_date TEXT,
    target_date TEXT,
    priority INTEGER NOT NULL CHECK (priority BETWEEN 1 AND 5),
    color TEXT,
    icon TEXT,
    objective TEXT,
    settings_json TEXT NOT NULL DEFAULT '{}' CHECK (json_valid(settings_json)),
    created_at TEXT NOT NULL,
    updated_at TEXT NOT NULL,
    archived_at TEXT,
    deleted_at TEXT,
    CHECK (start_date IS NULL OR target_date IS NULL OR target_date >= start_date),
    CHECK (
        (status = 'archived' AND archived_at IS NOT NULL)
        OR (status <> 'archived' AND archived_at IS NULL)
    )
) STRICT;

CREATE INDEX projects_listing ON projects (deleted_at, status, created_at, id);
",
        },
    ];
    assert(r@ =~= all_migrations());
    r
}

/// The SHA-256 digest of `data`.
pub uninterp spec fn sha256(data: Seq<u8>) -> Seq<u8>;

/// Calls `sha2::Sha256::digest`; the contract claims that the result is the
/// SHA-256 digest of the argument, a function of it alone, and that it is 32
/// bytes long, as SHA-256 digests are.
#[verifier::external_body]
fn sha256_digest(data: &[u8]) -> (r: Vec<u8>)
    ensures
        r@ == sha256(data@),
        r@.len() == 32,
{
    Sha256::digest(data).to_vec()
}

/// The checksum recorded for a migration's SQL: the lower-case hexadecimal
/// SHA-256 digest of its UTF-8 bytes.
pub open spec fn checksum_of(content: &str) -> Seq<char> {
    hex_lower(sha256(content.spec_bytes()))
}

proof fn lemma_hex_lower_len(bytes: Seq<u8>)
    ensures
        hex_lower(bytes).len() == 2 * bytes.len(),
    decreases bytes.len(),
{
    if bytes.len() > 0 {
        lemma_hex_lower_len(bytes.drop_first());
    }
}

/// The checksum of `content`.
pub fn checksum(content: &str) -> (r: String)
    ensures
        r@ == checksum_of(content),
        r@.len() == 64,
{
    let digest = sha256_digest(content.as_bytes());
    proof {
        lemma_hex_lower_len(digest@);
    }
    hex_lower_text(&digest)
}

/// The checksum recorded for `version`, if it was applied.
pub open spec fn stored_checksum(applied: Seq<AppliedMigration>, version: i64) -> Option<Seq<char>>
    decreases applied.len(),
{
    if applied.len() == 0 {
        None
    } else if applied[0].version == version {
        Some(applied[0].checksum@)
    } else {
        stored_checksum(applied.drop_first(), version)
    }
}

/// The version of the first migration of `ms` whose recorded checksum
/// differs from its current one.
pub open spec fn first_mismatch(ms: Seq<Migration>, applied: Seq<AppliedMigration>) -> Option<i64>
    decreases ms.len(),
{
    if ms.len() == 0 {
        None
    } else if stored_checksum(applied, ms[0].version) matches Some(c) && c != checksum_of(
        ms[0].sql,
    ) {
        Some(ms[0].version)
    } else {
        first_mismatch(ms.drop_first(), applied)
    }
}

fn find_stored_checksum(applied: &Vec<AppliedMigration>, version: i64) -> (r: Option<&String>)
    ensures
        match r {
            Some(c) => stored_checksum(applied@, version) == Some(c@),
            None => stored_checksum(applied@, version) is None,
        },
{
    let mut i: usize = 0;
    assert(applied@.skip(0) =~= applied@);
    while i < applied.len()
        invariant
            i <= applied@.len(),
            stored_checksum(applied@, version) == stored_checksum(applied@.skip(i as int), version),
        decreases applied@.len() - i,
    {
        if applied[i].version == version {
            return Some(&applied[i].checksum);
        }
        assert(applied@.skip(i as int).drop_first() =~= applied@.skip(i + 1));
        i = i + 1;
    }
    None
}

/// Refuses a database whose recorded checksum of an applied migration
/// differs from the migration's current checksum.
pub fn verify_applied_migrations(applied: &Vec<AppliedMigration>) -> (r: Result<(), PersistenceError>)
    ensures
        match first_mismatch(all_migrations(), applied@) {
            Some(version) => r is Err && r->Err_0@
                == (PersistenceErrorView::MigrationChecksumMismatch { version }),
            None => r is Ok,
        },
{
    let ms = migrations();
    let mut i: usize = 0;
    assert(ms@.skip(0) =~= ms@);
    while i < ms.len()
        invariant
            i <= ms@.len(),
            ms@ == all_migrations(),
            first_mismatch(all_migrations(), applied@) == first_mismatch(
                ms@.skip(i as int),
                applied@,
            ),
        decreases ms@.len() - i,
    {
        let m = ms[i];
        match find_stored_checksum(applied, m.version) {
            Some(stored) => {
                let expected = checksum(m.sql);
                if !text_equals(stored.as_str(), expected.as_str()) {
                    return Err(PersistenceError::MigrationChecksumMismatch { version: m.version });
                }
            },
            None => {},
        }
        assert(ms@.skip(i as int).drop_first() =~= ms@.skip(i + 1));
        i = i + 1;
    }
    Ok(())
}

/// The migrations of `ms` that are not applied, in order.
pub open spec fn pending_of(ms: Seq<Migration>, applied: Seq<i64>) -> Seq<Migration>
    decreases ms.len(),
{
    if ms.len() == 0 {
        Seq::empty()
    } else if applied.contains(ms.last().version) {
        pending_of(ms.drop_last(), applied)
    } else {
        pending_of(ms.drop_last(), applied).push(ms.last())
    }
}

fn contains_version(versions: &Vec<i64>, version: i64) -> (r: bool)
    ensures
        r == versions@.contains(version),
{
    let mut i: usize = 0;
    while i < versions.len()
        invariant
            i <= versions@.len(),
            forall|k: int| 0 <= k < i ==> versions@[k] != version,
        decreases versions@.len() - i,
    {
        if versions[i] == version {
            return true;
        }
        i = i + 1;
    }
    false
}

/// The migrations that are due, in the order in which they must be applied.
pub fn pending_migrations(applied_versions: &Vec<i64>) -> (r: Vec<Migration>)
    ensures
        r@ == pending_of(all_migrations(), applied_versions@),
{
    let ms = migrations();
    let mut r: Vec<Migration> = Vec::new();
    let mut i: usize = 0;
    while i < ms.len()
        invariant
            i <= ms@.len(),
            ms@ == all_migrations(),
            r@ == pending_of(ms@.subrange(0, i as int), applied_versions@),
        decreases ms@.len() - i,
    {
        let m = ms[i];
        proof {
            assert(ms@.subrange(0, i + 1).drop_last() =~= ms@.subrange(0, i as int));
            assert(ms@.subrange(0, i + 1).last() == m);
        }
        if !contains_version(applied_versions, m.version) {
            r.push(m);
        }
        i = i + 1;
    }
    assert(ms@.subrange(0, ms@.len() as int) =~= ms@);
    r
}

/// The number of migrations that are due.
pub fn pending_migration_count(applied_versions: &Vec<i64>) -> (r: usize)
    ensures
        r == pending_of(all_migrations(), applied_versions@).len(),
{
    pending_migrations(applied_versions).len()
}

/// The highest recorded version, or 0 when none is recorded.
pub open spec fn max_version(versions: Seq<i64>) -> i64
    decreases versions.len(),
{
    if versions.len() == 0 {
        0
    } else if versions.len() == 1 {
        versions[0]
    } else if versions.last() > max_version(versions.drop_last()) {
        versions.last()
    } else {
        max_version(versions.drop_last())
    }
}

/// The schema version of a database: its highest applied migration.
pub fn current_schema_version(applied_versions: &Vec<i64>) -> (r: i64)
    ensures
        r == max_version(applied_versions@),
{
    let mut best: i64 = 0;
    let mut i: usize = 0;
    while i < applied_versions.len()
        invariant
            i <= applied_versions@.len(),
            best == max_version(applied_versions@.subrange(0, i as int)),
        decreases applied_versions@.len() - i,
    {
        let v = applied_versions[i];
        proof {
            assert(applied_versions@.subrange(0, i + 1).drop_last() =~= applied_versions@.subrange(
                0,
                i as int,
            ));
        }
        if i == 0 || v > best {
            best = v;
        }
        i = i + 1;
    }
    assert(applied_versions@.subrange(0, applied_versions@.len() as int) =~= applied_versions@);
    best
}


/// The versions of a list of migrations.
pub open spec fn versions_of(ms: Seq<Migration>) -> Seq<i64> {
    ms.map_values(|m: Migration| m.version)
}

proof fn lemma_nothing_pending_when_all_applied(ms: Seq<Migration>, applied: Seq<i64>)
    requires
        forall|i: int| 0 <= i < ms.len() ==> applied.contains(#[trigger] ms[i].version),
    ensures
        pending_of(ms, applied) == Seq::<Migration>::empty(),
    decreases ms.len(),
{
    if ms.len() > 0 {
        assert(applied.contains(ms[ms.len() - 1].version));
        assert forall|i: int| 0 <= i < ms.drop_last().len() implies applied.contains(
            #[trigger] ms.drop_last()[i].version,
        ) by {
            assert(ms.drop_last()[i] == ms[i]);
        }
        lemma_nothing_pending_when_all_applied(ms.drop_last(), applied);
    }
}

proof fn lemma_unapplied_are_pending(ms: Seq<Migration>, applied: Seq<i64>, i: int)
    requires
        0 <= i < ms.len(),
        !applied.contains(ms[i].version),
    ensures
        versions_of(pending_of(ms, applied)).contains(ms[i].version),
    decreases ms.len(),
{
    let p = pending_of(ms, applied);
    if i == ms.len() - 1 {
        assert(p == pending_of(ms.drop_last(), applied).push(ms.last()));
        assert(versions_of(p)[p.len() - 1] == ms[i].version);
    } else {
        assert(ms.drop_last()[i] == ms[i]);
        lemma_unapplied_are_pending(ms.drop_last(), applied, i);
        let q = pending_of(ms.drop_last(), applied);
        let k = choose|k: int| 0 <= k < versions_of(q).len() && versions_of(q)[k] == ms[i].version;
        if applied.contains(ms.last().version) {
            assert(p == q);
        } else {
            assert(p == q.push(ms.last()));
            assert(p[k] == q[k]);
            assert(versions_of(p)[k] == ms[i].version);
        }
    }
}

/// Recording the due migrations as applied leaves none due: running the
/// migrations a second time applies nothing.
pub proof fn law_migrations_are_idempotent(applied: Seq<i64>)
    ensures
        pending_of(
            all_migrations(),
            applied + versions_of(pending_of(all_migrations(), applied)),
        ) == Seq::<Migration>::empty(),
{
    let ms = all_migrations();
    let after = applied + versions_of(pending_of(ms, applied));
    assert forall|i: int| 0 <= i < ms.len() implies after.contains(#[trigger] ms[i].version) by {
        if applied.contains(ms[i].version) {
            let k = choose|k: int| 0 <= k < applied.len() && applied[k] == ms[i].version;
            assert(after[k] == ms[i].version);
        } else {
            lemma_unapplied_are_pending(ms, applied, i);
            let p = versions_of(pending_of(ms, applied));
            let k = choose|k: int| 0 <= k < p.len() && p[k] == ms[i].version;
            assert(after[applied.len() + k] == ms[i].version);
        }
    }
    lemma_nothing_pending_when_all_applied(ms, after);
}

/// The migrations due are exactly the listed migrations whose version is not
/// recorded as applied.
pub proof fn law_pending_migrations_are_the_unapplied(ms: Seq<Migration>, applied: Seq<i64>)
    ensures
        forall|m: Migration|
            #[trigger] pending_of(ms, applied).contains(m) ==> ms.contains(m) && !applied.contains(
                m.version,
            ),
        forall|i: int|
            0 <= i < ms.len() && !applied.contains(#[trigger] ms[i].version) ==> pending_of(
                ms,
                applied,
            ).contains(ms[i]),
    decreases ms.len(),
{
    if ms.len() > 0 {
        let rest = ms.drop_last();
        law_pending_migrations_are_the_unapplied(rest, applied);
        let q = pending_of(rest, applied);
        let p = pending_of(ms, applied);
        assert forall|m: Migration| #[trigger] p.contains(m) implies ms.contains(m)
            && !applied.contains(m.version) by {
            let k = choose|k: int| 0 <= k < p.len() && p[k] == m;
            if applied.contains(ms.last().version) {
                assert(q.contains(m));
            } else if k < q.len() {
                assert(p[k] == q[k]);
                assert(q.contains(m));
            } else {
                assert(m == ms.last());
                assert(ms[ms.len() - 1] == m);
            }
            if q.contains(m) {
                let j = choose|j: int| 0 <= j < rest.len() && rest[j] == m;
                assert(ms[j] == m);
            }
        }
        assert forall|i: int| 0 <= i < ms.len() && !applied.contains(#[trigger] ms[i].version)
            implies p.contains(ms[i]) by {
            if i == ms.len() - 1 {
                assert(p[p.len() - 1] == ms[i]);
            } else {
                assert(rest[i] == ms[i]);
                assert(q.contains(rest[i]));
                let k = choose|k: int| 0 <= k < q.len() && q[k] == ms[i];
                if !applied.contains(ms.last().version) {
                    assert(p[k] == q[k]);
                }
            }
        }
    }
}

/// The schema version is the highest recorded version, and 0 when none is
/// recorded.
pub proof fn law_schema_version_is_the_highest(versions: Seq<i64>)
    ensures
        versions.len() == 0 ==> max_version(versions) == 0,
        versions.len() > 0 ==> versions.contains(max_version(versions)),
        forall|i: int| 0 <= i < versions.len() ==> #[trigger] versions[i] <= max_version(versions),
    decreases versions.len(),
{
    if versions.len() > 1 {
        let rest = versions.drop_last();
        law_schema_version_is_the_highest(rest);
        let k = choose|k: int| 0 <= k < rest.len() && rest[k] == max_version(rest);
        assert(versions[k] == rest[k]);
        assert forall|i: int| 0 <= i < versions.len() implies #[trigger] versions[i] <= max_version(
            versions,
        ) by {
            if i < versions.len() - 1 {
                assert(versions[i] == rest[i]);
            }
        }
    } else if versions.len() == 1 {
        assert(versions[0] == max_version(versions));
    }
}

/// The checksum recorded for a version is that of the first history entry
/// with the version; there is none when no entry has it.
pub proof fn law_recorded_checksums(applied: Seq<AppliedMigration>, version: i64)
    ensures
        stored_checksum(applied, version) is None <==> forall|k: int|
            0 <= k < applied.len() ==> #[trigger] applied[k].version != version,
        stored_checksum(applied, version) is Some ==> exists|k: int|
            0 <= k < applied.len() && #[trigger] applied[k].version == version
                && stored_checksum(applied, version) == Some(applied[k].checksum@) && forall|j: int|
                0 <= j < k ==> applied[j].version != version,
    decreases applied.len(),
{
    if applied.len() > 0 {
        let rest = applied.drop_first();
        law_recorded_checksums(rest, version);
        if applied[0].version != version {
            assert forall|k: int| 0 <= k < rest.len() implies rest[k] == applied[k + 1] by {}
            if stored_checksum(applied, version) is Some {
                let k = choose|k: int|
                    0 <= k < rest.len() && #[trigger] rest[k].version == version
                        && stored_checksum(rest, version) == Some(rest[k].checksum@) && forall|
                        j: int,
                    |
                        0 <= j < k ==> rest[j].version != version;
                assert(applied[k + 1] == rest[k]);
                assert forall|j: int| 0 <= j < k + 1 implies applied[j].version != version by {
                    if j > 0 {
                        assert(applied[j] == rest[j - 1]);
                    }
                }
            } else {
                assert forall|k: int| 0 <= k < applied.len() implies #[trigger] applied[k].version
                    != version by {
                    if k > 0 {
                        assert(applied[k] == rest[k - 1]);
                    }
                }
            }
        }
    }
}

/// The migration history is accepted exactly when every listed migration
/// that is recorded carries its current checksum; otherwise the refusal
/// names a listed migration whose recorded checksum differs.
pub proof fn law_changed_migrations_are_refused(ms: Seq<Migration>, applied: Seq<AppliedMigration>)
    ensures
        first_mismatch(ms, applied) is None <==> forall|i: int|
            0 <= i < ms.len() ==> (stored_checksum(applied, #[trigger] ms[i].version) matches Some(c)
                ==> c == checksum_of(ms[i].sql)),
        first_mismatch(ms, applied) matches Some(v) ==> exists|i: int|
            0 <= i < ms.len() && #[trigger] ms[i].version == v && stored_checksum(applied, v) is Some
                && stored_checksum(applied, v)->0 != checksum_of(ms[i].sql),
    decreases ms.len(),
{
    if ms.len() > 0 {
        let rest = ms.drop_first();
        law_changed_migrations_are_refused(rest, applied);
        assert forall|i: int| 0 <= i < rest.len() implies rest[i] == ms[i + 1] by {}
        if first_mismatch(ms, applied) is None {
            assert forall|i: int| 0 <= i < ms.len() implies (stored_checksum(
                applied,
                #[trigger] ms[i].version,
            ) matches Some(c) ==> c == checksum_of(ms[i].sql)) by {
                if i > 0 {
                    assert(ms[i] == rest[i - 1]);
                }
            }
        } else if first_mismatch(ms, applied) != first_mismatch(rest, applied) {
            assert(ms[0].version == first_mismatch(ms, applied)->0);
        } else {
            let v = first_mismatch(ms, applied)->0;
            let i = choose|i: int|
                0 <= i < rest.len() && #[trigger] rest[i].version == v && stored_checksum(applied, v)
                    is Some && stored_checksum(applied, v)->0 != checksum_of(rest[i].sql);
            assert(ms[i + 1] == rest[i]);
        }
        if forall|i: int|
            0 <= i < ms.len() ==> (stored_checksum(applied, #[trigger] ms[i].version) matches Some(c)
                ==> c == checksum_of(ms[i].sql)) {
            assert forall|i: int| 0 <= i < rest.len() implies (stored_checksum(
                applied,
                #[trigger] rest[i].version,
            ) matches Some(c) ==> c == checksum_of(rest[i].sql)) by {
                assert(rest[i] == ms[i + 1]);
            }
            assert(stored_checksum(applied, ms[0].version) matches Some(c) ==> c == checksum_of(
                ms[0].sql,
            ));
        }
    }
}

} // verus!
