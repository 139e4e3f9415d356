use vstd::prelude::*;
use vstd::utf8::encode_utf8;
use crate::digest::{sha256, sha256_of};
use crate::hex::{hex_lower, hex_lower_spec, is_lower_hex_text, lemma_hex_lower_digits, lemma_hex_lower_len};

verus! {

pub const CREATE_STATIONS_TABLE: &'static str = "CREATE TABLE IF NOT EXISTS estaciones (
            id INTEGER PRIMARY KEY,
            rotulo TEXT,
            direccion TEXT,
            margen TEXT,
            cp TEXT,
            horario TEXT,
            municipio TEXT,
            localidad TEXT,
            provincia TEXT,
            id_municipio TEXT,
            id_provincia TEXT,
            id_ccaa TEXT,
            longitud REAL,
            latitud REAL,
            first_seen TEXT,
            last_seen TEXT
        )";

pub const CREATE_PRICES_TABLE: &'static str = "CREATE TABLE IF NOT EXISTS precios (
            fecha TEXT,
            id_estacion INTEGER,
            gasoleo_a REAL,
            gasolina_95 REAL,
            PRIMARY KEY (fecha, id_estacion),
            FOREIGN KEY (id_estacion) REFERENCES estaciones(id)
        )";

pub const CREATE_STATION_COORDS_INDEX: &'static str = "CREATE INDEX IF NOT EXISTS idx_estaciones_coords ON estaciones(latitud, longitud)";

pub const CREATE_PRICE_STATION_DATE_INDEX: &'static str = "CREATE INDEX IF NOT EXISTS idx_precios_estacion_fecha ON precios(id_estacion, fecha)";

pub const CREATE_STATION_TOWN_INDEX: &'static str = "CREATE INDEX IF NOT EXISTS idx_estaciones_municipio ON estaciones(municipio)";

pub const CREATE_STATION_BRAND_INDEX: &'static str = "CREATE INDEX IF NOT EXISTS idx_estaciones_rotulo ON estaciones(rotulo)";

pub const CREATE_PRICE_DATE_INDEX: &'static str = "CREATE INDEX IF NOT EXISTS idx_precios_fecha_solo ON precios(fecha)";

pub const CREATE_USER_CONFIGS_TABLE: &'static str = "CREATE TABLE IF NOT EXISTS user_configs (
            username TEXT PRIMARY KEY,
            display_name TEXT NOT NULL,
            last_filter TEXT NOT NULL DEFAULT 'all'
        )";

pub const CREATE_USER_ROLES_TABLE: &'static str = "CREATE TABLE IF NOT EXISTS user_roles (
            username TEXT NOT NULL,
            role TEXT NOT NULL,
            PRIMARY KEY (username, role)
        )";

pub const CREATE_USER_ROLES_INDEX: &'static str = "CREATE INDEX IF NOT EXISTS idx_user_roles_username ON user_roles(username)";

/// Number of schema migrations, in the order in which they are applied.
pub const MIGRATION_COUNT: usize = 5;

/// Number of migrations known to the stand-alone price loader: the first ones
/// of the same list.
pub const LEGACY_MIGRATION_COUNT: usize = 3;

/// The statements of migration `index`, as text.
pub open spec fn migration_spec(index: int) -> Seq<Seq<char>> {
    if index == 0 {
        seq![CREATE_STATIONS_TABLE@, CREATE_PRICES_TABLE@]
    } else if index == 1 {
        seq![
            CREATE_STATION_COORDS_INDEX@,
            CREATE_PRICE_STATION_DATE_INDEX@,
            CREATE_STATION_TOWN_INDEX@,
            CREATE_STATION_BRAND_INDEX@,
        ]
    } else if index == 2 {
        seq![CREATE_PRICE_DATE_INDEX@]
    } else if index == 3 {
        seq![CREATE_USER_CONFIGS_TABLE@]
    } else if index == 4 {
        seq![CREATE_USER_ROLES_TABLE@, CREATE_USER_ROLES_INDEX@]
    } else {
        Seq::empty()
    }
}

/// The text of each statement of a list.
pub open spec fn texts_of(stmts: Seq<&str>) -> Seq<Seq<char>> {
    stmts.map_values(|s: &str| s@)
}

/// The UTF-8 bytes of the statements, one after the other.
pub open spec fn joined_bytes(stmts: Seq<Seq<char>>) -> Seq<u8>
    decreases stmts.len(),
{
    if stmts.len() == 0 {
        Seq::empty()
    } else {
        joined_bytes(stmts.drop_last()) + encode_utf8(stmts.last())
    }
}

/// The recorded hash of a migration: the lowercase hexadecimal SHA-256 of
/// its statements' bytes, one after the other.
pub open spec fn migration_hash_spec(stmts: Seq<Seq<char>>) -> Seq<char> {
    hex_lower_spec(sha256_of(joined_bytes(stmts)))
}

/// The statements of migration `index`.
pub fn migration(index: usize) -> (res: Vec<&'static str>)
    requires
        index < MIGRATION_COUNT,
    ensures
        texts_of(res@) == migration_spec(index as int),
{
    let res = if index == 0 {
        vec![CREATE_STATIONS_TABLE, CREATE_PRICES_TABLE]
    } else if index == 1 {
        vec![
            CREATE_STATION_COORDS_INDEX,
            CREATE_PRICE_STATION_DATE_INDEX,
            CREATE_STATION_TOWN_INDEX,
            CREATE_STATION_BRAND_INDEX,
        ]
    } else if index == 2 {
        vec![CREATE_PRICE_DATE_INDEX]
    } else if index == 3 {
        vec![CREATE_USER_CONFIGS_TABLE]
    } else {
        vec![CREATE_USER_ROLES_TABLE, CREATE_USER_ROLES_INDEX]
    };
    assert(texts_of(res@) =~= migration_spec(index as int));
    res
}

/// The hash under which a migration made of `mig` is recorded.
pub fn get_hash(mig: &[&str]) -> (res: String)
    ensures
        res@ == migration_hash_spec(texts_of(mig@)),
        res@.len() == 64,
        is_lower_hex_text(res@),
{
    let mut bytes: Vec<u8> = Vec::new();
    let mut i: usize = 0;
    while i < mig.len()
        invariant
            i <= mig@.len(),
            bytes@ == joined_bytes(texts_of(mig@.take(i as int))),
        decreases mig@.len() - i,
    {
        let stmt: &str = mig[i];
        let stmt_bytes = stmt.as_bytes();
        let ghost before = bytes@;
        bytes.extend_from_slice(stmt_bytes);
        proof {
            assert(bytes@ =~= before + stmt_bytes@);
            assert(texts_of(mig@.take(i + 1)).drop_last() =~= texts_of(mig@.take(i as int)));
            assert(texts_of(mig@.take(i + 1)).last() == stmt@);
        }
        i = i + 1;
    }
    proof {
        assert(mig@.take(i as int) =~= mig@);
    }
    let digest = sha256(bytes.as_slice());
    proof {
        lemma_hex_lower_len(digest@);
        lemma_hex_lower_digits(digest@);
    }
    hex_lower(digest.as_slice())
}

/// The index and recorded hash of every migration, in order.
pub fn get_migration_hashes() -> (res: Vec<(usize, String)>)
    ensures
        res@.len() == MIGRATION_COUNT,
        forall|i: int|
            0 <= i < MIGRATION_COUNT ==> (#[trigger] res@[i]).0 == i && res@[i].1@
                == migration_hash_spec(migration_spec(i)) && res@[i].1@.len() == 64
                && is_lower_hex_text(res@[i].1@),
{
    let mut res: Vec<(usize, String)> = Vec::new();
    let mut i: usize = 0;
    while i < MIGRATION_COUNT
        invariant
            i <= MIGRATION_COUNT,
            res@.len() == i,
            forall|j: int|
                0 <= j < i ==> (#[trigger] res@[j]).0 == j && res@[j].1@
                    == migration_hash_spec(migration_spec(j)) && res@[j].1@.len() == 64
                    && is_lower_hex_text(res@[j].1@),
        decreases MIGRATION_COUNT - i,
    {
        let stmts = migration(i);
        let hash = get_hash(stmts.as_slice());
        res.push((i, hash));
        i = i + 1;
    }
    res
}

/// What to do with one migration, given what the database recorded for it.
#[derive(PartialEq, Eq, Structural, Debug, Clone, Copy)]
pub enum MigrationStep {
    /// Nothing is recorded: run the statements and record the hash.
    Apply,
    /// The recorded hash is the expected one: nothing to do.
    AlreadyApplied,
    /// Another hash is recorded: the schema history diverged and setup stops.
    HashMismatch,
}

/// The step for a migration whose expected hash is `expected`, when
/// `recorded` is what the database holds for its index.
pub open spec fn migration_step_spec<H>(expected: H, recorded: Option<H>) -> MigrationStep {
    match recorded {
        None => MigrationStep::Apply,
        Some(r) => if r == expected {
            MigrationStep::AlreadyApplied
        } else {
            MigrationStep::HashMismatch
        },
    }
}

/// The text of an optional string.
pub open spec fn text_option(o: Option<String>) -> Option<Seq<char>> {
    match o {
        Some(s) => Some(s@),
        None => None,
    }
}

/// Decides the step for a migration of the service, whose hashes are text.
pub fn migration_step(expected: &String, recorded: &Option<String>) -> (step: MigrationStep)
    ensures
        step == migration_step_spec(expected@, text_option(*recorded)),
{
    match recorded {
        None => MigrationStep::Apply,
        Some(r) => if r.eq(expected) {
            MigrationStep::AlreadyApplied
        } else {
            MigrationStep::HashMismatch
        },
    }
}

/// Decides the step for a migration of the stand-alone loader, whose hashes
/// are integers.
pub fn legacy_migration_step(expected: i64, recorded: Option<i64>) -> (step: MigrationStep)
    ensures
        step == migration_step_spec(expected, recorded),
{
    match recorded {
        None => MigrationStep::Apply,
        Some(r) => if r == expected {
            MigrationStep::AlreadyApplied
        } else {
            MigrationStep::HashMismatch
        },
    }
}

/// Applying a migration records its expected hash, and a migration whose
/// expected hash is recorded is never applied again: the setup is idempotent.
pub proof fn lemma_recorded_migration_not_reapplied<H>(expected: H)
    ensures
        migration_step_spec(expected, Some(expected)) == MigrationStep::AlreadyApplied,
        migration_step_spec(expected, None::<H>) == MigrationStep::Apply,
{
}

/// A recorded text hash of a migration equals the expected one only when the
/// digests they render are equal.
pub proof fn lemma_hash_match_is_digest_match(a: Seq<Seq<char>>, b: Seq<Seq<char>>)
    requires
        migration_hash_spec(a) == migration_hash_spec(b),
    ensures
        sha256_of(joined_bytes(a)) == sha256_of(joined_bytes(b)),
{
    crate::hex::lemma_hex_lower_injective(sha256_of(joined_bytes(a)), sha256_of(joined_bytes(b)));
}

/// The characters of the statements, one after the other.
pub open spec fn joined_texts(stmts: Seq<Seq<char>>) -> Seq<char>
    decreases stmts.len(),
{
    if stmts.len() == 0 {
        Seq::empty()
    } else {
        joined_texts(stmts.drop_last()) + stmts.last()
    }
}

proof fn lemma_encode_utf8_append(a: Seq<char>, b: Seq<char>)
    ensures
        encode_utf8(a + b) == encode_utf8(a) + encode_utf8(b),
    decreases a.len(),
{
    if a.len() == 0 {
        assert(a + b =~= b);
        assert(encode_utf8(a) =~= Seq::<u8>::empty());
        assert(Seq::<u8>::empty() + encode_utf8(b) =~= encode_utf8(b));
    } else {
        assert((a + b)[0] == a[0]);
        assert((a + b).drop_first() =~= a.drop_first() + b);
        lemma_encode_utf8_append(a.drop_first(), b);
        assert(encode_utf8(a + b) =~= encode_utf8(a) + encode_utf8(b));
    }
}

proof fn lemma_joined_bytes_are_encoded_text(stmts: Seq<Seq<char>>)
    ensures
        joined_bytes(stmts) == encode_utf8(joined_texts(stmts)),
    decreases stmts.len(),
{
    if stmts.len() > 0 {
        lemma_joined_bytes_are_encoded_text(stmts.drop_last());
        lemma_encode_utf8_append(joined_texts(stmts.drop_last()), stmts.last());
    }
}

/// The hash of a migration depends only on its statements' text put end to
/// end: splitting the same text into statements differently gives the same
/// hash.
pub proof fn lemma_hash_of_joined_text(a: Seq<Seq<char>>, b: Seq<Seq<char>>)
    requires
        joined_texts(a) == joined_texts(b),
    ensures
        migration_hash_spec(a) == migration_hash_spec(b),
{
    lemma_joined_bytes_are_encoded_text(a);
    lemma_joined_bytes_are_encoded_text(b);
}

/// What the database records for a migration after its step: the expected
/// hash once it is applied, what it held before otherwise.
pub open spec fn recorded_after<H>(expected: H, recorded: Option<H>) -> Option<H> {
    match migration_step_spec(expected, recorded) {
        MigrationStep::Apply => Some(expected),
        _ => recorded,
    }
}

/// The steps of a whole setup, migration by migration.
pub open spec fn setup_steps<H>(expected: Seq<H>, recorded: Seq<Option<H>>) -> Seq<MigrationStep> {
    Seq::new(expected.len(), |i: int| migration_step_spec(expected[i], recorded[i]))
}

/// What the database records after a whole setup, migration by migration.
pub open spec fn records_after_setup<H>(expected: Seq<H>, recorded: Seq<Option<H>>) -> Seq<Option<H>> {
    Seq::new(expected.len(), |i: int| recorded_after(expected[i], recorded[i]))
}

/// A setup that meets no mismatching hash leaves every migration recorded
/// under its expected hash, and a second setup then applies nothing.
pub proof fn lemma_setup_run<H>(expected: Seq<H>, recorded: Seq<Option<H>>)
    requires
        expected.len() == recorded.len(),
        forall|i: int|
            0 <= i < expected.len() ==> #[trigger] setup_steps(expected, recorded)[i]
                != MigrationStep::HashMismatch,
    ensures
        records_after_setup(expected, recorded).len() == expected.len(),
        forall|i: int|
            0 <= i < expected.len() ==> #[trigger] records_after_setup(expected, recorded)[i]
                == Some(expected[i]),
        forall|i: int|
            0 <= i < expected.len() ==> #[trigger] setup_steps(
                expected,
                records_after_setup(expected, recorded),
            )[i] == MigrationStep::AlreadyApplied,
{
    let after = records_after_setup(expected, recorded);
    assert forall|i: int| 0 <= i < expected.len() implies #[trigger] after[i] == Some(expected[i]) by {
        assert(setup_steps(expected, recorded)[i] != MigrationStep::HashMismatch);
    }
    assert forall|i: int| 0 <= i < expected.len() implies #[trigger] setup_steps(expected, after)[i]
        == MigrationStep::AlreadyApplied by {
        assert(after[i] == Some(expected[i]));
    }
}

} // verus!
