use precios_carburantes::migrations::{
    get_hash, get_migration_hashes, legacy_migration_step, migration, migration_step,
    MigrationStep, LEGACY_MIGRATION_COUNT, MIGRATION_COUNT,
};

const EXPECTED_HASHES: [&str; 5] = [
    "a494e8aa3032a04208bca68d1da447f55b4371ab62004dbc965b0f8efadb34d6",
    "7f5233a588af8ff66b32dafd726c7b1ba23364a8024525a3bdfa948c0b04f5c7",
    "cf17ba48fc7257e0771b54e796609f7f90bb7242a6b1651b8fdcb974cdffded2",
    "d5e06bac9e7f51ac2d6abddff5203c6652b5f555d78ad2c5fedba3ce2b28efa3",
    "115432cef68e72fb30d923ace1d619f9ebeb76542288aa178c9f0e356a7215b0",
];

#[test]
fn hash_of_known_statements() {
    assert_eq!(
        get_hash(&["abc"]),
        "ba7816bf8f01cfea414140de5dae2223b00361a396177a9cb410ff61f20015ad"
    );
    assert_eq!(
        get_hash(&["a", "bc"]),
        "ba7816bf8f01cfea414140de5dae2223b00361a396177a9cb410ff61f20015ad"
    );
    assert_eq!(
        get_hash(&[]),
        "e3b0c44298fc1c149afbf4c8996fb92427ae41e4649b934ca495991b7852b855"
    );
}

#[test]
fn migration_hashes_are_stable() {
    let hashes = get_migration_hashes();
    assert_eq!(hashes.len(), MIGRATION_COUNT);
    for (i, (index, hash)) in hashes.iter().enumerate() {
        assert_eq!(*index, i);
        assert_eq!(hash, EXPECTED_HASHES[i]);
    }
}

#[test]
fn migration_statement_counts() {
    let counts: Vec<usize> = (0..MIGRATION_COUNT).map(|i| migration(i).len()).collect();
    assert_eq!(counts, vec![2, 4, 1, 1, 2]);
    assert!(migration(0)[0].starts_with("CREATE TABLE IF NOT EXISTS estaciones"));
    assert!(migration(4)[1].contains("idx_user_roles_username"));
    assert_eq!(LEGACY_MIGRATION_COUNT, 3);
}

#[test]
fn migration_steps() {
    let expected = EXPECTED_HASHES[0].to_string();
    assert_eq!(migration_step(&expected, &None), MigrationStep::Apply);
    assert_eq!(migration_step(&expected, &Some(expected.clone())), MigrationStep::AlreadyApplied);
    assert_eq!(
        migration_step(&expected, &Some(EXPECTED_HASHES[1].to_string())),
        MigrationStep::HashMismatch
    );
}

#[test]
fn applied_migration_is_not_reapplied() {
    let expected = get_hash(&migration(2));
    assert_eq!(migration_step(&expected, &None), MigrationStep::Apply);
    let recorded = Some(expected.clone());
    assert_eq!(migration_step(&expected, &recorded), MigrationStep::AlreadyApplied);
}

#[test]
fn legacy_migration_steps() {
    assert_eq!(legacy_migration_step(-5, None), MigrationStep::Apply);
    assert_eq!(legacy_migration_step(-5, Some(-5)), MigrationStep::AlreadyApplied);
    assert_eq!(legacy_migration_step(-5, Some(5)), MigrationStep::HashMismatch);
}

#[test]
fn hash_depends_on_joined_text_only() {
    assert_eq!(get_hash(&["ab", "c"]), get_hash(&["abc"]));
    assert_eq!(get_hash(&["", "abc", ""]), get_hash(&["abc"]));
    for (_, h) in get_migration_hashes() {
        assert_eq!(h.len(), 64);
        assert!(h.chars().all(|c| c.is_ascii_digit() || ('a'..='f').contains(&c)));
    }
}
