use precios_carburantes::regions::{ccaa_table, provincias_table, region_code_text};

#[test]
fn community_table() {
    let t = ccaa_table();
    assert_eq!(t.len(), 19);
    assert_eq!((t[0].id, t[0].name), (16, "País Vasco"));
    assert_eq!((t[18].id, t[18].name), (5, "Islas Canarias"));
}

#[test]
fn province_table() {
    let t = provincias_table();
    assert_eq!(t.len(), 52);
    assert_eq!((t[0].id, t[0].ccaa, t[0].name), (48, 16, "BIZKAIA"));
    assert_eq!((t[51].id, t[51].ccaa, t[51].name), (35, 5, "PALMAS (LAS)"));
}

#[test]
fn every_province_has_its_community() {
    let c = ccaa_table();
    for p in provincias_table() {
        assert!(c.iter().any(|x| x.id == p.ccaa), "{}", p.name);
    }
}

#[test]
fn codes_are_unique() {
    let mut ids: Vec<u8> = provincias_table().iter().map(|p| p.id).collect();
    ids.sort();
    ids.dedup();
    assert_eq!(ids.len(), 52);
    let mut ids: Vec<u8> = ccaa_table().iter().map(|p| p.id).collect();
    ids.sort();
    ids.dedup();
    assert_eq!(ids.len(), 19);
}

#[test]
fn codes_have_two_digits() {
    assert_eq!(region_code_text(1), "01");
    assert_eq!(region_code_text(16), "16");
    assert_eq!(region_code_text(0), "00");
    assert_eq!(region_code_text(99), "99");
}
