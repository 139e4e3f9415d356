use vstd::prelude::*;

verus! {

/// An autonomous community: its two-digit code and its name.
pub struct CcaaData {
    pub id: u8,
    pub name: &'static str,
}

/// A province: its two-digit code, the code of its community, and its name.
pub struct ProvinciaData {
    pub id: u8,
    pub ccaa: u8,
    pub name: &'static str,
}

pub open spec fn ccaa_view(c: CcaaData) -> (u8, Seq<char>) {
    (c.id, c.name@)
}

pub open spec fn provincia_view(p: ProvinciaData) -> (u8, u8, Seq<char>) {
    (p.id, p.ccaa, p.name@)
}

/// The autonomous communities, in the order in which the filter lists them.
pub open spec fn ccaa_spec() -> Seq<(u8, Seq<char>)> {
    seq![
        (16u8, "País Vasco"@),
        (12u8, "Galicia"@),
        (3u8, "Asturias"@),
        (9u8, "Cataluña"@),
        (8u8, "Castilla y León"@),
        (6u8, "Cantabria"@),
        (13u8, "Madrid"@),
        (15u8, "Navarra"@),
        (2u8, "Aragón"@),
        (10u8, "Comunidad Valenciana"@),
        (14u8, "Murcia"@),
        (17u8, "La Rioja"@),
        (4u8, "Islas Baleares"@),
        (19u8, "Melilla"@),
        (18u8, "Ceuta"@),
        (7u8, "Castilla-La Mancha"@),
        (1u8, "Andalucía"@),
        (11u8, "Extremadura"@),
        (5u8, "Islas Canarias"@),
    ]
}

/// The provinces, in the order in which the filter lists them.
pub open spec fn provincias_spec() -> Seq<(u8, u8, Seq<char>)> {
    seq![
        (48u8, 16u8, "BIZKAIA"@),
        (20u8, 16u8, "GIPUZKOA"@),
        (1u8, 16u8, "ARABA/ÁLAVA"@),
        (15u8, 12u8, "CORUÑA (A)"@),
        (27u8, 12u8, "LUGO"@),
        (36u8, 12u8, "PONTEVEDRA"@),
        (32u8, 12u8, "OURENSE"@),
        (33u8, 3u8, "ASTURIAS"@),
        (8u8, 9u8, "BARCELONA"@),
        (37u8, 8u8, "SALAMANCA"@),
        (39u8, 6u8, "CANTABRIA"@),
        (28u8, 13u8, "MADRID"@),
        (34u8, 8u8, "PALENCIA"@),
        (31u8, 15u8, "NAVARRA"@),
        (22u8, 2u8, "HUESCA"@),
        (50u8, 2u8, "ZARAGOZA"@),
        (44u8, 2u8, "TERUEL"@),
        (25u8, 9u8, "LLEIDA"@),
        (17u8, 9u8, "GIRONA"@),
        (43u8, 9u8, "TARRAGONA"@),
        (46u8, 10u8, "VALENCIA / VALÈNCIA"@),
        (3u8, 10u8, "ALICANTE"@),
        (12u8, 10u8, "CASTELLÓN / CASTELLÓ"@),
        (30u8, 14u8, "MURCIA"@),
        (26u8, 17u8, "RIOJA (LA)"@),
        (7u8, 4u8, "BALEARS (ILLES)"@),
        (52u8, 19u8, "MELILLA"@),
        (51u8, 18u8, "CEUTA"@),
        (13u8, 7u8, "CIUDAD REAL"@),
        (19u8, 7u8, "GUADALAJARA"@),
        (2u8, 7u8, "ALBACETE"@),
        (45u8, 7u8, "TOLEDO"@),
        (14u8, 1u8, "CÓRDOBA"@),
        (16u8, 7u8, "CUENCA"@),
        (24u8, 8u8, "LEÓN"@),
        (42u8, 8u8, "SORIA"@),
        (9u8, 8u8, "BURGOS"@),
        (40u8, 8u8, "SEGOVIA"@),
        (47u8, 8u8, "VALLADOLID"@),
        (49u8, 8u8, "ZAMORA"@),
        (5u8, 8u8, "ÁVILA"@),
        (23u8, 1u8, "JAÉN"@),
        (29u8, 1u8, "MÁLAGA"@),
        (18u8, 1u8, "GRANADA"@),
        (21u8, 1u8, "HUELVA"@),
        (11u8, 1u8, "CÁDIZ"@),
        (4u8, 1u8, "ALMERÍA"@),
        (10u8, 11u8, "CÁCERES"@),
        (6u8, 11u8, "BADAJOZ"@),
        (41u8, 1u8, "SEVILLA"@),
        (38u8, 5u8, "SANTA CRUZ DE TENERIFE"@),
        (35u8, 5u8, "PALMAS (LAS)"@),
    ]
}

/// The autonomous communities offered as filters.
pub fn ccaa_table() -> (res: Vec<CcaaData>)
    ensures
        res@.map_values(|c: CcaaData| ccaa_view(c)) == ccaa_spec(),
        res@.len() == 19,
        forall|i: int|
            0 <= i < res@.len() ==> (#[trigger] res@[i]).name@ == community_name(res@[i].id) && 1
                <= res@[i].id <= 19,
{
    let res = vec![
        CcaaData { id: 16, name: "País Vasco" },
        CcaaData { id: 12, name: "Galicia" },
        CcaaData { id: 3, name: "Asturias" },
        CcaaData { id: 9, name: "Cataluña" },
        CcaaData { id: 8, name: "Castilla y León" },
        CcaaData { id: 6, name: "Cantabria" },
        CcaaData { id: 13, name: "Madrid" },
        CcaaData { id: 15, name: "Navarra" },
        CcaaData { id: 2, name: "Aragón" },
        CcaaData { id: 10, name: "Comunidad Valenciana" },
        CcaaData { id: 14, name: "Murcia" },
        CcaaData { id: 17, name: "La Rioja" },
        CcaaData { id: 4, name: "Islas Baleares" },
        CcaaData { id: 19, name: "Melilla" },
        CcaaData { id: 18, name: "Ceuta" },
        CcaaData { id: 7, name: "Castilla-La Mancha" },
        CcaaData { id: 1, name: "Andalucía" },
        CcaaData { id: 11, name: "Extremadura" },
        CcaaData { id: 5, name: "Islas Canarias" },
    ];
    assert(res@.map_values(|c: CcaaData| ccaa_view(c)) =~= ccaa_spec());
    proof {
        lemma_communities_named_by_code();
        assert forall|i: int| 0 <= i < res@.len() implies (#[trigger] res@[i]).name@ == community_name(
            res@[i].id,
        ) && 1 <= res@[i].id <= 19 by {
            assert(ccaa_spec()[i] == ccaa_view(res@[i]));
        }
    }
    res
}

/// The provinces offered as filters.
pub fn provincias_table() -> (res: Vec<ProvinciaData>)
    ensures
        res@.map_values(|p: ProvinciaData| provincia_view(p)) == provincias_spec(),
        res@.len() == 52,
        forall|i: int|
            0 <= i < res@.len() ==> (#[trigger] res@[i]).name@ == province_name(res@[i].id)
                && res@[i].ccaa == province_community(res@[i].id) && 1 <= res@[i].id <= 52,
{
    let res = vec![
        ProvinciaData { id: 48, ccaa: 16, name: "BIZKAIA" },
        ProvinciaData { id: 20, ccaa: 16, name: "GIPUZKOA" },
        ProvinciaData { id: 1, ccaa: 16, name: "ARABA/ÁLAVA" },
        ProvinciaData { id: 15, ccaa: 12, name: "CORUÑA (A)" },
        ProvinciaData { id: 27, ccaa: 12, name: "LUGO" },
        ProvinciaData { id: 36, ccaa: 12, name: "PONTEVEDRA" },
        ProvinciaData { id: 32, ccaa: 12, name: "OURENSE" },
        ProvinciaData { id: 33, ccaa: 3, name: "ASTURIAS" },
        ProvinciaData { id: 8, ccaa: 9, name: "BARCELONA" },
        ProvinciaData { id: 37, ccaa: 8, name: "SALAMANCA" },
        ProvinciaData { id: 39, ccaa: 6, name: "CANTABRIA" },
        ProvinciaData { id: 28, ccaa: 13, name: "MADRID" },
        ProvinciaData { id: 34, ccaa: 8, name: "PALENCIA" },
        ProvinciaData { id: 31, ccaa: 15, name: "NAVARRA" },
        ProvinciaData { id: 22, ccaa: 2, name: "HUESCA" },
        ProvinciaData { id: 50, ccaa: 2, name: "ZARAGOZA" },
        ProvinciaData { id: 44, ccaa: 2, name: "TERUEL" },
        ProvinciaData { id: 25, ccaa: 9, name: "LLEIDA" },
        ProvinciaData { id: 17, ccaa: 9, name: "GIRONA" },
        ProvinciaData { id: 43, ccaa: 9, name: "TARRAGONA" },
        ProvinciaData { id: 46, ccaa: 10, name: "VALENCIA / VALÈNCIA" },
        ProvinciaData { id: 3, ccaa: 10, name: "ALICANTE" },
        ProvinciaData { id: 12, ccaa: 10, name: "CASTELLÓN / CASTELLÓ" },
        ProvinciaData { id: 30, ccaa: 14, name: "MURCIA" },
        ProvinciaData { id: 26, ccaa: 17, name: "RIOJA (LA)" },
        ProvinciaData { id: 7, ccaa: 4, name: "BALEARS (ILLES)" },
        ProvinciaData { id: 52, ccaa: 19, name: "MELILLA" },
        ProvinciaData { id: 51, ccaa: 18, name: "CEUTA" },
        ProvinciaData { id: 13, ccaa: 7, name: "CIUDAD REAL" },
        ProvinciaData { id: 19, ccaa: 7, name: "GUADALAJARA" },
        ProvinciaData { id: 2, ccaa: 7, name: "ALBACETE" },
        ProvinciaData { id: 45, ccaa: 7, name: "TOLEDO" },
        ProvinciaData { id: 14, ccaa: 1, name: "CÓRDOBA" },
        ProvinciaData { id: 16, ccaa: 7, name: "CUENCA" },
        ProvinciaData { id: 24, ccaa: 8, name: "LEÓN" },
        ProvinciaData { id: 42, ccaa: 8, name: "SORIA" },
        ProvinciaData { id: 9, ccaa: 8, name: "BURGOS" },
        ProvinciaData { id: 40, ccaa: 8, name: "SEGOVIA" },
        ProvinciaData { id: 47, ccaa: 8, name: "VALLADOLID" },
        ProvinciaData { id: 49, ccaa: 8, name: "ZAMORA" },
        ProvinciaData { id: 5, ccaa: 8, name: "ÁVILA" },
        ProvinciaData { id: 23, ccaa: 1, name: "JAÉN" },
        ProvinciaData { id: 29, ccaa: 1, name: "MÁLAGA" },
        ProvinciaData { id: 18, ccaa: 1, name: "GRANADA" },
        ProvinciaData { id: 21, ccaa: 1, name: "HUELVA" },
        ProvinciaData { id: 11, ccaa: 1, name: "CÁDIZ" },
        ProvinciaData { id: 4, ccaa: 1, name: "ALMERÍA" },
        ProvinciaData { id: 10, ccaa: 11, name: "CÁCERES" },
        ProvinciaData { id: 6, ccaa: 11, name: "BADAJOZ" },
        ProvinciaData { id: 41, ccaa: 1, name: "SEVILLA" },
        ProvinciaData { id: 38, ccaa: 5, name: "SANTA CRUZ DE TENERIFE" },
        ProvinciaData { id: 35, ccaa: 5, name: "PALMAS (LAS)" },
    ];
    assert(res@.map_values(|p: ProvinciaData| provincia_view(p)) =~= provincias_spec());
    proof {
        lemma_provinces_named_by_code();
        assert forall|i: int| 0 <= i < res@.len() implies (#[trigger] res@[i]).name@ == province_name(
            res@[i].id,
        ) && res@[i].ccaa == province_community(res@[i].id) && 1 <= res@[i].id <= 52 by {
            assert(provincias_spec()[i] == provincia_view(res@[i]));
        }
    }
    res
}

/// The decimal digit for a value below ten.
pub open spec fn decimal_digit(n: int) -> char {
    ((n + 48) as u8) as char
}

/// A region code as two decimal digits, as the filter writes it.
pub open spec fn region_code_text_spec(code: u8) -> Seq<char> {
    seq![decimal_digit(code as int / 10), decimal_digit(code as int % 10)]
}

fn digit_str(n: u8) -> (s: &'static str)
    requires
        n < 10,
    ensures
        s@ == seq![decimal_digit(n as int)],
{
    match n {
        0 => { proof { reveal_strlit("0"); } "0" },
        1 => { proof { reveal_strlit("1"); } "1" },
        2 => { proof { reveal_strlit("2"); } "2" },
        3 => { proof { reveal_strlit("3"); } "3" },
        4 => { proof { reveal_strlit("4"); } "4" },
        5 => { proof { reveal_strlit("5"); } "5" },
        6 => { proof { reveal_strlit("6"); } "6" },
        7 => { proof { reveal_strlit("7"); } "7" },
        8 => { proof { reveal_strlit("8"); } "8" },
        _ => { proof { reveal_strlit("9"); } "9" },
    }
}

/// Writes a region code as two decimal digits, with a leading zero below ten.
pub fn region_code_text(code: u8) -> (res: String)
    requires
        code < 100,
    ensures
        res@ == region_code_text_spec(code),
{
    let mut res = String::new();
    res.append(digit_str(code / 10));
    res.append(digit_str(code % 10));
    res
}

/// Whether a community with this code is listed.
pub open spec fn is_listed_ccaa(code: u8) -> bool {
    exists|j: int| 0 <= j < ccaa_spec().len() && (#[trigger] ccaa_spec()[j]).0 == code
}

/// The position of a listed community code.
pub open spec fn ccaa_position(code: u8) -> int {
    if code == 16 {
        0
    } else if code == 12 {
        1
    } else if code == 3 {
        2
    } else if code == 9 {
        3
    } else if code == 8 {
        4
    } else if code == 6 {
        5
    } else if code == 13 {
        6
    } else if code == 15 {
        7
    } else if code == 2 {
        8
    } else if code == 10 {
        9
    } else if code == 14 {
        10
    } else if code == 17 {
        11
    } else if code == 4 {
        12
    } else if code == 19 {
        13
    } else if code == 18 {
        14
    } else if code == 7 {
        15
    } else if code == 1 {
        16
    } else if code == 11 {
        17
    } else if code == 5 {
        18
    } else {
        -1
    }
}

/// The position of a listed province code.
pub open spec fn provincia_position(code: u8) -> int {
    if code == 48 {
        0
    } else if code == 20 {
        1
    } else if code == 1 {
        2
    } else if code == 15 {
        3
    } else if code == 27 {
        4
    } else if code == 36 {
        5
    } else if code == 32 {
        6
    } else if code == 33 {
        7
    } else if code == 8 {
        8
    } else if code == 37 {
        9
    } else if code == 39 {
        10
    } else if code == 28 {
        11
    } else if code == 34 {
        12
    } else if code == 31 {
        13
    } else if code == 22 {
        14
    } else if code == 50 {
        15
    } else if code == 44 {
        16
    } else if code == 25 {
        17
    } else if code == 17 {
        18
    } else if code == 43 {
        19
    } else if code == 46 {
        20
    } else if code == 3 {
        21
    } else if code == 12 {
        22
    } else if code == 30 {
        23
    } else if code == 26 {
        24
    } else if code == 7 {
        25
    } else if code == 52 {
        26
    } else if code == 51 {
        27
    } else if code == 13 {
        28
    } else if code == 19 {
        29
    } else if code == 2 {
        30
    } else if code == 45 {
        31
    } else if code == 14 {
        32
    } else if code == 16 {
        33
    } else if code == 24 {
        34
    } else if code == 42 {
        35
    } else if code == 9 {
        36
    } else if code == 40 {
        37
    } else if code == 47 {
        38
    } else if code == 49 {
        39
    } else if code == 5 {
        40
    } else if code == 23 {
        41
    } else if code == 29 {
        42
    } else if code == 18 {
        43
    } else if code == 21 {
        44
    } else if code == 11 {
        45
    } else if code == 4 {
        46
    } else if code == 10 {
        47
    } else if code == 6 {
        48
    } else if code == 41 {
        49
    } else if code == 38 {
        50
    } else if code == 35 {
        51
    } else {
        -1
    }
}

/// Every province belongs to a listed community.
pub proof fn lemma_provinces_in_listed_communities()
    ensures
        forall|i: int|
            0 <= i < provincias_spec().len() ==> is_listed_ccaa(#[trigger] provincias_spec()[i].1),
{
    assert forall|i: int| 0 <= i < provincias_spec().len() implies is_listed_ccaa(
        #[trigger] provincias_spec()[i].1,
    ) by {
        let code = provincias_spec()[i].1;
        if i == 0 {
            assert(code == 16);
            assert(ccaa_spec()[0].0 == code);
        } else if i == 1 {
            assert(code == 16);
            assert(ccaa_spec()[0].0 == code);
        } else if i == 2 {
            assert(code == 16);
            assert(ccaa_spec()[0].0 == code);
        } else if i == 3 {
            assert(code == 12);
            assert(ccaa_spec()[1].0 == code);
        } else if i == 4 {
            assert(code == 12);
            assert(ccaa_spec()[1].0 == code);
        } else if i == 5 {
            assert(code == 12);
            assert(ccaa_spec()[1].0 == code);
        } else if i == 6 {
            assert(code == 12);
            assert(ccaa_spec()[1].0 == code);
        } else if i == 7 {
            assert(code == 3);
            assert(ccaa_spec()[2].0 == code);
        } else if i == 8 {
            assert(code == 9);
            assert(ccaa_spec()[3].0 == code);
        } else if i == 9 {
            assert(code == 8);
            assert(ccaa_spec()[4].0 == code);
        } else if i == 10 {
            assert(code == 6);
            assert(ccaa_spec()[5].0 == code);
        } else if i == 11 {
            assert(code == 13);
            assert(ccaa_spec()[6].0 == code);
        } else if i == 12 {
            assert(code == 8);
            assert(ccaa_spec()[4].0 == code);
        } else if i == 13 {
            assert(code == 15);
            assert(ccaa_spec()[7].0 == code);
        } else if i == 14 {
            assert(code == 2);
            assert(ccaa_spec()[8].0 == code);
        } else if i == 15 {
            assert(code == 2);
            assert(ccaa_spec()[8].0 == code);
        } else if i == 16 {
            assert(code == 2);
            assert(ccaa_spec()[8].0 == code);
        } else if i == 17 {
            assert(code == 9);
            assert(ccaa_spec()[3].0 == code);
        } else if i == 18 {
            assert(code == 9);
            assert(ccaa_spec()[3].0 == code);
        } else if i == 19 {
            assert(code == 9);
            assert(ccaa_spec()[3].0 == code);
        } else if i == 20 {
            assert(code == 10);
            assert(ccaa_spec()[9].0 == code);
        } else if i == 21 {
            assert(code == 10);
            assert(ccaa_spec()[9].0 == code);
        } else if i == 22 {
            assert(code == 10);
            assert(ccaa_spec()[9].0 == code);
        } else if i == 23 {
            assert(code == 14);
            assert(ccaa_spec()[10].0 == code);
        } else if i == 24 {
            assert(code == 17);
            assert(ccaa_spec()[11].0 == code);
        } else if i == 25 {
            assert(code == 4);
            assert(ccaa_spec()[12].0 == code);
        } else if i == 26 {
            assert(code == 19);
            assert(ccaa_spec()[13].0 == code);
        } else if i == 27 {
            assert(code == 18);
            assert(ccaa_spec()[14].0 == code);
        } else if i == 28 {
            assert(code == 7);
            assert(ccaa_spec()[15].0 == code);
        } else if i == 29 {
            assert(code == 7);
            assert(ccaa_spec()[15].0 == code);
        } else if i == 30 {
            assert(code == 7);
            assert(ccaa_spec()[15].0 == code);
        } else if i == 31 {
            assert(code == 7);
            assert(ccaa_spec()[15].0 == code);
        } else if i == 32 {
            assert(code == 1);
            assert(ccaa_spec()[16].0 == code);
        } else if i == 33 {
            assert(code == 7);
            assert(ccaa_spec()[15].0 == code);
        } else if i == 34 {
            assert(code == 8);
            assert(ccaa_spec()[4].0 == code);
        } else if i == 35 {
            assert(code == 8);
            assert(ccaa_spec()[4].0 == code);
        } else if i == 36 {
            assert(code == 8);
            assert(ccaa_spec()[4].0 == code);
        } else if i == 37 {
            assert(code == 8);
            assert(ccaa_spec()[4].0 == code);
        } else if i == 38 {
            assert(code == 8);
            assert(ccaa_spec()[4].0 == code);
        } else if i == 39 {
            assert(code == 8);
            assert(ccaa_spec()[4].0 == code);
        } else if i == 40 {
            assert(code == 8);
            assert(ccaa_spec()[4].0 == code);
        } else if i == 41 {
            assert(code == 1);
            assert(ccaa_spec()[16].0 == code);
        } else if i == 42 {
            assert(code == 1);
            assert(ccaa_spec()[16].0 == code);
        } else if i == 43 {
            assert(code == 1);
            assert(ccaa_spec()[16].0 == code);
        } else if i == 44 {
            assert(code == 1);
            assert(ccaa_spec()[16].0 == code);
        } else if i == 45 {
            assert(code == 1);
            assert(ccaa_spec()[16].0 == code);
        } else if i == 46 {
            assert(code == 1);
            assert(ccaa_spec()[16].0 == code);
        } else if i == 47 {
            assert(code == 11);
            assert(ccaa_spec()[17].0 == code);
        } else if i == 48 {
            assert(code == 11);
            assert(ccaa_spec()[17].0 == code);
        } else if i == 49 {
            assert(code == 1);
            assert(ccaa_spec()[16].0 == code);
        } else if i == 50 {
            assert(code == 5);
            assert(ccaa_spec()[18].0 == code);
        } else if i == 51 {
            assert(code == 5);
            assert(ccaa_spec()[18].0 == code);
        }
    }
}

/// No two communities share a code.
pub proof fn lemma_ccaa_codes_distinct()
    ensures
        forall|i: int, j: int|
            0 <= i < ccaa_spec().len() && 0 <= j < ccaa_spec().len() && i != j ==> (
            #[trigger] ccaa_spec()[i]).0 != (#[trigger] ccaa_spec()[j]).0,
{
    assert forall|i: int| 0 <= i < ccaa_spec().len() implies ccaa_position(
        (#[trigger] ccaa_spec()[i]).0,
    ) == i by {
        if i == 0 {
        } else if i == 1 {
        } else if i == 2 {
        } else if i == 3 {
        } else if i == 4 {
        } else if i == 5 {
        } else if i == 6 {
        } else if i == 7 {
        } else if i == 8 {
        } else if i == 9 {
        } else if i == 10 {
        } else if i == 11 {
        } else if i == 12 {
        } else if i == 13 {
        } else if i == 14 {
        } else if i == 15 {
        } else if i == 16 {
        } else if i == 17 {
        } else if i == 18 {
        }
    }
}

/// No two provinces share a code.
pub proof fn lemma_provincia_codes_distinct()
    ensures
        forall|i: int, j: int|
            0 <= i < provincias_spec().len() && 0 <= j < provincias_spec().len() && i != j ==> (
            #[trigger] provincias_spec()[i]).0 != (#[trigger] provincias_spec()[j]).0,
{
    assert forall|i: int| 0 <= i < provincias_spec().len() implies provincia_position(
        (#[trigger] provincias_spec()[i]).0,
    ) == i by {
        if i == 0 {
        } else if i == 1 {
        } else if i == 2 {
        } else if i == 3 {
        } else if i == 4 {
        } else if i == 5 {
        } else if i == 6 {
        } else if i == 7 {
        } else if i == 8 {
        } else if i == 9 {
        } else if i == 10 {
        } else if i == 11 {
        } else if i == 12 {
        } else if i == 13 {
        } else if i == 14 {
        } else if i == 15 {
        } else if i == 16 {
        } else if i == 17 {
        } else if i == 18 {
        } else if i == 19 {
        } else if i == 20 {
        } else if i == 21 {
        } else if i == 22 {
        } else if i == 23 {
        } else if i == 24 {
        } else if i == 25 {
        } else if i == 26 {
        } else if i == 27 {
        } else if i == 28 {
        } else if i == 29 {
        } else if i == 30 {
        } else if i == 31 {
        } else if i == 32 {
        } else if i == 33 {
        } else if i == 34 {
        } else if i == 35 {
        } else if i == 36 {
        } else if i == 37 {
        } else if i == 38 {
        } else if i == 39 {
        } else if i == 40 {
        } else if i == 41 {
        } else if i == 42 {
        } else if i == 43 {
        } else if i == 44 {
        } else if i == 45 {
        } else if i == 46 {
        } else if i == 47 {
        } else if i == 48 {
        } else if i == 49 {
        } else if i == 50 {
        } else if i == 51 {
        }
    }
}

/// The official name of each community code.
pub open spec fn community_name(code: u8) -> Seq<char> {
    if code == 1 {
        "Andalucía"@
    } else if code == 2 {
        "Aragón"@
    } else if code == 3 {
        "Asturias"@
    } else if code == 4 {
        "Islas Baleares"@
    } else if code == 5 {
        "Islas Canarias"@
    } else if code == 6 {
        "Cantabria"@
    } else if code == 7 {
        "Castilla-La Mancha"@
    } else if code == 8 {
        "Castilla y León"@
    } else if code == 9 {
        "Cataluña"@
    } else if code == 10 {
        "Comunidad Valenciana"@
    } else if code == 11 {
        "Extremadura"@
    } else if code == 12 {
        "Galicia"@
    } else if code == 13 {
        "Madrid"@
    } else if code == 14 {
        "Murcia"@
    } else if code == 15 {
        "Navarra"@
    } else if code == 16 {
        "País Vasco"@
    } else if code == 17 {
        "La Rioja"@
    } else if code == 18 {
        "Ceuta"@
    } else if code == 19 {
        "Melilla"@
    } else {
        Seq::empty()
    }
}

/// The official name of each province code.
pub open spec fn province_name(code: u8) -> Seq<char> {
    if code == 1 {
        "ARABA/ÁLAVA"@
    } else if code == 2 {
        "ALBACETE"@
    } else if code == 3 {
        "ALICANTE"@
    } else if code == 4 {
        "ALMERÍA"@
    } else if code == 5 {
        "ÁVILA"@
    } else if code == 6 {
        "BADAJOZ"@
    } else if code == 7 {
        "BALEARS (ILLES)"@
    } else if code == 8 {
        "BARCELONA"@
    } else if code == 9 {
        "BURGOS"@
    } else if code == 10 {
        "CÁCERES"@
    } else if code == 11 {
        "CÁDIZ"@
    } else if code == 12 {
        "CASTELLÓN / CASTELLÓ"@
    } else if code == 13 {
        "CIUDAD REAL"@
    } else if code == 14 {
        "CÓRDOBA"@
    } else if code == 15 {
        "CORUÑA (A)"@
    } else if code == 16 {
        "CUENCA"@
    } else if code == 17 {
        "GIRONA"@
    } else if code == 18 {
        "GRANADA"@
    } else if code == 19 {
        "GUADALAJARA"@
    } else if code == 20 {
        "GIPUZKOA"@
    } else if code == 21 {
        "HUELVA"@
    } else if code == 22 {
        "HUESCA"@
    } else if code == 23 {
        "JAÉN"@
    } else if code == 24 {
        "LEÓN"@
    } else if code == 25 {
        "LLEIDA"@
    } else if code == 26 {
        "RIOJA (LA)"@
    } else if code == 27 {
        "LUGO"@
    } else if code == 28 {
        "MADRID"@
    } else if code == 29 {
        "MÁLAGA"@
    } else if code == 30 {
        "MURCIA"@
    } else if code == 31 {
        "NAVARRA"@
    } else if code == 32 {
        "OURENSE"@
    } else if code == 33 {
        "ASTURIAS"@
    } else if code == 34 {
        "PALENCIA"@
    } else if code == 35 {
        "PALMAS (LAS)"@
    } else if code == 36 {
        "PONTEVEDRA"@
    } else if code == 37 {
        "SALAMANCA"@
    } else if code == 38 {
        "SANTA CRUZ DE TENERIFE"@
    } else if code == 39 {
        "CANTABRIA"@
    } else if code == 40 {
        "SEGOVIA"@
    } else if code == 41 {
        "SEVILLA"@
    } else if code == 42 {
        "SORIA"@
    } else if code == 43 {
        "TARRAGONA"@
    } else if code == 44 {
        "TERUEL"@
    } else if code == 45 {
        "TOLEDO"@
    } else if code == 46 {
        "VALENCIA / VALÈNCIA"@
    } else if code == 47 {
        "VALLADOLID"@
    } else if code == 48 {
        "BIZKAIA"@
    } else if code == 49 {
        "ZAMORA"@
    } else if code == 50 {
        "ZARAGOZA"@
    } else if code == 51 {
        "CEUTA"@
    } else if code == 52 {
        "MELILLA"@
    } else {
        Seq::empty()
    }
}

/// The community that each province code belongs to.
pub open spec fn province_community(code: u8) -> u8 {
    if code == 1 {
        16
    } else if code == 2 {
        7
    } else if code == 3 {
        10
    } else if code == 4 {
        1
    } else if code == 5 {
        8
    } else if code == 6 {
        11
    } else if code == 7 {
        4
    } else if code == 8 {
        9
    } else if code == 9 {
        8
    } else if code == 10 {
        11
    } else if code == 11 {
        1
    } else if code == 12 {
        10
    } else if code == 13 {
        7
    } else if code == 14 {
        1
    } else if code == 15 {
        12
    } else if code == 16 {
        7
    } else if code == 17 {
        9
    } else if code == 18 {
        1
    } else if code == 19 {
        7
    } else if code == 20 {
        16
    } else if code == 21 {
        1
    } else if code == 22 {
        2
    } else if code == 23 {
        1
    } else if code == 24 {
        8
    } else if code == 25 {
        9
    } else if code == 26 {
        17
    } else if code == 27 {
        12
    } else if code == 28 {
        13
    } else if code == 29 {
        1
    } else if code == 30 {
        14
    } else if code == 31 {
        15
    } else if code == 32 {
        12
    } else if code == 33 {
        3
    } else if code == 34 {
        8
    } else if code == 35 {
        5
    } else if code == 36 {
        12
    } else if code == 37 {
        8
    } else if code == 38 {
        5
    } else if code == 39 {
        6
    } else if code == 40 {
        8
    } else if code == 41 {
        1
    } else if code == 42 {
        8
    } else if code == 43 {
        9
    } else if code == 44 {
        2
    } else if code == 45 {
        7
    } else if code == 46 {
        10
    } else if code == 47 {
        8
    } else if code == 48 {
        16
    } else if code == 49 {
        8
    } else if code == 50 {
        2
    } else if code == 51 {
        18
    } else if code == 52 {
        19
    } else {
        0
    }
}

/// Every listed community carries the official name of its code, and the
/// codes listed are exactly 1 to 19.
pub proof fn lemma_communities_named_by_code()
    ensures
        forall|i: int|
            0 <= i < ccaa_spec().len() ==> (#[trigger] ccaa_spec()[i]).1 == community_name(
                ccaa_spec()[i].0,
            ) && 1 <= ccaa_spec()[i].0 <= 19,
        ccaa_spec().len() == 19,
{
    assert forall|i: int| 0 <= i < ccaa_spec().len() implies (#[trigger] ccaa_spec()[i]).1
        == community_name(ccaa_spec()[i].0) && 1 <= ccaa_spec()[i].0 <= 19 by {
        if i == 0 {
        } else if i == 1 {
        } else if i == 2 {
        } else if i == 3 {
        } else if i == 4 {
        } else if i == 5 {
        } else if i == 6 {
        } else if i == 7 {
        } else if i == 8 {
        } else if i == 9 {
        } else if i == 10 {
        } else if i == 11 {
        } else if i == 12 {
        } else if i == 13 {
        } else if i == 14 {
        } else if i == 15 {
        } else if i == 16 {
        } else if i == 17 {
        } else if i == 18 {
        }
    }
}

/// Every listed province carries the official name of its code and belongs
/// to the community of its code; the codes listed are 1 to 52.
pub proof fn lemma_provinces_named_by_code()
    ensures
        forall|i: int|
            0 <= i < provincias_spec().len() ==> (#[trigger] provincias_spec()[i]).2 == province_name(
                provincias_spec()[i].0,
            ) && provincias_spec()[i].1 == province_community(provincias_spec()[i].0) && 1
                <= provincias_spec()[i].0 <= 52,
        provincias_spec().len() == 52,
{
    assert forall|i: int| 0 <= i < provincias_spec().len() implies (#[trigger] provincias_spec()[i]).2
        == province_name(provincias_spec()[i].0) && provincias_spec()[i].1 == province_community(
        provincias_spec()[i].0,
    ) && 1 <= provincias_spec()[i].0 <= 52 by {
        if i == 0 {
        } else if i == 1 {
        } else if i == 2 {
        } else if i == 3 {
        } else if i == 4 {
        } else if i == 5 {
        } else if i == 6 {
        } else if i == 7 {
        } else if i == 8 {
        } else if i == 9 {
        } else if i == 10 {
        } else if i == 11 {
        } else if i == 12 {
        } else if i == 13 {
        } else if i == 14 {
        } else if i == 15 {
        } else if i == 16 {
        } else if i == 17 {
        } else if i == 18 {
        } else if i == 19 {
        } else if i == 20 {
        } else if i == 21 {
        } else if i == 22 {
        } else if i == 23 {
        } else if i == 24 {
        } else if i == 25 {
        } else if i == 26 {
        } else if i == 27 {
        } else if i == 28 {
        } else if i == 29 {
        } else if i == 30 {
        } else if i == 31 {
        } else if i == 32 {
        } else if i == 33 {
        } else if i == 34 {
        } else if i == 35 {
        } else if i == 36 {
        } else if i == 37 {
        } else if i == 38 {
        } else if i == 39 {
        } else if i == 40 {
        } else if i == 41 {
        } else if i == 42 {
        } else if i == 43 {
        } else if i == 44 {
        } else if i == 45 {
        } else if i == 46 {
        } else if i == 47 {
        } else if i == 48 {
        } else if i == 49 {
        } else if i == 50 {
        } else if i == 51 {
        }
    }
}

} // verus!
