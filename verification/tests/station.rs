use precios_carburantes::station::{decimal_text, station_id};

#[test]
fn station_ids_parse_like_i32() {
    assert_eq!(station_id("4375"), 4375);
    assert_eq!(station_id("+12"), 12);
    assert_eq!(station_id("-7"), -7);
    assert_eq!(station_id("0042"), 42);
    assert_eq!(station_id("2147483647"), 2147483647);
    assert_eq!(station_id("-2147483648"), -2147483648);
}

#[test]
fn unreadable_station_ids_are_zero() {
    for s in ["", "-", "+", "12a", " 12", "2147483648", "-2147483649", "99999999999999999999", "١٢"] {
        assert_eq!(station_id(s), 0, "{s:?}");
        assert_eq!(s.parse::<i32>().unwrap_or(0), 0);
    }
}

#[test]
fn station_ids_agree_with_std() {
    for s in ["1", "-0", "+0", "000", "12,5", "1e3", "-+1"] {
        assert_eq!(station_id(s), s.parse::<i32>().unwrap_or(0), "{s:?}");
    }
}

#[test]
fn decimal_comma_becomes_point() {
    assert_eq!(decimal_text("1,779"), Some("1.779".to_string()));
    assert_eq!(decimal_text("-3,703889"), Some("-3.703889".to_string()));
    assert_eq!(decimal_text("2"), Some("2".to_string()));
    assert_eq!(decimal_text(",,"), Some("..".to_string()));
    assert_eq!(decimal_text(""), None);
    assert_eq!(decimal_text("1,779").unwrap().parse::<f64>().unwrap(), 1.779);
}
