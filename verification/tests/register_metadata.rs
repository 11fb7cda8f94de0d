use eg4_bridge::register_metadata::{
    default_scale, ha_device_class, ha_state_class, ha_unit, signed_value, RegisterCatalog,
    RegisterGroup, RegisterMeta,
};
use eg4_bridge::scale::ScaleDecimal;

fn meta(n: u16, short: &str, unit: &str, datatype: &str) -> RegisterMeta {
    RegisterMeta {
        register_number: n,
        name: short.to_string(),
        shortname: short.to_string(),
        datatype: datatype.to_string(),
        unit: unit.to_string(),
        unit_scale: default_scale(),
        description: String::new(),
    }
}

#[test]
fn catalog_keeps_input_registers_last_one_winning() {
    let cat = RegisterCatalog::from_groups(&vec![
        RegisterGroup {
            register_type: "input".to_string(),
            register_map: vec![meta(4, "first", "V", "uint16"), meta(4, "second", "V", "uint16")],
        },
        RegisterGroup {
            register_type: "hold".to_string(),
            register_map: vec![meta(7, "held", "", "uint16")],
        },
    ]);
    assert_eq!(cat.input(4).unwrap().shortname, "second");
    assert!(cat.input(7).is_none());
    assert_eq!(cat.input_key(4), "second");
    assert_eq!(cat.input_key(7), "r_7");
    assert_eq!(cat.input_key(0), "r_0");
    assert_eq!(cat.input_key(65535), "r_65535");
}

#[test]
fn curated_and_sorted_views() {
    let cat = RegisterCatalog::from_groups(&vec![RegisterGroup {
        register_type: "input".to_string(),
        register_map: vec![
            meta(67, "battery_temp", "°C", "int16"),
            meta(500, "late", "", "uint16"),
            meta(0, "inverter_status", "", "uint16"),
            meta(6, "not_curated", "", "uint16"),
        ],
    }]);
    let curated: Vec<u16> = cat.curated_input().iter().map(|m| m.register_number).collect();
    assert_eq!(curated, vec![0, 67]);
    let all: Vec<u16> = cat.all_input_sorted().iter().map(|m| m.register_number).collect();
    assert_eq!(all, vec![0, 6, 67, 500]);
}

#[test]
fn device_classes_follow_units() {
    for (unit, class) in [
        ("V", "voltage"),
        ("A", "current"),
        ("W", "power"),
        ("VA", "apparent_power"),
        ("VAR", "reactive_power"),
        ("Hz", "frequency"),
        ("kWh", "energy"),
        ("°C", "temperature"),
    ] {
        assert_eq!(ha_device_class(&meta(1, "x", unit, "uint16")), Some(class));
    }
    assert_eq!(ha_device_class(&meta(5, "battery_status", "%", "uint16")), Some("battery"));
    assert_eq!(ha_device_class(&meta(5, "other", "%", "uint16")), None);
    assert_eq!(ha_device_class(&meta(5, "other", "", "uint16")), None);
}

#[test]
fn state_classes() {
    assert_eq!(ha_state_class(&meta(1, "x", "kWh", "uint16")), Some("total_increasing"));
    assert_eq!(ha_state_class(&meta(1, "x", "W", "uint16")), Some("measurement"));
    assert_eq!(ha_state_class(&meta(1, "x", "rpm", "uint16")), None);
}

#[test]
fn units_are_absent_when_empty() {
    assert_eq!(ha_unit(&meta(1, "x", "", "uint16")), None);
    assert_eq!(ha_unit(&meta(1, "x", "W", "uint16")), Some("W"));
}

#[test]
fn signed_registers_use_twos_complement() {
    let m = meta(1, "x", "A", "int16");
    assert_eq!(signed_value(&m, 0xffff), -1);
    assert_eq!(signed_value(&m, 0x8000), -32768);
    assert_eq!(signed_value(&m, 0x7fff), 32767);
    let u = meta(1, "x", "A", "uint16");
    assert_eq!(signed_value(&u, 0xffff), 65535);
}

#[test]
fn scale_text_and_precision() {
    let cases = [("1", true, 0, "1"), ("0.1", false, 1, "0.1"), ("0.01", false, 2, "0.01"),
        ("0.001", false, 3, "0.001"), ("10", false, 0, "10"), ("2.5", false, 0, "2.5"),
        ("0.25", false, 1, "0.25"), ("-1", false, 3, "-1"), ("-0.1", false, 3, "-0.1"), ("0", false, 3, "0")];
    for (text, one, precision, back) in cases {
        let d = ScaleDecimal::parse(text).unwrap();
        assert_eq!(d.exec_is_one(), one, "{}", text);
        assert_eq!(d.precision(), precision, "{}", text);
        let mut s = String::new();
        d.push_text(&mut s);
        assert_eq!(s, back);
    }
    assert_eq!(ScaleDecimal::parse("0.1").unwrap(), ScaleDecimal { negative: false, mantissa: 1, exponent: 1 });
    assert_eq!(ScaleDecimal::parse("-0.5").unwrap(), ScaleDecimal { negative: true, mantissa: 5, exponent: 1 });
}

#[test]
fn scale_parse_refuses_other_text() {
    for text in ["", ".", "1.", ".5", "1.2.3", "-", "--1", "+1", "1e-7", "abc", "18446744073709551616"] {
        assert!(ScaleDecimal::parse(text).is_none(), "{}", text);
    }
    assert!(ScaleDecimal::parse("18446744073709551615").is_some());
}

#[test]
fn tiny_scales_print_with_leading_zeros() {
    let d = ScaleDecimal { negative: false, mantissa: 5, exponent: 4 };
    let mut s = String::new();
    d.push_text(&mut s);
    assert_eq!(s, "0.0005");
    assert_eq!(d.precision(), 3);
    let huge = ScaleDecimal { negative: false, mantissa: 7, exponent: 200 };
    assert_eq!(huge.precision(), 3);
    assert!(!huge.exec_is_one());
}
