use voidconf::{Conf, ConfError, ConfSource, ConfValue, EnvSource, MapSource, VarOutcome, DEFAULT_NAME};

#[test]
pub fn get_err_key_not_found() {
    let mut conf: Conf<MapSource> = Conf::default();
    assert_eq!(
        conf.get_string("test").unwrap_err(),
        ConfError::KeyNotFound {
            key: "test".to_string()
        }
    );
    conf = conf.string("test", Some("hi"));
    let test = conf.get_string("test").unwrap();
    let testy = conf.get_string("testy").unwrap_err();
    assert_eq!(test, Some("hi".to_string()));
    assert_eq!(
        testy,
        ConfError::KeyNotFound {
            key: "testy".to_string()
        }
    );
}

#[test]
pub fn get_str_default() {
    let conf: Conf<MapSource> = Conf::default().string("name", Some("world"));
    assert_eq!(conf.get_string("name").unwrap(), Some("world".to_string()));
}

#[test]
pub fn get_str_env() {
    let mut conf: Conf<MapSource> = Conf::default().string("name", Some("world"));
    conf.source.set_var("VCFG_NAME", "xela");
    assert_eq!(conf.get_string("name").unwrap(), Some("xela".to_string()));
}

#[test]
pub fn get_str_multi() {
    let mut conf: Conf<MapSource> = Conf::default()
        .string("greeting", Some("Hello"))
        .string("name", None);
    conf.source.set_var("VCFG_NAME", "world");
    let greeting = conf.get_string("greeting").unwrap();
    let name = conf.get_string("name").unwrap();
    assert_eq!(greeting, Some("Hello".to_string()));
    assert_eq!(name, Some("world".to_string()));
}

#[test]
pub fn get_int_multi() {
    let mut conf: Conf<MapSource> = Conf::default()
        .byte("max_byte", Some(255))
        .integer("a_number", Some(-42))
        .uint("another_number", None);
    let a_number = conf.get_int("a_number").unwrap();
    let max_byte = conf.get_byte("max_byte").unwrap();
    let another_number = conf.get_uint("another_number").unwrap();
    assert_eq!(a_number, Some(-42));
    assert_eq!(max_byte, Some(255));
    assert_eq!(another_number, None);
    conf.source.set_var("VCFG_MAX_BYTE", "4");
    let new_max_byte = conf.get_byte("max_byte").unwrap();
    assert_eq!(new_max_byte, Some(4));
}

#[test]
pub fn require_str_multi() {
    let mut conf: Conf<MapSource> = Conf::default()
        .string("greeting", Some("Hello"))
        .string("name", None);
    conf.source.set_var("VCFG_NAME", "world");
    let greet = |g: String, n: String| format!("{}, {}!", g, n);
    let conf_greet = |conf: &Conf<MapSource>| {
        greet(
            conf.require("greeting").unwrap(),
            conf.require("name").unwrap(),
        )
    };
    assert_eq!(conf_greet(&conf), "Hello, world!");
    conf.source.set_var("VCFG_NAME", "xela");
    conf.source.set_var("VCFG_GREETING", "Hail");
    assert_eq!(conf_greet(&conf), "Hail, xela!");
}

#[test]
pub fn require_int_default() {
    let conf: Conf<MapSource> = Conf::default().uint("count", Some(3));
    let count = conf.require_uint("count").unwrap();
    assert_eq!(count, 3u64);
}

#[test]
fn default_namespace_is_vcfg() {
    let conf: Conf<MapSource> = Conf::default();
    assert_eq!(conf.name, DEFAULT_NAME);
    assert_eq!(conf.name, "vcfg");
    assert_eq!(conf.source.env.prefix, "VCFG");
}

#[test]
fn env_key_is_prefixed_and_upper_case() {
    let src = EnvSource::new("vcfg");
    assert_eq!(src.prefix, "VCFG");
    assert_eq!(src.env_key("name"), "VCFG_NAME");
    assert_eq!(src.env_key("max_byte"), "VCFG_MAX_BYTE");
    assert_eq!(EnvSource::new("My-App").env_key("a.b9z"), "MY-APP_A.B9Z");
}

#[test]
fn env_var_outcomes() {
    assert_eq!(
        EnvSource::from_var("VCFG_NAME", VarOutcome::Present("xela".to_string())),
        Ok(Some("xela".to_string()))
    );
    assert_eq!(EnvSource::from_var("VCFG_NAME", VarOutcome::NotPresent), Ok(None));
    assert_eq!(
        EnvSource::from_var("VCFG_NAME", VarOutcome::NotUnicode("bad bytes".to_string())),
        Err(ConfError::EnvLookupFailed {
            key: "VCFG_NAME".to_string(),
            source: "bad bytes".to_string()
        })
    );
}

#[test]
fn source_error_is_passed_on() {
    let conf: Conf<MapSource> = Conf::default().string("name", Some("world"));
    let failed = ConfError::env_lookup_failed("VCFG_NAME", "bad bytes");
    assert_eq!(conf.resolve::<String>("name", Err(failed.clone())), Err(failed));
}

#[test]
fn source_value_wins_over_default() {
    let conf: Conf<MapSource> = Conf::default().string("name", Some("world"));
    assert_eq!(
        conf.resolve::<String>("name", Ok(Some("xela".to_string()))),
        Ok(Some("xela".to_string()))
    );
    assert_eq!(conf.resolve::<String>("name", Ok(None)), Ok(Some("world".to_string())));
}

#[test]
fn unparsable_value_is_reported() {
    let mut conf: Conf<MapSource> = Conf::default().uint("count", Some(3)).byte("max_byte", None);
    conf.source.set_var("VCFG_COUNT", "three");
    assert_eq!(
        conf.get_uint("count"),
        Err(ConfError::ValParseFailed {
            key: "count".to_string(),
            val: "three".to_string()
        })
    );
    conf.source.set_var("VCFG_MAX_BYTE", "256");
    assert_eq!(
        conf.require_byte("max_byte"),
        Err(ConfError::ValParseFailed {
            key: "max_byte".to_string(),
            val: "256".to_string()
        })
    );
}

#[test]
fn invalid_default_is_found_on_access() {
    let conf: Conf<MapSource> = Conf::default().entry(voidconf::ConfEntry::<u8>::new("level").with_default("high"));
    assert_eq!(
        conf.get_byte("level"),
        Err(ConfError::ValParseFailed {
            key: "level".to_string(),
            val: "high".to_string()
        })
    );
}

#[test]
fn type_mismatch_is_parse_failure_with_empty_value() {
    let conf: Conf<MapSource> = Conf::default().string("name", Some("world"));
    assert_eq!(
        conf.get_int("name"),
        Err(ConfError::ValParseFailed {
            key: "name".to_string(),
            val: String::new()
        })
    );
}

#[test]
fn require_without_value_is_val_not_found() {
    let conf: Conf<MapSource> = Conf::default().integer("a_number", None);
    assert_eq!(
        conf.require_int("a_number"),
        Err(ConfError::ValNotFound {
            key: "a_number".to_string()
        })
    );
    assert_eq!(conf.get_int("a_number"), Ok(None));
    assert_eq!(
        conf.require_string("missing"),
        Err(ConfError::KeyNotFound {
            key: "missing".to_string()
        })
    );
}

#[test]
fn later_entry_replaces_earlier() {
    let conf: Conf<MapSource> = Conf::default().string("name", Some("world")).uint("name", Some(7));
    assert_eq!(conf.get_uint("name"), Ok(Some(7)));
    assert!(conf.get_string("name").is_err());
    assert_eq!(conf.options.len(), 1);
}

#[test]
fn repeated_gets_agree() {
    let mut conf: Conf<MapSource> = Conf::default().integer("a_number", Some(-42));
    assert_eq!(conf.get_int("a_number"), conf.get_int("a_number"));
    conf.source.set_var("VCFG_A_NUMBER", "+17");
    let first = conf.get_int("a_number");
    assert_eq!(first, Ok(Some(17)));
    assert_eq!(conf.get_int("a_number"), first);
}

#[test]
fn integer_forms() {
    assert_eq!(u64::parse_str("+5"), Some(5));
    assert_eq!(u64::parse_str("007"), Some(7));
    assert_eq!(u64::parse_str("-0"), None);
    assert_eq!(u64::parse_str(""), None);
    assert_eq!(u64::parse_str("+"), None);
    assert_eq!(u64::parse_str(" 1"), None);
    assert_eq!(u64::parse_str("18446744073709551615"), Some(u64::MAX));
    assert_eq!(u64::parse_str("18446744073709551616"), None);
    assert_eq!(i64::parse_str("-9223372036854775808"), Some(i64::MIN));
    assert_eq!(i64::parse_str("-"), None);
    assert_eq!(i8::parse_str("-129"), None);
    assert_eq!(i8::parse_str("-128"), Some(-128));
    assert_eq!(u16::parse_str("65535"), Some(65535));
    assert_eq!(u32::parse_str("4294967296"), None);
    assert_eq!(i16::parse_str("+32767"), Some(32767));
    assert_eq!(i32::parse_str("x1"), None);
    assert_eq!(u8::parse_str("255"), Some(255));
}

#[test]
fn render_then_parse_gives_value_back() {
    assert_eq!(255u8.render(), "255");
    assert_eq!((-42i64).render(), "-42");
    assert_eq!(0u64.render(), "0");
    assert_eq!(i64::MIN.render(), "-9223372036854775808");
    for v in [0u8, 1, 9, 10, 200, 255] {
        assert_eq!(u8::parse_str(&v.render()), Some(v));
    }
    for v in [i16::MIN, -1, 0, 1, i16::MAX] {
        assert_eq!(i16::parse_str(&v.render()), Some(v));
    }
    for v in [0u32, 10, u32::MAX] {
        assert_eq!(u32::parse_str(&v.render()), Some(v));
    }
    for v in [i8::MIN, 0, i8::MAX] {
        assert_eq!(i8::parse_str(&v.render()), Some(v));
    }
    for v in [i32::MIN, i32::MAX] {
        assert_eq!(i32::parse_str(&v.render()), Some(v));
    }
    for v in [0u16, u16::MAX] {
        assert_eq!(u16::parse_str(&v.render()), Some(v));
    }
    for v in [0u64, u64::MAX] {
        assert_eq!(u64::parse_str(&v.render()), Some(v));
    }
    for v in [i64::MIN, i64::MAX] {
        assert_eq!(i64::parse_str(&v.render()), Some(v));
    }
    let s = "Hello, world!".to_string();
    assert_eq!(String::parse_str(&s.render()), Some(s));
}

#[test]
fn map_source_lookup() {
    let mut src = MapSource::new("app");
    assert_eq!(src.get("port"), Ok(None));
    src.set_var("APP_PORT", "80");
    src.set_var("APP_PORT", "8080");
    assert_eq!(src.lookup("port"), Some("8080".to_string()));
    assert_eq!(src.get("Port"), Ok(Some("8080".to_string())));
    assert_eq!(src.get("host"), Ok(None));
}
