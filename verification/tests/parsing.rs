use sistema_bancario_hnl::config::{Config, ConfigVars};
use sistema_bancario_hnl::numparse::{parse_i64, parse_u16, parse_u32, parse_u64, int_error_message, IntErrorKind};
use sistema_bancario_hnl::text::{contains_str, i64_to_text, starts_with_str, u128_to_text};

fn vars() -> ConfigVars {
    ConfigVars {
        database_url: Some("postgres://bank".to_string()),
        jwt_secret: Some("s3cret".to_string()),
        host: None,
        port: None,
        tigerbeetle_address: None,
        tigerbeetle_cluster_id: None,
        tigerbeetle_replica_id: None,
        jwt_expiration_hours: None,
        bcrypt_cost: None,
        bank_account_uuid: None,
        bank_initial_balance: None,
    }
}

#[test]
fn parse_u16_accepts_plain_and_plus_sign() {
    assert_eq!(parse_u16("3001"), Ok(3001));
    assert_eq!(parse_u16("+7"), Ok(7));
    assert_eq!(parse_u16("65535"), Ok(65535));
}

#[test]
fn parse_u16_errors() {
    assert_eq!(parse_u16(""), Err(IntErrorKind::Empty));
    assert_eq!(parse_u16("+"), Err(IntErrorKind::InvalidDigit));
    assert_eq!(parse_u16("-1"), Err(IntErrorKind::InvalidDigit));
    assert_eq!(parse_u16("65536"), Err(IntErrorKind::PosOverflow));
    assert_eq!(parse_u16("12a"), Err(IntErrorKind::InvalidDigit));
    assert_eq!(parse_u16("99999a"), Err(IntErrorKind::PosOverflow));
    assert_eq!(parse_u16(" 1"), Err(IntErrorKind::InvalidDigit));
}

#[test]
fn parse_matches_std() {
    for s in ["0", "42", "+42", "-42", "", "-", "+", "4294967295", "4294967296", "18446744073709551615",
              "18446744073709551616", "-9223372036854775808", "-9223372036854775809", "9223372036854775807",
              "9223372036854775808", "1_000", "ñ", "007"] {
        assert_eq!(parse_u16(s).ok(), s.parse::<u16>().ok(), "{}", s);
        assert_eq!(parse_u32(s).ok(), s.parse::<u32>().ok(), "{}", s);
        assert_eq!(parse_u64(s).ok(), s.parse::<u64>().ok(), "{}", s);
        assert_eq!(parse_i64(s).ok(), s.parse::<i64>().ok(), "{}", s);
        if let Err(e) = s.parse::<i64>() {
            assert_eq!(int_error_message(parse_i64(s).unwrap_err()), e.to_string(), "{}", s);
        }
        if let Err(e) = s.parse::<u32>() {
            assert_eq!(int_error_message(parse_u32(s).unwrap_err()), e.to_string(), "{}", s);
        }
    }
}

#[test]
fn parse_i64_negative_overflow() {
    assert_eq!(parse_i64("-9223372036854775809"), Err(IntErrorKind::NegOverflow));
    assert_eq!(parse_i64("-9223372036854775808"), Ok(i64::MIN));
}

#[test]
fn decimal_text() {
    assert_eq!(u128_to_text(0), "0");
    assert_eq!(u128_to_text(1234567890), "1234567890");
    assert_eq!(i64_to_text(-1700000000), "-1700000000");
    assert_eq!(i64_to_text(i64::MIN), i64::MIN.to_string());
}

#[test]
fn substring_search() {
    assert!(contains_str("Usuario no encontrado", "no encontrado"));
    assert!(!contains_str("Cuenta no encontrada en TigerBeetle", "no encontrado"));
    assert!(contains_str("abc", ""));
    assert!(!contains_str("", "a"));
    assert!(starts_with_str("/health/db", "/health"));
    assert!(!starts_with_str("/healt", "/health"));
}

#[test]
fn config_defaults() {
    let c = Config::from_vars(vars()).ok().unwrap();
    assert_eq!(c.database_url, "postgres://bank");
    assert_eq!(c.jwt_secret, "s3cret");
    assert_eq!(c.host, "0.0.0.0");
    assert_eq!(c.port, 3001);
    assert_eq!(c.tigerbeetle_address, "127.0.0.1:3000");
    assert_eq!(c.tigerbeetle_cluster_id, 0);
    assert_eq!(c.tigerbeetle_replica_id, 0);
    assert_eq!(c.jwt_expiration_hours, 24);
    assert_eq!(c.bcrypt_cost, 12);
    assert_eq!(c.bank_account_uuid, None);
    assert_eq!(c.bank_initial_balance, None);
}

#[test]
fn config_required_values() {
    let mut v = vars();
    v.database_url = None;
    assert_eq!(Config::from_vars(v).err().unwrap().message, "DATABASE_URL debe estar definida.");
    let mut v = vars();
    v.jwt_secret = None;
    assert_eq!(Config::from_vars(v).err().unwrap().message, "JWT_SECRET debe estar definida.");
}

#[test]
fn config_bad_numbers() {
    let mut v = vars();
    v.port = Some("70000".to_string());
    assert_eq!(
        Config::from_vars(v).err().unwrap().message,
        "PORT debe ser un número válido: number too large to fit in target type"
    );
    let mut v = vars();
    v.jwt_expiration_hours = Some("abc".to_string());
    assert_eq!(
        Config::from_vars(v).err().unwrap().message,
        "JWT_EXPIRATION_HOURS debe ser un número: invalid digit found in string"
    );
    let mut v = vars();
    v.bcrypt_cost = Some("".to_string());
    assert_eq!(
        Config::from_vars(v).err().unwrap().message,
        "BCRYPT_COST debe ser un número: cannot parse integer from empty string"
    );
}

#[test]
fn config_optional_values() {
    let mut v = vars();
    v.bank_account_uuid = Some("00000000-0000-0000-0000-000000000001".to_string());
    v.bank_initial_balance = Some("500".to_string());
    v.port = Some("8080".to_string());
    let c = Config::from_vars(v).ok().unwrap();
    assert_eq!(c.bank_account_uuid, Some(1));
    assert_eq!(c.bank_initial_balance, Some(500));
    assert_eq!(c.port, 8080);
    let mut v = vars();
    v.bank_account_uuid = Some("not-a-uuid".to_string());
    v.bank_initial_balance = Some("-5".to_string());
    let c = Config::from_vars(v).ok().unwrap();
    assert_eq!(c.bank_account_uuid, None);
    assert_eq!(c.bank_initial_balance, None);
}
