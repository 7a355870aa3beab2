use vstd::prelude::*;

use crate::ids::{parse_uuid, uuid_parse};
use crate::numparse::{
    int_error_message, int_error_text, parse_i64, parse_i64_spec, parse_u16, parse_u16_spec, parse_u32,
    parse_u32_spec, parse_u64, parse_u64_spec, IntErrorKind,
};

verus! {

/// The settings of the service.
pub struct Config {
    pub database_url: String,
    pub host: String,
    pub port: u16,
    pub tigerbeetle_address: String,
    pub tigerbeetle_cluster_id: u32,
    pub tigerbeetle_replica_id: u32,
    pub jwt_secret: String,
    pub jwt_expiration_hours: i64,
    pub bcrypt_cost: u32,
    pub bank_account_uuid: Option<u128>,
    pub bank_initial_balance: Option<u64>,
}

/// The environment variables the settings are read from, each `None` when
/// unset (or not valid Unicode).
pub struct ConfigVars {
    pub database_url: Option<String>,
    pub jwt_secret: Option<String>,
    pub host: Option<String>,
    pub port: Option<String>,
    pub tigerbeetle_address: Option<String>,
    pub tigerbeetle_cluster_id: Option<String>,
    pub tigerbeetle_replica_id: Option<String>,
    pub jwt_expiration_hours: Option<String>,
    pub bcrypt_cost: Option<String>,
    pub bank_account_uuid: Option<String>,
    pub bank_initial_balance: Option<String>,
}

/// The text of a variable, or `default` when it is unset.
pub open spec fn or_default(v: Option<String>, default: Seq<char>) -> Seq<char> {
    match v {
        Some(s) => s@,
        None => default,
    }
}

/// The first setting that cannot be read, as its message, or `None` when all
/// can: the required URL and secret, then the numbers, each read from its
/// variable or its default.
pub open spec fn config_error(v: ConfigVars) -> Option<Seq<char>> {
    if v.database_url is None {
        Some("DATABASE_URL debe estar definida."@)
    } else if v.jwt_secret is None {
        Some("JWT_SECRET debe estar definida."@)
    } else if parse_u16_spec(or_default(v.port, "3001"@)) is Err {
        Some("PORT debe ser un número válido: "@ + int_error_text(
            parse_u16_spec(or_default(v.port, "3001"@))->Err_0,
        ))
    } else if parse_u32_spec(or_default(v.tigerbeetle_cluster_id, "0"@)) is Err {
        Some("TIGERBEETLE_CLUSTER_ID debe ser un número: "@ + int_error_text(
            parse_u32_spec(or_default(v.tigerbeetle_cluster_id, "0"@))->Err_0,
        ))
    } else if parse_u32_spec(or_default(v.tigerbeetle_replica_id, "0"@)) is Err {
        Some("TIGERBEETLE_REPLICA_ID debe ser un número: "@ + int_error_text(
            parse_u32_spec(or_default(v.tigerbeetle_replica_id, "0"@))->Err_0,
        ))
    } else if parse_i64_spec(or_default(v.jwt_expiration_hours, "24"@)) is Err {
        Some("JWT_EXPIRATION_HOURS debe ser un número: "@ + int_error_text(
            parse_i64_spec(or_default(v.jwt_expiration_hours, "24"@))->Err_0,
        ))
    } else if parse_u32_spec(or_default(v.bcrypt_cost, "12"@)) is Err {
        Some("BCRYPT_COST debe ser un número: "@ + int_error_text(
            parse_u32_spec(or_default(v.bcrypt_cost, "12"@))->Err_0,
        ))
    } else {
        None
    }
}

/// The settings read from the variables, when none fails.
pub open spec fn config_matches(v: ConfigVars, c: Config) -> bool {
    &&& c.database_url@ == v.database_url->0@
    &&& c.jwt_secret@ == v.jwt_secret->0@
    &&& c.host@ == or_default(v.host, "0.0.0.0"@)
    &&& parse_u16_spec(or_default(v.port, "3001"@)) == Ok::<int, IntErrorKind>(c.port as int)
    &&& c.tigerbeetle_address@ == or_default(v.tigerbeetle_address, "127.0.0.1:3000"@)
    &&& parse_u32_spec(or_default(v.tigerbeetle_cluster_id, "0"@)) == Ok::<int, IntErrorKind>(
        c.tigerbeetle_cluster_id as int,
    )
    &&& parse_u32_spec(or_default(v.tigerbeetle_replica_id, "0"@)) == Ok::<int, IntErrorKind>(
        c.tigerbeetle_replica_id as int,
    )
    &&& parse_i64_spec(or_default(v.jwt_expiration_hours, "24"@)) == Ok::<int, IntErrorKind>(
        c.jwt_expiration_hours as int,
    )
    &&& parse_u32_spec(or_default(v.bcrypt_cost, "12"@)) == Ok::<int, IntErrorKind>(c.bcrypt_cost as int)
    &&& c.bank_account_uuid == match v.bank_account_uuid {
        Some(s) => uuid_parse(s@),
        None => None,
    }
    &&& c.bank_initial_balance == match v.bank_initial_balance {
        Some(s) => match parse_u64_spec(s@) {
            Ok(n) => Some(n as u64),
            Err(_) => None,
        },
        None => None,
    }
}

/// A setting that cannot be read.
pub struct ConfigError {
    pub message: String,
}

/// The text of a variable, or the default.
fn text_or(v: &Option<String>, default: &str) -> (res: String)
    ensures
        res@ == or_default(*v, default@),
{
    match v {
        Some(s) => s.clone(),
        None => default.to_string(),
    }
}

/// `prefix` followed by the message of a failed parse.
fn parse_failure(prefix: &str, kind: IntErrorKind) -> (res: ConfigError)
    ensures
        res.message@ == prefix@ + int_error_text(kind),
{
    let mut m = prefix.to_string();
    m.append(int_error_message(kind));
    ConfigError { message: m }
}

impl Config {
    /// The settings read from the variables, once the environment has been
    /// read: the database URL and the JWT
    /// secret are required; the other settings have defaults; a number that
    /// cannot be read is an error naming the variable; an identifier or an
    /// initial balance that cannot be read is left unset.
    pub fn from_vars(v: ConfigVars) -> (res: Result<Config, ConfigError>)
        ensures
            match config_error(v) {
                Some(m) => res matches Err(e) && e.message@ == m,
                None => res matches Ok(c) && config_matches(v, c),
            },
    {
        proof {
            reveal_strlit("3001");
            reveal_strlit("0");
            reveal_strlit("24");
            reveal_strlit("12");
        }
        let database_url = match &v.database_url {
            Some(s) => s.clone(),
            None => {
                return Err(ConfigError { message: "DATABASE_URL debe estar definida.".to_string() });
            },
        };
        let jwt_secret = match &v.jwt_secret {
            Some(s) => s.clone(),
            None => {
                return Err(ConfigError { message: "JWT_SECRET debe estar definida.".to_string() });
            },
        };
        let host = text_or(&v.host, "0.0.0.0");
        let port = match parse_u16(text_or(&v.port, "3001").as_str()) {
            Ok(p) => p,
            Err(k) => {
                return Err(parse_failure("PORT debe ser un número válido: ", k));
            },
        };
        let tigerbeetle_address = text_or(&v.tigerbeetle_address, "127.0.0.1:3000");
        let tigerbeetle_cluster_id = match parse_u32(text_or(&v.tigerbeetle_cluster_id, "0").as_str()) {
            Ok(p) => p,
            Err(k) => {
                return Err(parse_failure("TIGERBEETLE_CLUSTER_ID debe ser un número: ", k));
            },
        };
        let tigerbeetle_replica_id = match parse_u32(text_or(&v.tigerbeetle_replica_id, "0").as_str()) {
            Ok(p) => p,
            Err(k) => {
                return Err(parse_failure("TIGERBEETLE_REPLICA_ID debe ser un número: ", k));
            },
        };
        let jwt_expiration_hours = match parse_i64(text_or(&v.jwt_expiration_hours, "24").as_str()) {
            Ok(p) => p,
            Err(k) => {
                return Err(parse_failure("JWT_EXPIRATION_HOURS debe ser un número: ", k));
            },
        };
        let bcrypt_cost = match parse_u32(text_or(&v.bcrypt_cost, "12").as_str()) {
            Ok(p) => p,
            Err(k) => {
                return Err(parse_failure("BCRYPT_COST debe ser un número: ", k));
            },
        };
        let bank_account_uuid = match &v.bank_account_uuid {
            Some(s) => parse_uuid(s.as_str()),
            None => None,
        };
        let bank_initial_balance = match &v.bank_initial_balance {
            Some(s) => match parse_u64(s.as_str()) {
                Ok(n) => Some(n),
                Err(_) => None,
            },
            None => None,
        };
        Ok(Config {
            database_url,
            host,
            port,
            tigerbeetle_address,
            tigerbeetle_cluster_id,
            tigerbeetle_replica_id,
            jwt_secret,
            jwt_expiration_hours,
            bcrypt_cost,
            bank_account_uuid,
            bank_initial_balance,
        })
    }
}

} // verus!
