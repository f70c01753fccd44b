//! The settings record for one run, and the resolution of raw configuration
//! fields into it: defaults for the optional fields, an error for a missing
//! required identity field.

use crate::identity::generate_password;
use crate::identity::is_password_char;
use vstd::prelude::*;

verus! {

/// The validated, immutable settings record for one run.
pub struct Configuration {
    pub first_name: String,
    pub last_name: String,
    pub email_name: String,
    pub email_domain: String,
    pub address: String,
    pub password: String,
    pub quantity: u32,
    pub save_to_file: bool,
    pub headless: bool,
    pub chromedriver_port: u16,
}

/// The raw fields as a configuration source hands them over, before defaults
/// are applied. A `None` in one of the five identity fields is a fatal
/// configuration error.
pub struct RawSettings {
    pub first_name: Option<String>,
    pub last_name: Option<String>,
    pub email_name: Option<String>,
    pub email_domain: Option<String>,
    pub address: Option<String>,
    pub password: Option<String>,
    pub quantity: Option<u32>,
    pub save_to_file: Option<bool>,
    pub headless: Option<bool>,
    pub chromedriver_port: Option<u16>,
}

/// The fatal configuration errors: one per missing required field, reported
/// in field order.
#[derive(Clone, Copy, PartialEq, Eq, Structural, Debug)]
pub enum ConfigError {
    MissingFirstName,
    MissingLastName,
    MissingEmailName,
    MissingEmailDomain,
    MissingAddress,
}

/// The default local port the driver process is bound to.
pub fn default_port() -> (p: u16)
    ensures
        p == 9515,
{
    9515
}

/// Resolves raw configuration fields into the run's settings: required
/// fields must be present; quantity defaults to 1, headless and save_to_file
/// to true, the driver port to 9515; a missing password is generated.
pub fn resolve(raw: RawSettings) -> (r: Result<Configuration, ConfigError>)
    ensures
        r is Ok <==> (raw.first_name is Some && raw.last_name is Some && raw.email_name is Some
            && raw.email_domain is Some && raw.address is Some),
        raw.first_name is None ==> r == Err::<Configuration, ConfigError>(
            ConfigError::MissingFirstName,
        ),
        raw.first_name is Some && raw.last_name is None ==> r == Err::<Configuration, ConfigError>(
            ConfigError::MissingLastName,
        ),
        raw.first_name is Some && raw.last_name is Some && raw.email_name is None ==> r == Err::<
            Configuration,
            ConfigError,
        >(ConfigError::MissingEmailName),
        raw.first_name is Some && raw.last_name is Some && raw.email_name is Some
            && raw.email_domain is None ==> r == Err::<Configuration, ConfigError>(
            ConfigError::MissingEmailDomain,
        ),
        raw.first_name is Some && raw.last_name is Some && raw.email_name is Some
            && raw.email_domain is Some && raw.address is None ==> r == Err::<
            Configuration,
            ConfigError,
        >(ConfigError::MissingAddress),
        r matches Ok(c) ==> {
            &&& raw.first_name matches Some(v) && c.first_name == v
            &&& raw.last_name matches Some(v) && c.last_name == v
            &&& raw.email_name matches Some(v) && c.email_name == v
            &&& raw.email_domain matches Some(v) && c.email_domain == v
            &&& raw.address matches Some(v) && c.address == v
            &&& (raw.password matches Some(p) ==> c.password == p)
            &&& (raw.password is None ==> c.password@.len() == 14 && forall|i: int|
                0 <= i < c.password@.len() ==> is_password_char(#[trigger] c.password@[i]))
            &&& c.quantity == (if raw.quantity is Some {
                raw.quantity->0
            } else {
                1u32
            })
            &&& c.save_to_file == (if raw.save_to_file is Some {
                raw.save_to_file->0
            } else {
                true
            })
            &&& c.headless == (if raw.headless is Some {
                raw.headless->0
            } else {
                true
            })
            &&& c.chromedriver_port == (if raw.chromedriver_port is Some {
                raw.chromedriver_port->0
            } else {
                9515u16
            })
        },
{
    let RawSettings {
        first_name,
        last_name,
        email_name,
        email_domain,
        address,
        password,
        quantity,
        save_to_file,
        headless,
        chromedriver_port,
    } = raw;
    let first_name = match first_name {
        Some(v) => v,
        None => { return Err(ConfigError::MissingFirstName); },
    };
    let last_name = match last_name {
        Some(v) => v,
        None => { return Err(ConfigError::MissingLastName); },
    };
    let email_name = match email_name {
        Some(v) => v,
        None => { return Err(ConfigError::MissingEmailName); },
    };
    let email_domain = match email_domain {
        Some(v) => v,
        None => { return Err(ConfigError::MissingEmailDomain); },
    };
    let address = match address {
        Some(v) => v,
        None => { return Err(ConfigError::MissingAddress); },
    };
    let password = match password {
        Some(p) => p,
        None => generate_password(),
    };
    let quantity = match quantity {
        Some(q) => q,
        None => 1,
    };
    let save_to_file = match save_to_file {
        Some(b) => b,
        None => true,
    };
    let headless = match headless {
        Some(b) => b,
        None => true,
    };
    let chromedriver_port = match chromedriver_port {
        Some(p) => p,
        None => default_port(),
    };
    Ok(
        Configuration {
            first_name,
            last_name,
            email_name,
            email_domain,
            address,
            password,
            quantity,
            save_to_file,
            headless,
            chromedriver_port,
        },
    )
}

} // verus!
