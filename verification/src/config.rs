//! Where the service listens and where its static files lie.

use crate::text::same_text;
use vstd::prelude::*;
use vstd::string::*;

verus! {

/// The address to listen on, and the directory of the static files.
#[derive(Debug)]
pub struct AppConfig<'a> {
    pub ip: [u8; 4],
    pub port: u16,
    pub file_path: &'a str,
}

/// Whether `environment` names one of the two environments that the
/// service knows.
pub open spec fn is_known_environment(environment: Option<Seq<char>>) -> bool {
    environment == Some("PRODUCTION"@) || environment == Some("TEST"@)
}

/// The port to listen on in `environment`.
pub open spec fn port_for(environment: Option<Seq<char>>) -> u16 {
    if environment == Some("PRODUCTION"@) {
        3003
    } else {
        3000
    }
}

/// The directory of the static files in `environment`.
pub open spec fn file_path_for(environment: Option<Seq<char>>) -> Seq<char> {
    if environment == Some("PRODUCTION"@) {
        "/srv/http/christmaslist.xyz/assets"@
    } else {
        "./assets"@
    }
}

/// The characters of the environment's name, if it has one.
pub open spec fn name_of(environment: Option<&str>) -> Option<Seq<char>> {
    match environment {
        Some(name) => Some(name@),
        None => None,
    }
}

/// Whether `environment` names one of the two environments that the
/// service knows. Who starts the service is told if it does not.
pub fn environment_is_known(environment: Option<&str>) -> (known: bool)
    ensures
        known == is_known_environment(name_of(environment)),
{
    match environment {
        Some(name) => same_text(name, "PRODUCTION") || same_text(name, "TEST"),
        None => false,
    }
}

/// The configuration for `environment`, the value of `APP_ENVIRONMENT`.
/// The service listens on the loopback address: on port 3003 in
/// production, and on port 3000 under test and in any other case.
pub fn get_app_config<'a>(environment: Option<&str>) -> (config: AppConfig<'a>)
    ensures
        config.ip@ == seq![127u8, 0u8, 0u8, 1u8],
        config.port == port_for(name_of(environment)),
        config.file_path@ == file_path_for(name_of(environment)),
{
    let production = match environment {
        Some(name) => same_text(name, "PRODUCTION"),
        None => false,
    };
    let ip: [u8; 4] = [127, 0, 0, 1];
    assert(ip@ =~= seq![127u8, 0u8, 0u8, 1u8]);
    if production {
        AppConfig { ip, port: 3003, file_path: "/srv/http/christmaslist.xyz/assets" }
    } else {
        AppConfig { ip, port: 3000, file_path: "./assets" }
    }
}

} // verus!
