//! The two addresses of the operator's service, and how long a call to each
//! may take. The calls themselves are made by the program around this
//! library, which hands their outcomes to it.

use vstd::prelude::*;
use vstd::string::*;

verus! {

/// Where the operator's service stands.
pub const API_URL: &'static str = "https://open.tan.fr/ewp";

/// How long the fetch of the list of stops may take, in seconds.
pub const DELAI_ARRETS_SECS: u64 = 10;

/// How long the fetch of the departures of a stop may take, in seconds.
pub const DELAI_PASSAGES_SECS: u64 = 10;

/// The address of the list of stops.
pub fn url_arrets() -> (url: String)
    ensures
        url@ == API_URL@ + "/arrets.json"@,
{
    let mut url = String::from_str(API_URL);
    url.append("/arrets.json");
    url
}

/// The address of the departures of the stop `code_arret`.
pub fn url_passages(code_arret: &str) -> (url: String)
    ensures
        url@ == API_URL@ + "/tempsattente.json/"@ + code_arret@,
{
    let mut url = String::from_str(API_URL);
    url.append("/tempsattente.json/");
    url.append(code_arret);
    url
}

/// Whether an answer of the operator's service with the status `statut` is
/// taken for its body: the statuses from 200 to 299 are, every other one
/// counts as a failure of the service.
pub fn statut_accepte(statut: i32) -> (accepte: bool)
    ensures
        accepte == (200 <= statut < 300),
{
    200 <= statut && statut < 300
}

} // verus!
