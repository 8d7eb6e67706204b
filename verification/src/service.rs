//! The answers of the service: which request goes where, and the status and
//! body of each answer.
//!
//! The library fetches nothing. A request for departures is answered in two
//! steps: [`handle_principal`] resolves it and either answers at once or asks
//! for the departures of a stop; [`repondre_passages`] turns the outcome of
//! that fetch into the answer.

use vstd::prelude::*;
use vstd::slice::slice_subrange;
use vstd::string::*;
use crate::cache::{vue_acces, CacheArrets, CacheError};
use crate::modele::{PassageNaolib, ReponseLaMetric, UpstreamError};
use crate::passages::{formater_reponse, reponse_formatee};
use crate::reponse::{corps_une_frame, ICONE_ERREUR};
use crate::requete::{params_de, parse_query, Params, ParamsVue};
use crate::resolution::{resolution, resolve, ConfigError, EnvDefaults, RequestConfig};
use crate::texte::{caracteres, chercher, egal, lemme_premier_indice, premier_indice};

verus! {

/// Message of the error frame for a request that names no stop.
pub const MESSAGE_SANS_ARRET: &'static str = "No stop";

/// Message of the error frame for a stop that is not one of the network.
pub const MESSAGE_ARRET_INCONNU: &'static str = "Bad stop";

/// Message of the error frame for a direction that is neither 1 nor 2.
pub const MESSAGE_DIRECTION: &'static str = "Bad dir";

/// Message of the error frame for a failure of the operator's service.
pub const MESSAGE_AMONT: &'static str = "API err";

impl ConfigError {
    /// The message of the error frame.
    pub open spec fn message_spec(self) -> Seq<char> {
        match self {
            ConfigError::MissingStopCode => MESSAGE_SANS_ARRET@,
            ConfigError::InvalidStopCode => MESSAGE_ARRET_INCONNU@,
            ConfigError::InvalidDirection => MESSAGE_DIRECTION@,
        }
    }

    /// The message of the error frame.
    pub fn message(&self) -> (message: &'static str)
        ensures
            message@ == self.message_spec(),
    {
        match self {
            ConfigError::MissingStopCode => MESSAGE_SANS_ARRET,
            ConfigError::InvalidStopCode => MESSAGE_ARRET_INCONNU,
            ConfigError::InvalidDirection => MESSAGE_DIRECTION,
        }
    }
}

/// What follows the first step of a request for departures.
#[derive(Debug, PartialEq, Eq)]
pub enum Suite {
    /// The request is answered with this status and body, and nothing is
    /// fetched.
    Repondre(u16, String),
    /// The departures of `stop_code` are to be fetched, and their outcome
    /// handed to [`repondre_passages`] with this configuration.
    Interroger(RequestConfig),
}

/// First step of a request for departures: the request is resolved. One that
/// cannot be is answered at once with status 400 and the error frame of its
/// failure; for the others the departures are asked for.
pub fn handle_principal(
    defauts: &EnvDefaults,
    params: &Params,
    acces: Result<&CacheArrets, CacheError>,
) -> (suite: Suite)
    ensures
        match resolution(defauts@, params@, vue_acces(acces)) {
            Ok(config) => suite matches Suite::Interroger(c) && c@ == config && c@.est_valide(),
            Err(e) => suite matches Suite::Repondre(statut, corps) && statut == 400 && corps@
                == corps_une_frame(ICONE_ERREUR@, e.message_spec()),
        },
{
    match resolve(defauts, params, acces) {
        Ok(config) => Suite::Interroger(config),
        Err(e) => Suite::Repondre(400, ReponseLaMetric::erreur(e.message())),
    }
}

/// Second step of a request for departures: status and body of the answer,
/// from the outcome of the fetch. Departures are answered with status 200
/// and their frames, a failure with status 502 and an error frame.
pub fn repondre_passages(
    resultat: Result<Vec<PassageNaolib>, UpstreamError>,
    config: &RequestConfig,
) -> (reponse: (u16, String))
    ensures
        match resultat {
            Ok(passages) => reponse.0 == 200 && reponse.1@ == reponse_formatee(
                passages.deep_view(),
                config@,
            ),
            Err(_) => reponse.0 == 502 && reponse.1@ == corps_une_frame(
                ICONE_ERREUR@,
                MESSAGE_AMONT@,
            ),
        },
{
    match resultat {
        Ok(passages) => (200, formater_reponse(passages, config)),
        Err(_) => (502, ReponseLaMetric::erreur(MESSAGE_AMONT)),
    }
}

/// Body of the answer that lists the stops most asked for.
pub const ARRETS_POPULAIRES: &'static str = "[\n{\"code\":\"COMM\",\"name\":\"Commerce\"},\
    \n{\"code\":\"GSNO\",\"name\":\"Gare Nord - Jardin des Plantes\"},\
    \n{\"code\":\"CRQU\",\"name\":\"Place du Cirque\"},\
    \n{\"code\":\"HVNA\",\"name\":\"Hôtel de Ville\"},\
    \n{\"code\":\"OGVA\",\"name\":\"Orvault Grand Val\"},\
    \n{\"code\":\"NETR\",\"name\":\"Neustrie\"},\
    \n{\"code\":\"VTOU\",\"name\":\"Vertou\"},\
    \n{\"code\":\"SDON\",\"name\":\"St-Donatien\"},\
    \n{\"code\":\"OTAG\",\"name\":\"50 Otages\"},\
    \n{\"code\":\"BOFA\",\"name\":\"Bouffay\"},\
    \n{\"code\":\"DCAN\",\"name\":\"Duchesse Anne - Château\"},\
    \n{\"code\":\"BJOI\",\"name\":\"Beaujoire\"},\
    \n{\"code\":\"FMIT\",\"name\":\"François Mitterrand\"},\
    \n{\"code\":\"HALU\",\"name\":\"Haluchère - Batignolles\"}\n]";

/// What the description of the service holds before its version.
pub const INFO_DEBUT: &'static str = "{\"name\":\"NaoLaMetric\",\"version\":\"";

/// What the description of the service holds after its version.
pub const INFO_FIN: &'static str = "\",\"description\":\"Application LaMetric pour les transports nantais (TAN/Naolib)\",\"endpoints\":[{\"path\":\"/\",\"method\":\"GET\",\"description\":\"Prochains passages pour LaMetric\"},\
    {\"path\":\"/stops\",\"method\":\"GET\",\"description\":\"Recherche d'arrêts\"},\
    {\"path\":\"/popular-stops\",\"method\":\"GET\",\"description\":\"Arrêts populaires\"},\
    {\"path\":\"/health\",\"method\":\"GET\",\"description\":\"État du serveur\"},\
    {\"path\":\"/info\",\"method\":\"GET\",\"description\":\"Documentation API\"}],\"parameters\":[{\"name\":\"stop\",\"type\":\"string\",\"required\":true,\"description\":\"Code arrêt (COMM, GANO...)\"},\
    {\"name\":\"line\",\"type\":\"string\",\"required\":false,\"description\":\"Filtre ligne (1, 2, C1...)\"},\
    {\"name\":\"direction\",\"type\":\"integer\",\"required\":false,\"description\":\"Direction (1 ou 2)\"},\
    {\"name\":\"limit\",\"type\":\"integer\",\"required\":false,\"description\":\"Nombre résultats (1-10)\"},\
    {\"name\":\"show_terminus\",\"type\":\"boolean\",\"required\":false,\"description\":\"Afficher destination\"}],\"examples\":[{\"description\":\"Passages Commerce\",\"url\":\"/?stop=COMM\"},\
    {\"description\":\"Ligne 1 direction 1\",\"url\":\"/?stop=COMM&line=1&direction=1\"},\
    {\"description\":\"5 passages + terminus\",\"url\":\"/?stop=GANO&limit=5&show_terminus=true\"},\
    {\"description\":\"Recherche gare\",\"url\":\"/stops?search=gare\"}]}";

/// Body of the answer to a health probe.
pub const CORPS_SANTE: &'static str = "OK";

/// Body of the answer to a request whose method is not GET.
pub const CORPS_METHODE_REFUSEE: &'static str = "{\"error\":\"Method not allowed\"}";

/// Body of the answer to a request for a path that the service does not know.
pub const CORPS_CHEMIN_INCONNU: &'static str = "{\"error\":\"Not found\"}";

/// The description of the service, for the version `version`.
pub open spec fn info_de(version: Seq<char>) -> Seq<char> {
    INFO_DEBUT@ + version + INFO_FIN@
}

/// The description that the service gives of itself: its name, its version,
/// its paths, their parameters and some examples, as a JSON object.
/// `version` is written as it is.
pub fn handle_info(version: &str) -> (corps: String)
    ensures
        corps@ == info_de(version@),
{
    let mut corps = String::from_str(INFO_DEBUT);
    corps.append(version);
    corps.append(INFO_FIN);
    corps
}

/// What the service does with a request.
#[derive(Debug, PartialEq, Eq)]
pub enum Route {
    /// The request asks for departures, with these parameters.
    Principal(Params),
    /// The request asks for the list of stops, with these parameters.
    Arrets(Params),
    /// The request is answered with this status and body, whatever the state
    /// of the service.
    Fixe(u16, String),
}

/// View of a [`Route`].
pub enum RouteVue {
    Principal(ParamsVue),
    Arrets(ParamsVue),
    Fixe(u16, Seq<char>),
}

impl DeepView for Route {
    type V = RouteVue;

    open spec fn deep_view(&self) -> RouteVue {
        match self {
            Route::Principal(params) => RouteVue::Principal(params@),
            Route::Arrets(params) => RouteVue::Arrets(params@),
            Route::Fixe(statut, corps) => RouteVue::Fixe(*statut, corps@),
        }
    }
}

impl View for Route {
    type V = RouteVue;

    open spec fn view(&self) -> RouteVue {
        self.deep_view()
    }
}

/// The path of a URL: what stands before its first `?`.
pub open spec fn chemin_de(url: Seq<char>) -> Seq<char> {
    url.take(premier_indice(url, '?'))
}

/// The query string of a URL: what stands after its first `?`; empty where
/// it has none.
pub open spec fn query_de(url: Seq<char>) -> Seq<char> {
    let i = premier_indice(url, '?');
    if i >= url.len() {
        Seq::empty()
    } else {
        url.skip(i + 1)
    }
}

/// Where a request goes. One whose method is not GET is answered with status
/// 405. The others go by their path: `/` asks for departures and `/stops`
/// for the list of stops, both with the parameters of the query string;
/// `/health`, `/popular-stops` and `/info` have a fixed answer with status
/// 200; every other path is answered with status 404.
pub open spec fn route_de(est_get: bool, url: Seq<char>, version: Seq<char>) -> RouteVue {
    let chemin = chemin_de(url);
    if !est_get {
        RouteVue::Fixe(405, CORPS_METHODE_REFUSEE@)
    } else if chemin == "/"@ {
        RouteVue::Principal(params_de(query_de(url)))
    } else if chemin == "/health"@ {
        RouteVue::Fixe(200, CORPS_SANTE@)
    } else if chemin == "/stops"@ {
        RouteVue::Arrets(params_de(query_de(url)))
    } else if chemin == "/popular-stops"@ {
        RouteVue::Fixe(200, ARRETS_POPULAIRES@)
    } else if chemin == "/info"@ {
        RouteVue::Fixe(200, info_de(version))
    } else {
        RouteVue::Fixe(404, CORPS_CHEMIN_INCONNU@)
    }
}

/// Decides where a request goes, from whether its method is GET and from its
/// URL. `version` is the version that the description of the service names.
pub fn router(est_get: bool, url: &str, version: &str) -> (route: Route)
    ensures
        route@ == route_de(est_get, url@, version@),
{
    if !est_get {
        return Route::Fixe(405, String::from_str(CORPS_METHODE_REFUSEE));
    }
    let u = caracteres(url);
    let signe = chercher(u.as_slice(), 0, u.len(), '?');
    proof {
        lemme_premier_indice(url@, '?', signe as int);
    }
    let chemin = slice_subrange(u.as_slice(), 0, signe);
    if egal("/", chemin) {
        Route::Principal(parse_query(query_du(url, signe)))
    } else if egal("/health", chemin) {
        Route::Fixe(200, String::from_str(CORPS_SANTE))
    } else if egal("/stops", chemin) {
        Route::Arrets(parse_query(query_du(url, signe)))
    } else if egal("/popular-stops", chemin) {
        Route::Fixe(200, String::from_str(ARRETS_POPULAIRES))
    } else if egal("/info", chemin) {
        Route::Fixe(200, handle_info(version))
    } else {
        Route::Fixe(404, String::from_str(CORPS_CHEMIN_INCONNU))
    }
}

/// The query string of `url`, whose first `?` stands at `signe`.
fn query_du(url: &str, signe: usize) -> (query: &str)
    requires
        signe == premier_indice(url@, '?'),
        signe <= url@.len(),
    ensures
        query@ == query_de(url@),
{
    let n = url.unicode_len();
    if signe >= n {
        proof {
            reveal_strlit("");
        }
        let vide = "";
        vide
    } else {
        let query = url.substring_char(signe + 1, n);
        query
    }
}

} // verus!
