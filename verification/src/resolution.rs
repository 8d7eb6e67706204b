//! From the parameters of a request and the defaults of the process to the
//! configuration of the request: defaults are overridden, then the outcome
//! is validated.

use vstd::prelude::*;
use vstd::string::*;
use crate::cache::{
    code_accepte, code_arret_valide, vue_acces, CacheArrets, CacheError, CacheVue,
};
use crate::requete::{direction_lue, limite_lue, DirectionDemandee, Params, ParamsVue};
use crate::texte::lire_entier;

verus! {

/// The limit of a request that names none, where the process sets no other.
pub const LIMITE_PAR_DEFAUT: usize = 2;

/// The least number of departures that a request can ask for.
pub const LIMITE_MIN: usize = 1;

/// The greatest number of departures that a request can ask for.
pub const LIMITE_MAX: usize = 10;

/// Why a request cannot be resolved.
#[derive(Clone, Copy, Debug, PartialEq, Eq, Structural)]
pub enum ConfigError {
    /// Neither the query string nor the defaults name a stop.
    MissingStopCode,
    /// The stop named is not a stop of the network.
    InvalidStopCode,
    /// The direction named is neither 1 nor 2.
    InvalidDirection,
}

/// The defaults of the process, which a query string overrides.
#[derive(Debug, PartialEq, Eq)]
pub struct EnvDefaults {
    pub stop_code: String,
    pub line: Option<String>,
    pub direction: DirectionDemandee,
    pub limit: usize,
}

/// View of [`EnvDefaults`].
pub struct EnvDefaultsVue {
    pub stop_code: Seq<char>,
    pub line: Option<Seq<char>>,
    pub direction: DirectionDemandee,
    pub limit: usize,
}

impl DeepView for EnvDefaults {
    type V = EnvDefaultsVue;

    open spec fn deep_view(&self) -> EnvDefaultsVue {
        EnvDefaultsVue {
            stop_code: self.stop_code@,
            line: self.line.deep_view(),
            direction: self.direction,
            limit: self.limit,
        }
    }
}

impl View for EnvDefaults {
    type V = EnvDefaultsVue;

    open spec fn view(&self) -> EnvDefaultsVue {
        self.deep_view()
    }
}

/// The defaults that four optional settings of the process give. A setting
/// that is empty counts as one that is not set. The stop and the line are
/// taken as they are written; the direction is read as the one of a query
/// string is; the limit is the number written, and `LIMITE_PAR_DEFAUT` where
/// none is.
pub open spec fn defauts_lus(
    stop: Option<Seq<char>>,
    line: Option<Seq<char>>,
    direction: Option<Seq<char>>,
    limit: Option<Seq<char>>,
) -> EnvDefaultsVue {
    EnvDefaultsVue {
        stop_code: match stop {
            Some(s) => s,
            None => Seq::empty(),
        },
        line: match line {
            Some(l) if l.len() > 0 => Some(l),
            _ => None,
        },
        direction: match direction {
            Some(d) if d.len() > 0 => direction_lue(d),
            _ => DirectionDemandee::Absente,
        },
        limit: match limit {
            Some(l) => match limite_lue(l) {
                Some(n) => n,
                None => LIMITE_PAR_DEFAUT,
            },
            None => LIMITE_PAR_DEFAUT,
        },
    }
}

impl EnvDefaults {
    /// Reads the defaults of the process from the texts of its four settings,
    /// each `None` where it is not set.
    pub fn lire(
        stop: Option<&str>,
        line: Option<&str>,
        direction: Option<&str>,
        limit: Option<&str>,
    ) -> (defauts: EnvDefaults)
        ensures
            defauts@ == defauts_lus(
                stop.deep_view(),
                line.deep_view(),
                direction.deep_view(),
                limit.deep_view(),
            ),
    {
        let stop_code = match stop {
            Some(s) => String::from_str(s),
            None => String::new(),
        };
        let line = match line {
            Some(l) => if l.is_empty() {
                None
            } else {
                Some(String::from_str(l))
            },
            None => None,
        };
        let direction = match direction {
            Some(d) => if d.is_empty() {
                DirectionDemandee::Absente
            } else {
                match lire_entier(d, 255) {
                    Some(n) => DirectionDemandee::Lue(n as u8),
                    None => DirectionDemandee::Illisible,
                }
            },
            None => DirectionDemandee::Absente,
        };
        let limit = match limit {
            Some(l) => match lire_entier(l, usize::MAX as u64) {
                Some(n) => n as usize,
                None => LIMITE_PAR_DEFAUT,
            },
            None => LIMITE_PAR_DEFAUT,
        };
        EnvDefaults { stop_code, line, direction, limit }
    }
}

/// The configuration of one request for departures, after defaults and query
/// parameters have been merged and validated.
#[derive(Debug, PartialEq, Eq)]
pub struct RequestConfig {
    pub stop_code: String,
    pub line_filter: Option<String>,
    pub direction_filter: Option<u8>,
    pub limit: usize,
    pub show_terminus: bool,
}

/// View of a [`RequestConfig`].
pub struct RequestConfigVue {
    pub stop_code: Seq<char>,
    pub line_filter: Option<Seq<char>>,
    pub direction_filter: Option<u8>,
    pub limit: nat,
    pub show_terminus: bool,
}

impl DeepView for RequestConfig {
    type V = RequestConfigVue;

    open spec fn deep_view(&self) -> RequestConfigVue {
        RequestConfigVue {
            stop_code: self.stop_code@,
            line_filter: self.line_filter.deep_view(),
            direction_filter: self.direction_filter,
            limit: self.limit as nat,
            show_terminus: self.show_terminus,
        }
    }
}

impl View for RequestConfig {
    type V = RequestConfigVue;

    open spec fn view(&self) -> RequestConfigVue {
        self.deep_view()
    }
}

impl RequestConfigVue {
    /// What holds of every configuration that a request resolves to: it names
    /// a stop, its limit lies between `LIMITE_MIN` and `LIMITE_MAX`, and its
    /// direction, if it has one, is 1 or 2.
    pub open spec fn est_valide(self) -> bool {
        &&& self.stop_code.len() > 0
        &&& LIMITE_MIN <= self.limit <= LIMITE_MAX
        &&& direction_admise(self.direction_filter)
    }
}

/// A direction is 1 or 2.
pub open spec fn direction_admise(direction: Option<u8>) -> bool {
    direction matches Some(d) ==> d == 1 || d == 2
}

/// `limite` brought into the range from `LIMITE_MIN` to `LIMITE_MAX`.
pub open spec fn limite_bornee(limite: usize) -> nat {
    if limite < LIMITE_MIN {
        LIMITE_MIN as nat
    } else if limite > LIMITE_MAX {
        LIMITE_MAX as nat
    } else {
        limite as nat
    }
}

/// The stop that a request is about: the one that the query string names,
/// be it empty, else the default.
pub open spec fn arret_demande(defauts: EnvDefaultsVue, params: ParamsVue) -> Seq<char> {
    match params.stop {
        Some(stop) => stop,
        None => defauts.stop_code,
    }
}

/// The direction that a request names: the one of the query string where it
/// names one, be it unreadable, else the default one.
pub open spec fn direction_demandee(defauts: EnvDefaultsVue, params: ParamsVue) -> DirectionDemandee {
    match params.direction {
        DirectionDemandee::Absente => defauts.direction,
        nommee => nommee,
    }
}

/// The direction of a request is refused: it cannot be read, or it is a
/// number other than 1 and 2. A request that names no direction is not
/// refused.
pub open spec fn direction_refusee(defauts: EnvDefaultsVue, params: ParamsVue) -> bool {
    match direction_demandee(defauts, params) {
        DirectionDemandee::Absente => false,
        DirectionDemandee::Lue(d) => d != 1 && d != 2,
        DirectionDemandee::Illisible => true,
    }
}

/// The direction by which the departures of a request are filtered, none
/// where the request names none.
pub open spec fn filtre_direction(defauts: EnvDefaultsVue, params: ParamsVue) -> Option<u8> {
    match direction_demandee(defauts, params) {
        DirectionDemandee::Lue(d) => Some(d),
        _ => None,
    }
}

/// What a request resolves to. Each parameter that the query string names
/// overrides its default. Then, in this order: without a stop the request
/// fails with `MissingStopCode`; with a direction that is refused, with
/// `InvalidDirection`; with a stop that `cache` does not accept, with
/// `InvalidStopCode`. A cache that cannot be read (`None`) accepts every
/// stop.
pub open spec fn resolution(
    defauts: EnvDefaultsVue,
    params: ParamsVue,
    cache: Option<CacheVue>,
) -> Result<RequestConfigVue, ConfigError> {
    let stop = arret_demande(defauts, params);
    if stop.len() == 0 {
        Err(ConfigError::MissingStopCode)
    } else if direction_refusee(defauts, params) {
        Err(ConfigError::InvalidDirection)
    } else if !code_accepte(cache, stop) {
        Err(ConfigError::InvalidStopCode)
    } else {
        Ok(
            RequestConfigVue {
                stop_code: stop,
                line_filter: match params.line {
                    Some(ligne) => Some(ligne),
                    None => defauts.line,
                },
                direction_filter: filtre_direction(defauts, params),
                limit: limite_bornee(
                    match params.limit {
                        Some(n) => n,
                        None => defauts.limit,
                    },
                ),
                show_terminus: params.show_terminus,
            },
        )
    }
}

/// The view of the outcome of a resolution.
pub open spec fn vue_issue(r: Result<RequestConfig, ConfigError>) -> Result<
    RequestConfigVue,
    ConfigError,
> {
    match r {
        Ok(config) => Ok(config@),
        Err(e) => Err(e),
    }
}

/// A copy of an optional text.
fn copie_option(texte: &Option<String>) -> (copie: Option<String>)
    ensures
        copie.deep_view() == texte.deep_view(),
{
    match texte {
        Some(t) => Some(t.clone()),
        None => None,
    }
}

/// Merges the defaults of the process with the parameters of a query string
/// and validates the outcome against the stops that the cache holds.
pub fn resolve(
    defauts: &EnvDefaults,
    params: &Params,
    acces: Result<&CacheArrets, CacheError>,
) -> (r: Result<RequestConfig, ConfigError>)
    ensures
        vue_issue(r) == resolution(defauts@, params@, vue_acces(acces)),
        r matches Ok(config) ==> config@.est_valide(),
{
    let stop: &String = match &params.stop {
        Some(stop) => stop,
        None => &defauts.stop_code,
    };
    if stop.as_str().is_empty() {
        return Err(ConfigError::MissingStopCode);
    }
    let nommee = match params.direction {
        DirectionDemandee::Absente => defauts.direction,
        nommee => nommee,
    };
    let direction: Option<u8> = match nommee {
        DirectionDemandee::Absente => None,
        DirectionDemandee::Lue(d) => {
            if d != 1 && d != 2 {
                return Err(ConfigError::InvalidDirection);
            }
            Some(d)
        },
        DirectionDemandee::Illisible => {
            return Err(ConfigError::InvalidDirection);
        },
    };
    if !code_arret_valide(acces, stop.as_str()) {
        return Err(ConfigError::InvalidStopCode);
    }
    let demandee: usize = match params.limit {
        Some(n) => n,
        None => defauts.limit,
    };
    let limit: usize = if demandee < LIMITE_MIN {
        LIMITE_MIN
    } else if demandee > LIMITE_MAX {
        LIMITE_MAX
    } else {
        demandee
    };
    let line_filter = match &params.line {
        Some(ligne) => Some(ligne.clone()),
        None => copie_option(&defauts.line),
    };
    Ok(
        RequestConfig {
            stop_code: stop.clone(),
            line_filter,
            direction_filter: direction,
            limit,
            show_terminus: params.show_terminus,
        },
    )
}

/// The three checks of a request come in a fixed order. A request without a
/// stop fails with `MissingStopCode`, whatever its direction and whatever the
/// cache holds. A request with a stop and a direction that is refused fails
/// with `InvalidDirection`, whatever the cache holds. Only a request with a
/// stop and a direction that is not refused can fail with `InvalidStopCode`,
/// and it does where the cache does not accept its stop.
pub proof fn loi_ordre_des_controles(
    defauts: EnvDefaultsVue,
    params: ParamsVue,
    cache: Option<CacheVue>,
)
    ensures
        ({
            let stop = arret_demande(defauts, params);
            let issue = resolution(defauts, params, cache);
            &&& stop.len() == 0 ==> issue == Err::<RequestConfigVue, ConfigError>(
                ConfigError::MissingStopCode,
            )
            &&& stop.len() > 0 && direction_refusee(defauts, params) ==> issue == Err::<
                RequestConfigVue,
                ConfigError,
            >(ConfigError::InvalidDirection)
            &&& stop.len() > 0 && !direction_refusee(defauts, params) && !code_accepte(cache, stop)
                ==> issue == Err::<RequestConfigVue, ConfigError>(ConfigError::InvalidStopCode)
            &&& stop.len() > 0 && !direction_refusee(defauts, params) && code_accepte(cache, stop)
                ==> issue is Ok
        }),
{
}

/// The limit of a resolved request always lies between `LIMITE_MIN` and
/// `LIMITE_MAX`: a limit below is raised to `LIMITE_MIN`, one above is
/// lowered to `LIMITE_MAX`, one in between is kept, and a limit that the
/// query string does not name, or that is not a number, is the default one
/// brought into that range.
pub proof fn loi_limite_bornee(defauts: EnvDefaultsVue, params: ParamsVue, cache: Option<CacheVue>)
    requires
        resolution(defauts, params, cache) is Ok,
    ensures
        ({
            let config = resolution(defauts, params, cache)->Ok_0;
            let demandee = match params.limit {
                Some(n) => n,
                None => defauts.limit,
            };
            &&& LIMITE_MIN <= config.limit <= LIMITE_MAX
            &&& demandee < LIMITE_MIN ==> config.limit == LIMITE_MIN
            &&& demandee > LIMITE_MAX ==> config.limit == LIMITE_MAX
            &&& LIMITE_MIN <= demandee <= LIMITE_MAX ==> config.limit == demandee
            &&& config.est_valide()
        }),
{
}

} // verus!
