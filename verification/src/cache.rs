//! The list of the stops of the network, kept with the time at which it was
//! fetched. A cache is cold until its first successful refresh and warm from
//! then on; it is valid for `CACHE_TTL_SECS` seconds after a refresh.
//!
//! Times are seconds read from a monotonic clock; the library never reads a
//! clock itself.

use vstd::prelude::*;
use crate::modele::{ArretNaolib, ArretVue, UpstreamError};
use crate::texte::{caracteres, egal_sans_casse, egal_sans_casse_exec};

verus! {

/// How long a fetched list of stops stays valid, in seconds.
pub const CACHE_TTL_SECS: u64 = 3600;

/// The cached list of stops and the time of its last refresh.
pub struct CacheArrets {
    liste: Vec<ArretNaolib>,
    derniere_maj: Option<u64>,
}

/// View of a [`CacheArrets`]: the stops it holds, and the time of the last
/// successful refresh, `None` for a cold cache.
pub struct CacheVue {
    pub arrets: Seq<ArretVue>,
    pub derniere_maj: Option<u64>,
}

impl CacheVue {
    /// The cold cache: no stop, never refreshed.
    pub open spec fn froid() -> CacheVue {
        CacheVue { arrets: Seq::empty(), derniere_maj: None }
    }

    /// The cache has been refreshed, and less than `CACHE_TTL_SECS` seconds
    /// before `maintenant`. At a time before its refresh a cache is valid:
    /// no time has passed.
    pub open spec fn valide_a(self, maintenant: u64) -> bool {
        self.derniere_maj matches Some(t) && maintenant - t < CACHE_TTL_SECS
    }

    /// The cache after a successful refresh at `maintenant` that fetched
    /// `arrets`. The list is replaced as a whole. The time becomes
    /// `maintenant`, unless the time already held is later: it never moves
    /// backwards.
    pub open spec fn rafraichi(self, arrets: Seq<ArretVue>, maintenant: u64) -> CacheVue {
        CacheVue {
            arrets,
            derniere_maj: Some(
                match self.derniere_maj {
                    Some(t) if t > maintenant => t,
                    _ => maintenant,
                },
            ),
        }
    }

    /// `code` is the code of one of the stops held, up to the case of ASCII
    /// letters.
    pub open spec fn connait(self, code: Seq<char>) -> bool {
        exists|i: int|
            0 <= i < self.arrets.len() && egal_sans_casse(#[trigger] self.arrets[i].code_lieu, code)
    }

    /// `code` passes as a stop code: every code does while no stop is held,
    /// and exactly the codes of the stops held once there are some.
    pub open spec fn accepte(self, code: Seq<char>) -> bool {
        self.arrets.len() == 0 || self.connait(code)
    }
}

impl View for CacheArrets {
    type V = CacheVue;

    closed spec fn view(&self) -> CacheVue {
        CacheVue { arrets: self.liste.deep_view(), derniere_maj: self.derniere_maj }
    }
}

impl CacheArrets {
    /// A cold cache holds no stop.
    #[verifier::type_invariant]
    spec fn coherent(self) -> bool {
        self.derniere_maj is None ==> self.liste@.len() == 0
    }

    /// The cold cache.
    pub fn new() -> (cache: Self)
        ensures
            cache@ == CacheVue::froid(),
    {
        let cache = CacheArrets { liste: Vec::new(), derniere_maj: None };
        assert(cache@.arrets =~= Seq::<ArretVue>::empty());
        cache
    }

    /// The stops held, in the order in which they were fetched. A cold cache
    /// holds none.
    pub fn arrets(&self) -> (liste: &Vec<ArretNaolib>)
        ensures
            liste.deep_view() == self@.arrets,
            self@.derniere_maj is None ==> liste@.len() == 0,
    {
        proof {
            use_type_invariant(self);
        }
        &self.liste
    }

    /// The time of the last successful refresh, `None` for a cold cache.
    pub fn derniere_maj(&self) -> (instant: Option<u64>)
        ensures
            instant == self@.derniere_maj,
    {
        self.derniere_maj
    }
}

/// The cache cannot be read: the lock that guards it is lost.
#[derive(Clone, Copy, Debug, PartialEq, Eq, Structural)]
pub struct CacheError;

/// The view of a cache that may not be readable, `None` where it is not.
pub open spec fn vue_acces(acces: Result<&CacheArrets, CacheError>) -> Option<CacheVue> {
    match acces {
        Ok(cache) => Some(cache@),
        Err(_) => None,
    }
}

/// `code` passes as a stop code: every code does where the cache cannot be
/// read; else see [`CacheVue::accepte`].
pub open spec fn code_accepte(cache: Option<CacheVue>, code: Seq<char>) -> bool {
    match cache {
        Some(c) => c.accepte(code),
        None => true,
    }
}

/// Whether the cache is valid at `maintenant`. A cache that could not be read
/// counts as not valid, as a cold cache does.
pub fn cache_valide(acces: Result<&CacheArrets, CacheError>, maintenant: u64) -> (valide: bool)
    ensures
        valide == (acces matches Ok(cache) && cache@.valide_a(maintenant)),
{
    match acces {
        Ok(cache) => match cache.derniere_maj {
            Some(t) => maintenant < t || maintenant - t < CACHE_TTL_SECS,
            None => false,
        },
        Err(_) => false,
    }
}

/// Whether `code` passes as a stop code. While the cache holds no stop, and
/// where it could not be read, every code passes: a request for departures
/// is served even when the list of stops is not to be had. Once the cache
/// holds stops, exactly their codes pass, compared up to the case of ASCII
/// letters.
pub fn code_arret_valide(acces: Result<&CacheArrets, CacheError>, code: &str) -> (valide: bool)
    ensures
        valide == code_accepte(vue_acces(acces), code@),
        acces is Err ==> valide,
        acces matches Ok(cache) ==> (cache@.arrets.len() == 0 ==> valide),
        acces matches Ok(cache) ==> (cache@.arrets.len() > 0 ==> (valide <==> cache@.connait(
            code@,
        ))),
{
    let cache = match acces {
        Ok(cache) => cache,
        Err(_) => {
            return true;
        },
    };
    if cache.liste.len() == 0 {
        return true;
    }
    let cherche = caracteres(code);
    let mut i: usize = 0;
    while i < cache.liste.len()
        invariant
            i <= cache.liste.len(),
            acces == Ok::<&CacheArrets, CacheError>(cache),
            cherche@ == code@,
            forall|j: int|
                0 <= j < i ==> !egal_sans_casse(#[trigger] cache@.arrets[j].code_lieu, code@),
        decreases cache.liste.len() - i,
    {
        if egal_sans_casse_exec(cache.liste[i].code_lieu.as_str(), cherche.as_slice()) {
            assert(egal_sans_casse(cache@.arrets[i as int].code_lieu, code@));
            return true;
        }
        i = i + 1;
    }
    false
}

/// Takes in the outcome of fetching the list of stops at `maintenant`. On
/// success the list held is replaced as a whole and the cache is warm; on
/// failure the cache stays as it was, and the failure is handed back.
pub fn rafraichir_cache(
    cache: &mut CacheArrets,
    resultat: Result<Vec<ArretNaolib>, UpstreamError>,
    maintenant: u64,
) -> (issue: Result<(), UpstreamError>)
    ensures
        match resultat {
            Ok(arrets) => issue is Ok && final(cache)@ == old(cache)@.rafraichi(
                arrets.deep_view(),
                maintenant,
            ),
            Err(e) => issue == Err::<(), UpstreamError>(e) && final(cache)@ == old(cache)@,
        },
{
    match resultat {
        Ok(arrets) => {
            let instant = match cache.derniere_maj {
                Some(t) if t > maintenant => t,
                _ => maintenant,
            };
            cache.derniere_maj = Some(instant);
            cache.liste = arrets;
            Ok(())
        },
        Err(e) => Err(e),
    }
}

/// A cold cache is valid at no time. A refresh that succeeds at `instant`,
/// read from a clock that does not run backwards, makes the cache valid at
/// `instant`, and from then on it is valid exactly as long as less than
/// `CACHE_TTL_SECS` seconds have passed since `instant`.
pub proof fn loi_validite(avant: CacheVue, arrets: Seq<ArretVue>, instant: u64, plus_tard: u64)
    requires
        avant.derniere_maj matches Some(t) ==> t <= instant,
        instant <= plus_tard,
    ensures
        forall|t: u64| !(#[trigger] CacheVue::froid().valide_a(t)),
        avant.rafraichi(arrets, instant).valide_a(instant),
        avant.rafraichi(arrets, instant).valide_a(plus_tard) <==> plus_tard - instant
            < CACHE_TTL_SECS,
{
}

/// The time of the last refresh never moves backwards, and a cache that has
/// been refreshed once is never cold again.
pub proof fn loi_instant_monotone(avant: CacheVue, arrets: Seq<ArretVue>, instant: u64)
    ensures
        avant.rafraichi(arrets, instant).derniere_maj is Some,
        avant.derniere_maj matches Some(t) ==> avant.rafraichi(arrets, instant).derniere_maj->0
            >= t,
        avant.rafraichi(arrets, instant).derniere_maj->0 >= instant,
{
}

} // verus!
