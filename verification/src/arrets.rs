//! The list of stops that a client can search.

use vstd::prelude::*;
use vstd::string::*;
use crate::cache::{vue_acces, CacheArrets, CacheError, CacheVue};
use crate::dehors::minuscules;
use crate::modele::{ArretNaolib, ArretVue};
use crate::requete::{Params, ParamsVue};
use crate::resolution::LIMITE_PAR_DEFAUT;
use crate::suites::lemme_filtre_uniforme;
use crate::texte::{caracteres, contient, contient_exec};

verus! {

/// The greatest number of stops that one answer lists.
pub const LIMITE_LISTE: usize = 500;

/// The stop matches the search: without a term every stop does; with one,
/// the stops whose label or code, put in lower case, holds the term as it is.
pub open spec fn correspond(arret: ArretVue, recherche: Option<Seq<char>>) -> bool {
    recherche matches Some(terme) ==> contient(minuscules(arret.libelle), terme) || contient(
        minuscules(arret.code_lieu),
        terme,
    )
}

/// The stops that an answer lists: of those that match the search, in their
/// order, the first `limite`, and never more than `LIMITE_LISTE`.
pub open spec fn arrets_listes(
    arrets: Seq<ArretVue>,
    recherche: Option<Seq<char>>,
    limite: nat,
) -> Seq<ArretVue> {
    let trouves = arrets.filter(|a: ArretVue| correspond(a, recherche));
    let n = if limite < LIMITE_LISTE {
        limite
    } else {
        LIMITE_LISTE as nat
    };
    if trouves.len() <= n {
        trouves
    } else {
        trouves.take(n as int)
    }
}

/// The object of one stop: its code and its label between quotes, written as
/// they are.
pub open spec fn json_arret(arret: ArretVue) -> Seq<char> {
    "{\"codeLieu\":\""@ + arret.code_lieu + "\",\"libelle\":\""@ + arret.libelle + "\"}"@
}

/// The objects of `arrets` with a comma between each two.
pub open spec fn json_arrets(arrets: Seq<ArretVue>) -> Seq<char>
    decreases arrets.len(),
{
    if arrets.len() == 0 {
        Seq::empty()
    } else if arrets.len() == 1 {
        json_arret(arrets[0])
    } else {
        json_arrets(arrets.drop_last()) + ","@ + json_arret(arrets.last())
    }
}

/// The body that lists `arrets`: a JSON array of their objects.
pub open spec fn corps_arrets(arrets: Seq<ArretVue>) -> Seq<char> {
    "["@ + json_arrets(arrets) + "]"@
}

/// Whether `arret` matches the search for `terme`.
fn correspond_exec(arret: &ArretNaolib, terme: &Option<Vec<char>>) -> (r: bool)
    ensures
        r == correspond(
            arret@,
            match *terme {
                Some(t) => Some(t@),
                None => None,
            },
        ),
{
    match terme {
        None => true,
        Some(t) => {
            let libelle = caracteres(arret.libelle.as_str().to_lowercase().as_str());
            if contient_exec(libelle.as_slice(), t.as_slice()) {
                return true;
            }
            let code = caracteres(arret.code_lieu.as_str().to_lowercase().as_str());
            contient_exec(code.as_slice(), t.as_slice())
        },
    }
}

/// The stops of `cache` that match `recherche`, in their order: the first
/// `limite` of them, and never more than `LIMITE_LISTE`. The term is
/// compared as it is with the lower-case form of labels and codes, so a
/// search that ignores case hands in a term in lower case.
pub fn lister_arrets(cache: &CacheArrets, recherche: Option<&str>, limite: usize) -> (liste: Vec<
    ArretNaolib,
>)
    ensures
        liste.deep_view() == arrets_listes(
            cache@.arrets,
            match recherche {
                Some(t) => Some(t@),
                None => None,
            },
            limite as nat,
        ),
{
    let terme: Option<Vec<char>> = match recherche {
        Some(t) => Some(caracteres(t)),
        None => None,
    };
    let n: usize = if limite < LIMITE_LISTE {
        limite
    } else {
        LIMITE_LISTE
    };
    let tous = cache.arrets();
    let ghost vues = cache@.arrets;
    let ghost cherche: Option<Seq<char>> = match recherche {
        Some(t) => Some(t@),
        None => None,
    };
    let ghost pred = |a: ArretVue| correspond(a, cherche);
    let mut liste: Vec<ArretNaolib> = Vec::new();
    let mut i: usize = 0;
    proof {
        reveal(Seq::filter);
    }
    while i < tous.len() && liste.len() < n
        invariant
            i <= tous.len(),
            vues == tous.deep_view(),
            pred == (|a: ArretVue| correspond(a, cherche)),
            cherche == match terme {
                Some(t) => Some(t@),
                None => None,
            },
            liste.len() <= n,
            liste.deep_view() == vues.take(i as int).filter(pred),
        decreases tous.len() - i,
    {
        let arret = &tous[i];
        proof {
            assert(vues.take(i + 1) =~= vues.take(i as int).push(vues[i as int]));
            Seq::lemma_filter_push(vues.take(i as int), vues[i as int], pred);
        }
        if correspond_exec(arret, &terme) {
            liste.push(arret.clone());
        }
        i = i + 1;
    }
    proof {
        let vus = vues.take(i as int);
        let reste = vues.skip(i as int);
        assert(vues =~= vus + reste);
        Seq::filter_distributes_over_add(vus, reste, pred);
        if i == tous.len() {
            reveal(Seq::filter);
        }
    }
    liste
}

/// Writes the body that lists `arrets`.
pub fn ecrire_arrets(arrets: &Vec<ArretNaolib>) -> (corps: String)
    ensures
        corps@ == corps_arrets(arrets.deep_view()),
{
    let mut corps = String::from_str("[");
    let ghost vues = arrets.deep_view();
    let ghost mut ecrit: Seq<char> = Seq::empty();
    let mut i: usize = 0;
    while i < arrets.len()
        invariant
            i <= arrets.len(),
            vues == arrets.deep_view(),
            corps@ == "["@ + ecrit,
            ecrit == json_arrets(vues.take(i as int)),
        decreases arrets.len() - i,
    {
        let arret = &arrets[i];
        proof {
            assert(vues.take(i + 1).drop_last() =~= vues.take(i as int));
        }
        if i > 0 {
            corps.append(",");
            proof {
                ecrit = ecrit + ","@;
            }
        }
        corps.append("{\"codeLieu\":\"");
        corps.append(arret.code_lieu.as_str());
        corps.append("\",\"libelle\":\"");
        corps.append(arret.libelle.as_str());
        corps.append("\"}");
        proof {
            ecrit = ecrit + json_arret(arret@);
        }
        i = i + 1;
    }
    assert(vues.take(i as int) =~= vues);
    corps.append("]");
    corps
}

/// Body of the answer to a request for stops where the cache cannot be read.
pub const CORPS_CACHE_ILLISIBLE: &'static str = "{\"error\":\"Cache error\"}";

/// Body of the answer to a request for stops while the cache holds none.
pub const CORPS_CACHE_VIDE: &'static str = "{\"error\":\"Cache not ready\"}";

/// The limit of a request for stops: the one that the query string names,
/// else `LIMITE_PAR_DEFAUT`.
pub open spec fn limite_liste(params: ParamsVue) -> nat {
    match params.limit {
        Some(n) => n as nat,
        None => LIMITE_PAR_DEFAUT as nat,
    }
}

/// Status and body of the answer to a request for stops: 500 where the cache
/// cannot be read, 503 while it holds no stop, else 200 with the stops that
/// match `search`, cut at the limit.
pub open spec fn reponse_arrets(cache: Option<CacheVue>, params: ParamsVue) -> (u16, Seq<char>) {
    match cache {
        None => (500, CORPS_CACHE_ILLISIBLE@),
        Some(c) => if c.arrets.len() == 0 {
            (503, CORPS_CACHE_VIDE@)
        } else {
            (200, corps_arrets(arrets_listes(c.arrets, params.search, limite_liste(params))))
        },
    }
}

/// Answers a request for the list of stops. A cold cache holds no stop, so it
/// is answered with 503.
pub fn handle_stops(acces: Result<&CacheArrets, CacheError>, params: &Params) -> (reponse: (
    u16,
    String,
))
    ensures
        reponse.0 == reponse_arrets(vue_acces(acces), params@).0,
        reponse.1@ == reponse_arrets(vue_acces(acces), params@).1,
        acces matches Ok(cache) && cache@.derniere_maj is None ==> reponse.0 == 503,
{
    let cache = match acces {
        Ok(cache) => cache,
        Err(_) => {
            return (500, String::from_str(CORPS_CACHE_ILLISIBLE));
        },
    };
    if cache.arrets().len() == 0 {
        return (503, String::from_str(CORPS_CACHE_VIDE));
    }
    let limite: usize = match params.limit {
        Some(n) => n,
        None => LIMITE_PAR_DEFAUT,
    };
    let recherche: Option<&str> = match &params.search {
        Some(terme) => Some(terme.as_str()),
        None => None,
    };
    let liste = lister_arrets(cache, recherche, limite);
    (200, ecrire_arrets(&liste))
}

/// An answer lists at most `limite` stops and never more than
/// `LIMITE_LISTE`; every stop that it lists matches the search; and without
/// a search it lists the first stops of the cache, in their order.
pub proof fn loi_liste_bornee(arrets: Seq<ArretVue>, recherche: Option<Seq<char>>, limite: nat)
    ensures
        arrets_listes(arrets, recherche, limite).len() <= limite,
        arrets_listes(arrets, recherche, limite).len() <= LIMITE_LISTE,
        arrets_listes(arrets, recherche, limite).len() <= arrets.len(),
        forall|i: int|
            0 <= i < arrets_listes(arrets, recherche, limite).len() ==> correspond(
                #[trigger] arrets_listes(arrets, recherche, limite)[i],
                recherche,
            ),
        recherche is None ==> forall|i: int|
            0 <= i < arrets_listes(arrets, recherche, limite).len() ==> (#[trigger] arrets_listes(
                arrets,
                recherche,
                limite,
            )[i]) == arrets[i],
{
    let pred = |a: ArretVue| correspond(a, recherche);
    let trouves = arrets.filter(pred);
    arrets.lemma_filter_len(pred);
    assert forall|i: int| 0 <= i < trouves.len() implies pred(#[trigger] trouves[i]) by {
        arrets.lemma_filter_pred(pred, i);
    }
    if recherche is None {
        lemme_filtre_uniforme(arrets, pred);
    }
}

} // verus!
