//! The parameters of a request: what its query string names.

use vstd::prelude::*;
use vstd::slice::slice_subrange;
use vstd::string::*;
use crate::dehors::{decodage_pourcent, decoder_pourcent, majuscules, minuscules};
use crate::texte::{
    caracteres, chercher, decouper, egal, entier_lu, lemme_derniere_partie, lemme_premier_indice,
    lire_entier, premier_indice,
};

verus! {

/// A direction as a query string, or a setting of the process, names it.
#[derive(Clone, Copy, Debug, PartialEq, Eq, Structural)]
pub enum DirectionDemandee {
    /// No direction is named.
    Absente,
    /// This number is named.
    Lue(u8),
    /// What is named is not a number below 256.
    Illisible,
}

/// The parameters of a query string. `limit` is `None` where the query
/// string names no limit or one that is not a number.
#[derive(Debug, PartialEq, Eq)]
pub struct Params {
    pub stop: Option<String>,
    pub line: Option<String>,
    pub direction: DirectionDemandee,
    pub limit: Option<usize>,
    pub show_terminus: bool,
    pub search: Option<String>,
}

/// View of [`Params`].
pub struct ParamsVue {
    pub stop: Option<Seq<char>>,
    pub line: Option<Seq<char>>,
    pub direction: DirectionDemandee,
    pub limit: Option<usize>,
    pub show_terminus: bool,
    pub search: Option<Seq<char>>,
}

impl DeepView for Params {
    type V = ParamsVue;

    open spec fn deep_view(&self) -> ParamsVue {
        ParamsVue {
            stop: self.stop.deep_view(),
            line: self.line.deep_view(),
            direction: self.direction,
            limit: self.limit,
            show_terminus: self.show_terminus,
            search: self.search.deep_view(),
        }
    }
}

impl View for Params {
    type V = ParamsVue;

    open spec fn view(&self) -> ParamsVue {
        self.deep_view()
    }
}

impl ParamsVue {
    /// The parameters of a query string that names nothing.
    pub open spec fn aucun() -> ParamsVue {
        ParamsVue {
            stop: None,
            line: None,
            direction: DirectionDemandee::Absente,
            limit: None,
            show_terminus: false,
            search: None,
        }
    }
}

impl Params {
    /// The parameters of a query string that names nothing.
    pub fn aucun() -> (params: Params)
        ensures
            params@ == ParamsVue::aucun(),
    {
        Params {
            stop: None,
            line: None,
            direction: DirectionDemandee::Absente,
            limit: None,
            show_terminus: false,
            search: None,
        }
    }
}

/// The value of a parameter once decoded; empty where it cannot be decoded.
pub open spec fn valeur_decodee(brut: Seq<char>) -> Seq<char> {
    match decodage_pourcent(brut) {
        Some(texte) => texte,
        None => Seq::empty(),
    }
}

/// The direction that a value names.
pub open spec fn direction_lue(valeur: Seq<char>) -> DirectionDemandee {
    match entier_lu(valeur, 255) {
        Some(n) => DirectionDemandee::Lue(n as u8),
        None => DirectionDemandee::Illisible,
    }
}

/// The limit that a value names, `None` where it is not a number.
pub open spec fn limite_lue(valeur: Seq<char>) -> Option<usize> {
    match entier_lu(valeur, usize::MAX as nat) {
        Some(n) => Some(n as usize),
        None => None,
    }
}

/// The parameters after one more part of the query string. A part without
/// `=` changes nothing. Else the key is what stands before the first `=` and
/// the value what stands after it, decoded; a part with a key that is not
/// known changes nothing.
pub open spec fn apres_partie(params: ParamsVue, partie: Seq<char>) -> ParamsVue {
    let i = premier_indice(partie, '=');
    if i >= partie.len() {
        params
    } else {
        let cle = partie.take(i);
        let valeur = valeur_decodee(partie.skip(i + 1));
        if cle == "stop"@ {
            ParamsVue { stop: Some(majuscules(valeur)), ..params }
        } else if cle == "line"@ {
            ParamsVue { line: Some(majuscules(valeur)), ..params }
        } else if cle == "direction"@ {
            ParamsVue { direction: direction_lue(valeur), ..params }
        } else if cle == "limit"@ {
            ParamsVue { limit: limite_lue(valeur), ..params }
        } else if cle == "show_terminus"@ {
            ParamsVue { show_terminus: valeur == "true"@ || valeur == "1"@, ..params }
        } else if cle == "search"@ {
            ParamsVue { search: Some(minuscules(valeur)), ..params }
        } else {
            params
        }
    }
}

/// The parameters after the parts `parties`, taken in their order: of two
/// parts with the same key the later one wins.
pub open spec fn apres_parties(parties: Seq<Seq<char>>) -> ParamsVue {
    parties.fold_left(
        ParamsVue::aucun(),
        |params: ParamsVue, partie: Seq<char>| apres_partie(params, partie),
    )
}

/// The parameters of a query string: those of its parts between `&`.
pub open spec fn params_de(query: Seq<char>) -> ParamsVue {
    apres_parties(decouper(query, '&'))
}

/// Takes in the part of the query string that stands from `debut` to `fin`.
fn lire_partie(params: Params, query: &str, q: &Vec<char>, debut: usize, fin: usize) -> (suite:
    Params)
    requires
        q@ == query@,
        debut <= fin <= q.len(),
    ensures
        suite@ == apres_partie(params@, query@.subrange(debut as int, fin as int)),
{
    let ghost partie = query@.subrange(debut as int, fin as int);
    let signe = chercher(q.as_slice(), debut, fin, '=');
    proof {
        lemme_premier_indice(partie, '=', signe - debut);
    }
    if signe == fin {
        return params;
    }
    let cle = slice_subrange(q.as_slice(), debut, signe);
    let brut = query.substring_char(signe + 1, fin);
    let valeur: String = match decoder_pourcent(brut) {
        Ok(texte) => texte,
        Err(_) => String::new(),
    };
    proof {
        assert(cle@ =~= partie.take(signe - debut));
        assert(brut@ =~= partie.skip(signe - debut + 1));
    }
    let mut suite = params;
    if egal("stop", cle) {
        suite.stop = Some(valeur.as_str().to_uppercase());
    } else if egal("line", cle) {
        suite.line = Some(valeur.as_str().to_uppercase());
    } else if egal("direction", cle) {
        suite.direction = match lire_entier(valeur.as_str(), 255) {
            Some(n) => DirectionDemandee::Lue(n as u8),
            None => DirectionDemandee::Illisible,
        };
    } else if egal("limit", cle) {
        suite.limit = match lire_entier(valeur.as_str(), usize::MAX as u64) {
            Some(n) => Some(n as usize),
            None => None,
        };
    } else if egal("show_terminus", cle) {
        let v = caracteres(valeur.as_str());
        suite.show_terminus = egal("true", v.as_slice()) || egal("1", v.as_slice());
    } else if egal("search", cle) {
        suite.search = Some(valeur.as_str().to_lowercase());
    }
    suite
}

/// Reads the parameters of a query string: the text after the `?` of a URL.
/// The parts between `&` are taken in their order; each is a key, `=` and a
/// value. Values are percent-decoded. `stop` and `line` are put in upper
/// case and `search` in lower case; `direction` and `limit` are read as
/// numbers in base ten; `show_terminus` is set by `true` and by `1`.
pub fn parse_query(query: &str) -> (params: Params)
    ensures
        params@ == params_de(query@),
{
    let q = caracteres(query);
    let mut params = Params::aucun();
    let mut debut: usize = 0;
    let ghost mut faites: Seq<Seq<char>> = Seq::empty();
    loop
        invariant
            q@ == query@,
            debut <= q.len(),
            debut == 0 ==> faites == Seq::<Seq<char>>::empty(),
            debut > 0 ==> q@[debut - 1] == '&' && faites == decouper(q@.take(debut - 1), '&'),
            params@ == apres_parties(faites),
        decreases q.len() - debut,
    {
        let fin = chercher(q.as_slice(), debut, q.len(), '&');
        let ghost partie = q@.subrange(debut as int, fin as int);
        params = lire_partie(params, query, &q, debut, fin);
        proof {
            let vues = q@.take(fin as int);
            lemme_derniere_partie(vues, '&', debut as int);
            assert(vues.skip(debut as int) =~= partie);
            if debut > 0 {
                assert(vues.take(debut - 1) =~= q@.take(debut - 1));
            }
            assert(faites.push(partie).drop_last() =~= faites);
            faites = faites.push(partie);
        }
        if fin == q.len() {
            assert(q@.take(fin as int) =~= q@);
            return params;
        }
        debut = fin + 1;
    }
}

} // verus!
