//! From the departures of a stop to the frames of the display: which
//! departures are kept, how many, and what each one shows.

use vstd::prelude::*;
use vstd::string::*;
use crate::modele::{FrameLaMetric, FrameVue, PassageNaolib, PassageVue, ReponseLaMetric};
use crate::reponse::{
    corps_une_frame, json_reponse, ICONE_BATEAU, ICONE_BUS, ICONE_ERREUR, ICONE_TRAM,
};
use crate::resolution::{RequestConfig, RequestConfigVue};
use crate::suites::{lemme_filtre_uniforme, lemme_filtres_successifs};
use crate::texte::{caracteres, egal_sans_casse, egal_sans_casse_exec};

verus! {

/// The icon of a line: tram for the one-character lines `1`, `2` and `3`,
/// boat for a line whose number starts with `N`, bus for every other line.
pub open spec fn icone_de(ligne: Seq<char>) -> Seq<char> {
    if ligne.len() == 1 && '1' <= ligne[0] && ligne[0] <= '3' {
        ICONE_TRAM@
    } else if ligne.len() > 0 && ligne[0] == 'N' {
        ICONE_BATEAU@
    } else {
        ICONE_BUS@
    }
}

/// The icon shown for the line numbered `ligne`.
pub fn icone_ligne(ligne: &str) -> (icone: &'static str)
    ensures
        icone@ == icone_de(ligne@),
{
    let n = ligne.unicode_len();
    if n == 0 {
        return ICONE_BUS;
    }
    let premier = ligne.get_char(0);
    if n == 1 && '1' <= premier && premier <= '3' {
        ICONE_TRAM
    } else if premier == 'N' {
        ICONE_BATEAU
    } else {
        ICONE_BUS
    }
}

/// The departure has a wait to show.
pub open spec fn a_un_temps(p: PassageVue) -> bool {
    p.temps.len() > 0
}

/// The departure is on the line asked for, if one is asked for. Line numbers
/// are compared up to the case of ASCII letters.
pub open spec fn sur_ligne(p: PassageVue, filtre: Option<Seq<char>>) -> bool {
    filtre matches Some(l) ==> egal_sans_casse(p.ligne, l)
}

/// The departure runs in the direction asked for, if one is asked for.
pub open spec fn dans_sens(p: PassageVue, filtre: Option<u8>) -> bool {
    filtre matches Some(d) ==> p.sens == d
}

/// The departure passes the three filters of `config`.
pub open spec fn est_garde(p: PassageVue, config: RequestConfigVue) -> bool {
    a_un_temps(p) && sur_ligne(p, config.line_filter) && dans_sens(p, config.direction_filter)
}

/// The departures that pass the filters of `config`, in the order in which
/// they came.
pub open spec fn filtres(passages: Seq<PassageVue>, config: RequestConfigVue) -> Seq<PassageVue> {
    passages.filter(|p: PassageVue| est_garde(p, config))
}

/// The departures that are shown: the first `config.limit` of those that pass
/// the filters, in the order in which they came.
pub open spec fn retenus(passages: Seq<PassageVue>, config: RequestConfigVue) -> Seq<PassageVue> {
    let f = filtres(passages, config);
    if f.len() <= config.limit {
        f
    } else {
        f.take(config.limit as int)
    }
}

/// The departures that have a wait to show.
pub open spec fn filtre_temps(passages: Seq<PassageVue>) -> Seq<PassageVue> {
    passages.filter(|p: PassageVue| a_un_temps(p))
}

/// The departures on the line asked for.
pub open spec fn filtre_ligne(passages: Seq<PassageVue>, ligne: Option<Seq<char>>) -> Seq<
    PassageVue,
> {
    passages.filter(|p: PassageVue| sur_ligne(p, ligne))
}

/// The departures in the direction asked for.
pub open spec fn filtre_sens(passages: Seq<PassageVue>, sens: Option<u8>) -> Seq<PassageVue> {
    passages.filter(|p: PassageVue| dans_sens(p, sens))
}

/// The three filters commute: by line and then by direction, or by direction
/// and then by line, the same departures are left, in the same order; and
/// applied one after the other to the departures that have a wait, in either
/// order, they leave the departures that pass all three at once.
pub proof fn loi_filtres_commutent(passages: Seq<PassageVue>, config: RequestConfigVue)
    ensures
        filtre_sens(filtre_ligne(passages, config.line_filter), config.direction_filter)
            == filtre_ligne(filtre_sens(passages, config.direction_filter), config.line_filter),
        filtres(passages, config) == filtre_sens(
            filtre_ligne(filtre_temps(passages), config.line_filter),
            config.direction_filter,
        ),
        filtres(passages, config) == filtre_ligne(
            filtre_sens(filtre_temps(passages), config.direction_filter),
            config.line_filter,
        ),
        filtres(passages, config) == filtre_temps(
            filtre_sens(filtre_ligne(passages, config.line_filter), config.direction_filter),
        ),
{
    let ligne = config.line_filter;
    let sens = config.direction_filter;
    let t = |p: PassageVue| a_un_temps(p);
    let l = |p: PassageVue| sur_ligne(p, ligne);
    let d = |p: PassageVue| dans_sens(p, sens);
    let g = |p: PassageVue| est_garde(p, config);
    let ld = |p: PassageVue| l(p) && d(p);
    let dl = |p: PassageVue| d(p) && l(p);
    let tl = |p: PassageVue| t(p) && l(p);
    let td = |p: PassageVue| t(p) && d(p);
    lemme_filtres_successifs(passages, l, d);
    lemme_filtres_successifs(passages, d, l);
    assert(ld =~= dl);
    lemme_filtres_successifs(passages, t, l);
    lemme_filtres_successifs(passages, tl, d);
    assert((|p: PassageVue| tl(p) && d(p)) =~= g);
    lemme_filtres_successifs(passages, t, d);
    lemme_filtres_successifs(passages, td, l);
    assert((|p: PassageVue| td(p) && l(p)) =~= g);
    lemme_filtres_successifs(passages, ld, t);
    assert((|p: PassageVue| ld(p) && t(p)) =~= g);
}

/// A destination as the display shows it: as it is up to 12 characters,
/// else its first 11 characters and a full stop.
pub open spec fn terminus_affiche(terminus: Seq<char>) -> Seq<char> {
    if terminus.len() > 12 {
        terminus.take(11).push('.')
    } else {
        terminus
    }
}

/// The text of the frame of a departure: `L<line> <wait>`, or
/// `<line> <destination> <wait>` where the destination is asked for.
pub open spec fn texte_de(p: PassageVue, show_terminus: bool) -> Seq<char> {
    if show_terminus {
        p.ligne + seq![' '] + terminus_affiche(p.terminus) + seq![' '] + p.temps
    } else {
        seq!['L'] + p.ligne + seq![' '] + p.temps
    }
}

/// The frame of a departure.
pub open spec fn frame_de(p: PassageVue, show_terminus: bool) -> FrameVue {
    FrameVue { icon: icone_de(p.ligne), text: texte_de(p, show_terminus) }
}

/// The frames of the departures that are shown, one for each, in their order.
pub open spec fn frames_de(passages: Seq<PassageVue>, config: RequestConfigVue) -> Seq<FrameVue> {
    retenus(passages, config).map_values(|p: PassageVue| frame_de(p, config.show_terminus))
}

/// The characters of an optional text.
pub open spec fn vue_option(texte: Option<Vec<char>>) -> Option<Seq<char>> {
    match texte {
        Some(v) => Some(v@),
        None => None,
    }
}

/// Whether `p` passes the three filters: a wait to show, the line `ligne` if
/// there is one, the direction `sens` if there is one.
fn est_garde_exec(p: &PassageNaolib, ligne: &Option<Vec<char>>, sens: Option<u8>) -> (r: bool)
    ensures
        r == (a_un_temps(p@) && sur_ligne(p@, vue_option(*ligne)) && dans_sens(p@, sens)),
{
    if p.temps.as_str().is_empty() {
        return false;
    }
    let ligne_ok = match ligne {
        Some(l) => egal_sans_casse_exec(p.ligne.num_ligne.as_str(), l.as_slice()),
        None => true,
    };
    let sens_ok = match sens {
        Some(d) => p.sens == d,
        None => true,
    };
    ligne_ok && sens_ok
}

/// The text of the frame of `p`.
fn texte_frame(p: &PassageNaolib, show_terminus: bool) -> (texte: String)
    ensures
        texte@ == texte_de(p@, show_terminus),
{
    proof {
        reveal_strlit(" ");
        reveal_strlit("L");
        reveal_strlit(".");
    }
    if show_terminus {
        let mut texte = p.ligne.num_ligne.clone();
        texte.append(" ");
        let terminus = p.terminus.as_str();
        if terminus.unicode_len() > 12 {
            texte.append(terminus.substring_char(0, 11));
            texte.append(".");
        } else {
            texte.append(terminus);
        }
        texte.append(" ");
        texte.append(p.temps.as_str());
        texte
    } else {
        let mut texte = String::from_str("L");
        texte.append(p.ligne.num_ligne.as_str());
        texte.append(" ");
        texte.append(p.temps.as_str());
        texte
    }
}

/// Drops the departures without a wait, on another line or in another
/// direction than `config` asks for, and keeps the first `config.limit` of the
/// others, in the order in which they came.
pub fn retenir(passages: Vec<PassageNaolib>, config: &RequestConfig) -> (gardes: Vec<PassageNaolib>)
    ensures
        gardes.deep_view() == retenus(passages.deep_view(), config@),
{
    let ligne: Option<Vec<char>> = match &config.line_filter {
        Some(l) => Some(caracteres(l.as_str())),
        None => None,
    };
    let ghost ps = passages.deep_view();
    let ghost cfg = config@;
    let ghost pred = |p: PassageVue| est_garde(p, cfg);
    let mut gardes: Vec<PassageNaolib> = Vec::new();
    proof {
        reveal(Seq::filter);
    }
    for p in it: passages
        invariant
            ps.len() == it.seq().len(),
            forall|j: int| 0 <= j < ps.len() ==> ps[j] == (#[trigger] it.seq()[j])@,
            cfg == config@,
            pred == (|p: PassageVue| est_garde(p, cfg)),
            vue_option(ligne) == cfg.line_filter,
            gardes.len() <= config.limit,
            gardes.deep_view() == (if gardes.len() < config.limit {
                ps.take(it.index() as int).filter(pred)
            } else {
                retenus(ps, cfg)
            }),
    {
        let ghost i = it.index() as int;
        proof {
            assert(ps.take(i + 1) =~= ps.take(i).push(ps[i]));
            Seq::lemma_filter_push(ps.take(i), ps[i], pred);
        }
        if gardes.len() < config.limit && est_garde_exec(&p, &ligne, config.direction_filter) {
            gardes.push(p);
            proof {
                if gardes.len() == config.limit {
                    let vus = ps.take(i + 1);
                    let reste = ps.skip(i + 1);
                    assert(ps =~= vus + reste);
                    Seq::filter_distributes_over_add(vus, reste, pred);
                }
            }
        }
    }
    proof {
        if gardes.len() < config.limit {
            assert(ps.take(ps.len() as int) =~= ps);
        }
    }
    gardes
}

/// The frames of `passages`, one for each, in their order.
pub fn frames_des_passages(passages: &Vec<PassageNaolib>, show_terminus: bool) -> (frames: Vec<
    FrameLaMetric,
>)
    ensures
        frames.deep_view() == passages.deep_view().map_values(
            |p: PassageVue| frame_de(p, show_terminus),
        ),
{
    let ghost ps = passages.deep_view();
    let ghost vers_frame = |p: PassageVue| frame_de(p, show_terminus);
    let mut frames: Vec<FrameLaMetric> = Vec::new();
    let mut i: usize = 0;
    while i < passages.len()
        invariant
            i <= passages.len(),
            ps == passages.deep_view(),
            vers_frame == (|p: PassageVue| frame_de(p, show_terminus)),
            frames.deep_view() == ps.take(i as int).map_values(vers_frame),
        decreases passages.len() - i,
    {
        let p = &passages[i];
        let ghost avant = frames.deep_view();
        let frame = FrameLaMetric {
            icon: icone_ligne(p.ligne.num_ligne.as_str()),
            text: texte_frame(p, show_terminus),
        };
        frames.push(frame);
        proof {
            assert(ps.take(i + 1).map_values(vers_frame) =~= avant.push(vers_frame(p@)));
        }
        i = i + 1;
    }
    frames
}

/// Text of the single frame that is shown when no departure is left to show.
pub const TEXTE_AUCUN: &'static str = "Aucun";

/// Message of the error frame that is shown when the frames cannot be written.
pub const MESSAGE_JSON: &'static str = "JSON err";

/// The body that answers a request for departures: a single frame that says
/// so where no departure is left to show, else the frames of the departures
/// shown; the error frame where those cannot be written.
pub open spec fn reponse_formatee(passages: Seq<PassageVue>, config: RequestConfigVue) -> Seq<char> {
    if retenus(passages, config).len() == 0 {
        corps_une_frame(ICONE_TRAM@, TEXTE_AUCUN@)
    } else {
        match json_reponse(frames_de(passages, config)) {
            Some(corps) => corps,
            None => corps_une_frame(ICONE_ERREUR@, MESSAGE_JSON@),
        }
    }
}

/// Filters `passages`, keeps the first `config.limit` of those left, and
/// writes the body of the answer.
pub fn formater_reponse(passages: Vec<PassageNaolib>, config: &RequestConfig) -> (corps: String)
    ensures
        corps@ == reponse_formatee(passages.deep_view(), config@),
{
    let gardes = retenir(passages, config);
    if gardes.len() == 0 {
        return ReponseLaMetric::simple(ICONE_TRAM, TEXTE_AUCUN);
    }
    let frames = frames_des_passages(&gardes, config.show_terminus);
    let reponse = ReponseLaMetric { frames };
    match reponse.en_json() {
        Some(corps) => corps,
        None => ReponseLaMetric::erreur(MESSAGE_JSON),
    }
}

/// A destination of at most 12 characters is shown as it is; a longer one is
/// shown as its first 11 characters and a full stop, 12 characters in all.
pub proof fn loi_troncature_terminus(terminus: Seq<char>)
    ensures
        terminus.len() <= 12 ==> terminus_affiche(terminus) == terminus,
        terminus.len() > 12 ==> terminus_affiche(terminus) == terminus.take(11).push('.'),
        terminus.len() > 12 ==> terminus_affiche(terminus).len() == 12,
        terminus_affiche(terminus).len() <= 12,
{
}

/// Where no departure has a wait to show, whatever the filters and the limit,
/// the answer is the single frame that says so, never a body without frames.
pub proof fn loi_aucun_passage(passages: Seq<PassageVue>, config: RequestConfigVue)
    requires
        forall|i: int| 0 <= i < passages.len() ==> (#[trigger] passages[i]).temps.len() == 0,
    ensures
        retenus(passages, config).len() == 0,
        reponse_formatee(passages, config) == corps_une_frame(ICONE_TRAM@, TEXTE_AUCUN@),
{
    lemme_filtre_uniforme(passages, |p: PassageVue| est_garde(p, config));
}

/// Without a filter, where every departure has a wait to show, the frames
/// are those of the first `config.limit` departures, as many as there are
/// if there are fewer, in their order; and without the destination each text
/// is `L`, the line, a space and the wait.
pub proof fn loi_sans_filtre(passages: Seq<PassageVue>, config: RequestConfigVue)
    requires
        config.line_filter is None,
        config.direction_filter is None,
        forall|i: int| 0 <= i < passages.len() ==> (#[trigger] passages[i]).temps.len() > 0,
    ensures
        frames_de(passages, config).len() == if passages.len() <= config.limit {
            passages.len()
        } else {
            config.limit
        },
        forall|i: int|
            0 <= i < frames_de(passages, config).len() ==> (#[trigger] frames_de(
                passages,
                config,
            )[i]) == frame_de(passages[i], config.show_terminus),
        !config.show_terminus ==> forall|i: int|
            0 <= i < frames_de(passages, config).len() ==> (#[trigger] frames_de(
                passages,
                config,
            )[i]).text == seq!['L'] + passages[i].ligne + seq![' '] + passages[i].temps,
{
    lemme_filtre_uniforme(passages, |p: PassageVue| est_garde(p, config));
}

} // verus!
