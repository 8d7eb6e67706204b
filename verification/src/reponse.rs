//! The body of an answer to the display: a JSON object with one member,
//! `frames`, an array of objects with the members `icon` and `text`.

use vstd::prelude::*;
use vstd::string::*;
use crate::dehors::{ecrire_texte_json, texte_json};
use crate::modele::{FrameVue, ReponseLaMetric};

verus! {

/// Icon of a tram line.
pub const ICONE_TRAM: &'static str = "8958";

/// Icon of a bus line, and of every line that is neither tram nor boat.
pub const ICONE_BUS: &'static str = "7956";

/// Icon of a boat line.
pub const ICONE_BATEAU: &'static str = "12186";

/// Icon of an error frame.
pub const ICONE_ERREUR: &'static str = "555";

/// The body with a single frame whose icon and text are written between
/// quotes as they are, without any escape.
pub open spec fn corps_une_frame(icone: Seq<char>, texte: Seq<char>) -> Seq<char> {
    "{\"frames\":[{\"icon\":\""@ + icone + "\",\"text\":\""@ + texte + "\"}]}"@
}

/// The object of one frame, given the JSON literals of its icon and text.
pub open spec fn objet_de(icone_json: Seq<char>, texte_json: Seq<char>) -> Seq<char> {
    "{\"icon\":"@ + icone_json + ",\"text\":"@ + texte_json + "}"@
}

/// The object of a frame, or `None` where one of its texts cannot be written.
pub open spec fn json_frame(frame: FrameVue) -> Option<Seq<char>> {
    match (texte_json(frame.icon), texte_json(frame.text)) {
        (Some(icone), Some(texte)) => Some(objet_de(icone, texte)),
        _ => None,
    }
}

/// The objects of `frames` with a comma between each two, or `None` where one
/// of them cannot be written.
pub open spec fn json_liste(frames: Seq<FrameVue>) -> Option<Seq<char>>
    decreases frames.len(),
{
    if frames.len() == 0 {
        Some(Seq::empty())
    } else {
        match (json_liste(frames.drop_last()), json_frame(frames.last())) {
            (Some(avant), Some(dernier)) => Some(
                if frames.len() == 1 {
                    dernier
                } else {
                    avant + ","@ + dernier
                },
            ),
            _ => None,
        }
    }
}

/// The body that carries `frames`, or `None` where one of them cannot be
/// written.
pub open spec fn json_reponse(frames: Seq<FrameVue>) -> Option<Seq<char>> {
    match json_liste(frames) {
        Some(liste) => Some("{\"frames\":["@ + liste + "]}"@),
        None => None,
    }
}

/// A frame that cannot be written makes the whole list unwritable.
proof fn lemme_liste_sans_frame(frames: Seq<FrameVue>, i: int)
    requires
        0 <= i < frames.len(),
        json_frame(frames[i]) is None,
    ensures
        json_liste(frames) is None,
    decreases frames.len(),
{
    if i < frames.len() - 1 {
        lemme_liste_sans_frame(frames.drop_last(), i);
    }
}

/// The object of one frame, from the JSON literals of its icon and its text.
pub fn objet_frame(icone_json: &str, texte_json: &str) -> (objet: String)
    ensures
        objet@ == objet_de(icone_json@, texte_json@),
{
    let mut objet = String::from_str("{\"icon\":");
    objet.append(icone_json);
    objet.append(",\"text\":");
    objet.append(texte_json);
    objet.append("}");
    objet
}

impl ReponseLaMetric {
    /// The body of an error: a single frame with the error icon and `message`.
    pub fn erreur(message: &'static str) -> (corps: String)
        ensures
            corps@ == corps_une_frame(ICONE_ERREUR@, message@),
    {
        ReponseLaMetric::simple(ICONE_ERREUR, message)
    }

    /// The body of a single frame with `icone` and `texte`, both written as
    /// they are.
    pub fn simple(icone: &'static str, texte: &str) -> (corps: String)
        ensures
            corps@ == corps_une_frame(icone@, texte@),
    {
        let mut corps = String::from_str("{\"frames\":[{\"icon\":\"");
        corps.append(icone);
        corps.append("\",\"text\":\"");
        corps.append(texte);
        corps.append("\"}]}");
        corps
    }

    /// The body that carries these frames, each icon and text written as a
    /// JSON string literal; `None` where one of them cannot be written.
    pub fn en_json(&self) -> (corps: Option<String>)
        ensures
            corps.deep_view() == json_reponse(self@),
    {
        let mut corps = String::from_str("{\"frames\":[");
        let ghost mut liste: Seq<char> = Seq::empty();
        let ghost frames = self@;
        let mut i: usize = 0;
        while i < self.frames.len()
            invariant
                i <= self.frames.len(),
                frames == self@,
                corps@ == "{\"frames\":["@ + liste,
                json_liste(frames.take(i as int)) == Some(liste),
            decreases self.frames.len() - i,
        {
            let frame = &self.frames[i];
            assert(frames.take(i + 1).drop_last() =~= frames.take(i as int));
            let icone = match ecrire_texte_json(frame.icon) {
                Ok(t) => t,
                Err(_) => {
                    proof {
                        lemme_liste_sans_frame(frames, i as int);
                    }
                    return None;
                },
            };
            let texte = match ecrire_texte_json(frame.text.as_str()) {
                Ok(t) => t,
                Err(_) => {
                    proof {
                        lemme_liste_sans_frame(frames, i as int);
                    }
                    return None;
                },
            };
            let objet = objet_frame(icone.as_str(), texte.as_str());
            if i > 0 {
                corps.append(",");
                proof {
                    liste = liste + ","@;
                }
            }
            corps.append(objet.as_str());
            proof {
                liste = liste + objet@;
            }
            i = i + 1;
        }
        assert(frames.take(i as int) =~= frames);
        corps.append("]}");
        Some(corps)
    }
}

} // verus!
