//! The `.env` file: text whose lines of the form `KEY=value` name settings of
//! the process. The library reads the text; it neither opens the file nor
//! sets anything.

use vstd::prelude::*;
use vstd::string::*;
use crate::texte::{
    caracteres, chercher, decouper, lemme_derniere_partie, lemme_premier_indice, premier_indice,
};

verus! {

/// `c` is white space: one of the characters with the Unicode property
/// `White_Space`.
pub open spec fn est_blanc(c: char) -> bool {
    let n = c as u32;
    ||| 0x09 <= n <= 0x0D
    ||| n == 0x20
    ||| n == 0x85
    ||| n == 0xA0
    ||| n == 0x1680
    ||| 0x2000 <= n <= 0x200A
    ||| n == 0x2028
    ||| n == 0x2029
    ||| n == 0x202F
    ||| n == 0x205F
    ||| n == 0x3000
}

/// `c` is cut from the ends of a text: a double quote where `guillemets` is
/// set, else white space.
pub open spec fn a_couper(c: char, guillemets: bool) -> bool {
    if guillemets {
        c == '"'
    } else {
        est_blanc(c)
    }
}

/// `s` without the characters to cut at its start.
pub open spec fn sans_debut(s: Seq<char>, guillemets: bool) -> Seq<char>
    decreases s.len(),
{
    if s.len() > 0 && a_couper(s[0], guillemets) {
        sans_debut(s.skip(1), guillemets)
    } else {
        s
    }
}

/// `s` without the characters to cut at its end.
pub open spec fn sans_fin(s: Seq<char>, guillemets: bool) -> Seq<char>
    decreases s.len(),
{
    if s.len() > 0 && a_couper(s.last(), guillemets) {
        sans_fin(s.drop_last(), guillemets)
    } else {
        s
    }
}

/// `s` without the white space at its two ends.
pub open spec fn rogne(s: Seq<char>) -> Seq<char> {
    sans_fin(sans_debut(s, false), false)
}

/// `s` without the double quotes at its two ends.
pub open spec fn sans_guillemets(s: Seq<char>) -> Seq<char> {
    sans_fin(sans_debut(s, true), true)
}

/// What a line sets: nothing where it holds no `=`; else the key is what
/// stands before the first `=`, without the white space around it, and the
/// value what stands after it, without the white space and then the double
/// quotes around it. A line whose key is empty or starts with `#` sets
/// nothing.
pub open spec fn affectation(ligne: Seq<char>) -> Option<(Seq<char>, Seq<char>)> {
    let i = premier_indice(ligne, '=');
    if i >= ligne.len() {
        None
    } else {
        let cle = rogne(ligne.take(i));
        let valeur = sans_guillemets(rogne(ligne.skip(i + 1)));
        if cle.len() > 0 && cle[0] != '#' {
            Some((cle, valeur))
        } else {
            None
        }
    }
}

/// What the lines `lignes` set, in their order.
pub open spec fn affectations_des(lignes: Seq<Seq<char>>) -> Seq<(Seq<char>, Seq<char>)>
    decreases lignes.len(),
{
    if lignes.len() == 0 {
        Seq::empty()
    } else {
        let avant = affectations_des(lignes.drop_last());
        match affectation(lignes.last()) {
            Some(a) => avant.push(a),
            None => avant,
        }
    }
}

/// What a `.env` text sets: what its lines set, a line being what stands
/// between two line feeds.
pub open spec fn affectations(contenu: Seq<char>) -> Seq<(Seq<char>, Seq<char>)> {
    affectations_des(decouper(contenu, '\n'))
}

/// Where the first `k` characters of `s` are to cut and the next one is not,
/// `s` without its start is what follows them.
proof fn lemme_sans_debut(s: Seq<char>, guillemets: bool, k: int)
    requires
        0 <= k <= s.len(),
        forall|j: int| 0 <= j < k ==> a_couper(#[trigger] s[j], guillemets),
        k < s.len() ==> !a_couper(s[k], guillemets),
    ensures
        sans_debut(s, guillemets) == s.skip(k),
    decreases s.len(),
{
    if k > 0 {
        lemme_sans_debut(s.skip(1), guillemets, k - 1);
    }
}

/// Where the characters of `s` from `k` on are to cut and the one before is
/// not, `s` without its end is what precedes them.
proof fn lemme_sans_fin(s: Seq<char>, guillemets: bool, k: int)
    requires
        0 <= k <= s.len(),
        forall|j: int| k <= j < s.len() ==> a_couper(#[trigger] s[j], guillemets),
        k > 0 ==> !a_couper(s[k - 1], guillemets),
    ensures
        sans_fin(s, guillemets) == s.take(k),
    decreases s.len(),
{
    if k < s.len() {
        lemme_sans_fin(s.drop_last(), guillemets, k);
    }
}

/// Whether `c` is white space.
pub fn est_blanc_exec(c: char) -> (r: bool)
    ensures
        r == est_blanc(c),
{
    let n: u32 = c as u32;
    (0x09 <= n && n <= 0x0D) || n == 0x20 || n == 0x85 || n == 0xA0 || n == 0x1680 || (0x2000 <= n
        && n <= 0x200A) || n == 0x2028 || n == 0x2029 || n == 0x202F || n == 0x205F || n == 0x3000
}

/// Whether `c` is cut from the ends of a text.
fn a_couper_exec(c: char, guillemets: bool) -> (r: bool)
    ensures
        r == a_couper(c, guillemets),
{
    if guillemets {
        c == '"'
    } else {
        est_blanc_exec(c)
    }
}

/// The bounds of what is left of `v` between `debut` and `fin` once its two
/// ends are cut.
fn couper(v: &Vec<char>, debut: usize, fin: usize, guillemets: bool) -> (bornes: (usize, usize))
    requires
        debut <= fin <= v.len(),
    ensures
        debut <= bornes.0 <= bornes.1 <= fin,
        v@.subrange(bornes.0 as int, bornes.1 as int) == sans_fin(
            sans_debut(v@.subrange(debut as int, fin as int), guillemets),
            guillemets,
        ),
{
    let ghost s = v@.subrange(debut as int, fin as int);
    let mut a: usize = debut;
    while a < fin && a_couper_exec(v[a], guillemets)
        invariant
            debut <= a <= fin <= v.len(),
            forall|j: int| debut <= j < a ==> a_couper(#[trigger] v@[j], guillemets),
        decreases fin - a,
    {
        a = a + 1;
    }
    let mut b: usize = fin;
    while b > a && a_couper_exec(v[b - 1], guillemets)
        invariant
            a <= b <= fin <= v.len(),
            forall|j: int| b <= j < fin ==> a_couper(#[trigger] v@[j], guillemets),
        decreases b - a,
    {
        b = b - 1;
    }
    proof {
        lemme_sans_debut(s, guillemets, a - debut);
        lemme_sans_fin(s.skip(a - debut), guillemets, b - a);
    }
    (a, b)
}

/// What the line of `contenu` that stands from `debut` to `fin` sets.
fn lire_ligne(contenu: &str, v: &Vec<char>, debut: usize, fin: usize) -> (a: Option<
    (String, String),
>)
    requires
        v@ == contenu@,
        debut <= fin <= v.len(),
    ensures
        a.deep_view() == affectation(contenu@.subrange(debut as int, fin as int)),
{
    let ghost ligne = contenu@.subrange(debut as int, fin as int);
    let signe = chercher(v.as_slice(), debut, fin, '=');
    proof {
        lemme_premier_indice(ligne, '=', signe - debut);
    }
    if signe == fin {
        return None;
    }
    let (c0, c1) = couper(v, debut, signe, false);
    let (b0, b1) = couper(v, signe + 1, fin, false);
    let (v0, v1) = couper(v, b0, b1, true);
    proof {
        assert(v@.subrange(debut as int, signe as int) =~= ligne.take(signe - debut));
        assert(v@.subrange(signe + 1, fin as int) =~= ligne.skip(signe - debut + 1));
    }
    if c0 == c1 || v[c0] == '#' {
        return None;
    }
    let cle = String::from_str(contenu.substring_char(c0, c1));
    let valeur = String::from_str(contenu.substring_char(v0, v1));
    Some((cle, valeur))
}

/// Reads a `.env` text: the keys and values that its lines set, in their
/// order. Lines without `=`, without a key, and lines whose key starts with
/// `#` are skipped.
pub fn lire_env(contenu: &str) -> (lues: Vec<(String, String)>)
    ensures
        lues.deep_view() == affectations(contenu@),
{
    let v = caracteres(contenu);
    let mut lues: Vec<(String, String)> = Vec::new();
    let mut debut: usize = 0;
    let ghost mut faites: Seq<Seq<char>> = Seq::empty();
    loop
        invariant
            v@ == contenu@,
            debut <= v.len(),
            debut == 0 ==> faites == Seq::<Seq<char>>::empty(),
            debut > 0 ==> v@[debut - 1] == '\n' && faites == decouper(v@.take(debut - 1), '\n'),
            lues.deep_view() == affectations_des(faites),
        decreases v.len() - debut,
    {
        let fin = chercher(v.as_slice(), debut, v.len(), '\n');
        let ghost ligne = v@.subrange(debut as int, fin as int);
        match lire_ligne(contenu, &v, debut, fin) {
            Some(a) => {
                lues.push(a);
            },
            None => {},
        }
        proof {
            let vues = v@.take(fin as int);
            lemme_derniere_partie(vues, '\n', debut as int);
            assert(vues.skip(debut as int) =~= ligne);
            if debut > 0 {
                assert(vues.take(debut - 1) =~= v@.take(debut - 1));
            }
            assert(faites.push(ligne).drop_last() =~= faites);
            faites = faites.push(ligne);
        }
        if fin == v.len() {
            assert(v@.take(fin as int) =~= v@);
            return lues;
        }
        debut = fin + 1;
    }
}

} // verus!
