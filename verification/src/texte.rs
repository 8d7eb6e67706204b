//! Character-level helpers on strings: case-insensitive comparison, substring
//! search, decimal numbers and splitting at a separator.
//!
//! Every contract here is stated over `Seq<char>`, the view of `str` and
//! `String`.

use vstd::prelude::*;

verus! {

/// `c` with an ASCII capital letter replaced by its small letter; every other
/// character is left as it is.
pub open spec fn minuscule_ascii(c: char) -> char {
    if 'A' <= c && c <= 'Z' {
        ((c as u8) + 32) as char
    } else {
        c
    }
}

/// Equality of two texts up to the case of their ASCII letters.
pub open spec fn egal_sans_casse(a: Seq<char>, b: Seq<char>) -> bool {
    &&& a.len() == b.len()
    &&& forall|i: int|
        0 <= i < a.len() ==> #[trigger] minuscule_ascii(a[i]) == minuscule_ascii(b[i])
}

/// `motif` occurs in `texte` at position `i`.
pub open spec fn apparait_en(texte: Seq<char>, motif: Seq<char>, i: int) -> bool {
    &&& 0 <= i
    &&& i + motif.len() <= texte.len()
    &&& texte.subrange(i, i + motif.len()) == motif
}

/// `motif` occurs somewhere in `texte`. The empty text occurs in every text.
pub open spec fn contient(texte: Seq<char>, motif: Seq<char>) -> bool {
    exists|i: int| apparait_en(texte, motif, i)
}

/// The characters of `s`, in order.
pub fn caracteres(s: &str) -> (v: Vec<char>)
    ensures
        v@ == s@,
{
    let mut v: Vec<char> = Vec::new();
    for c in it: s.chars()
        invariant
            it.seq() == s@,
            v@ == s@.take(it.index()),
    {
        v.push(c);
    }
    v
}

/// Executable form of [`minuscule_ascii`].
pub fn en_minuscule_ascii(c: char) -> (r: char)
    ensures
        r == minuscule_ascii(c),
{
    if 'A' <= c && c <= 'Z' {
        ((c as u8) + 32) as char
    } else {
        c
    }
}

/// Compares `a` with the characters `b`, ignoring the case of ASCII letters.
pub fn egal_sans_casse_exec(a: &str, b: &[char]) -> (r: bool)
    ensures
        r == egal_sans_casse(a@, b@),
{
    let mut i: usize = 0;
    for c in it: a.chars()
        invariant
            it.seq() == a@,
            i == it.index(),
            i <= b.len(),
            forall|j: int| 0 <= j < i ==> #[trigger] minuscule_ascii(a@[j]) == minuscule_ascii(b@[j]),
    {
        if i >= b.len() {
            return false;
        }
        if en_minuscule_ascii(c) != en_minuscule_ascii(b[i]) {
            return false;
        }
        i = i + 1;
    }
    i == b.len()
}

/// Whether `a` and `b` hold the same characters.
pub fn egal(a: &str, b: &[char]) -> (r: bool)
    ensures
        r == (a@ == b@),
{
    let mut i: usize = 0;
    for c in it: a.chars()
        invariant
            it.seq() == a@,
            i == it.index(),
            i <= b.len(),
            a@.take(i as int) == b@.take(i as int),
    {
        if i >= b.len() {
            return false;
        }
        if c != b[i] {
            return false;
        }
        i = i + 1;
    }
    assert(a@.take(i as int) == a@);
    if i == b.len() {
        assert(b@.take(i as int) == b@);
        true
    } else {
        false
    }
}

/// Whether `motif` occurs in `texte` at position `i`.
fn apparait_en_exec(texte: &[char], motif: &[char], i: usize) -> (r: bool)
    requires
        i + motif.len() <= texte.len(),
    ensures
        r == apparait_en(texte@, motif@, i as int),
{
    let mut j: usize = 0;
    while j < motif.len()
        invariant
            j <= motif.len(),
            i + motif.len() <= texte.len(),
            forall|k: int| 0 <= k < j ==> texte@[i + k] == motif@[k],
        decreases motif.len() - j,
    {
        if texte[i + j] != motif[j] {
            return false;
        }
        j = j + 1;
    }
    assert(texte@.subrange(i as int, i + motif.len()) =~= motif@);
    true
}

/// Whether `motif` occurs somewhere in `texte`.
pub fn contient_exec(texte: &[char], motif: &[char]) -> (r: bool)
    ensures
        r == contient(texte@, motif@),
{
    if motif.len() > texte.len() {
        return false;
    }
    let dernier: usize = texte.len() - motif.len();
    let mut i: usize = 0;
    loop
        invariant
            dernier + motif.len() == texte.len(),
            i <= dernier,
            forall|k: int| 0 <= k < i ==> !apparait_en(texte@, motif@, k),
        decreases dernier - i,
    {
        if apparait_en_exec(texte, motif, i) {
            return true;
        }
        if i == dernier {
            return false;
        }
        i = i + 1;
    }
}

/// `c` is one of the ten ASCII digits.
pub open spec fn est_chiffre(c: char) -> bool {
    '0' <= c && c <= '9'
}

/// The value of a digit; 0 for every other character.
pub open spec fn valeur_chiffre(c: char) -> nat {
    if est_chiffre(c) {
        (c as u8 - 48) as nat
    } else {
        0
    }
}

/// The number that the digits of `s` write in base ten; 0 for the empty text.
pub open spec fn valeur_chiffres(s: Seq<char>) -> nat
    decreases s.len(),
{
    if s.len() == 0 {
        0
    } else {
        valeur_chiffres(s.drop_last()) * 10 + valeur_chiffre(s.last())
    }
}

/// `s` without the `+` that it may start with.
pub open spec fn sans_signe(s: Seq<char>) -> Seq<char> {
    if s.len() > 0 && s[0] == '+' {
        s.skip(1)
    } else {
        s
    }
}

/// The number that `s` writes, where `s` is an optional `+` followed by one
/// ASCII digit or more and the number is at most `max`; `None` for every
/// other text.
pub open spec fn entier_lu(s: Seq<char>, max: nat) -> Option<nat> {
    let chiffres = sans_signe(s);
    if chiffres.len() > 0 && (forall|i: int|
        0 <= i < chiffres.len() ==> est_chiffre(#[trigger] chiffres[i])) && valeur_chiffres(
        chiffres,
    ) <= max {
        Some(valeur_chiffres(chiffres))
    } else {
        None
    }
}

/// The number written by the start of a text is at most the number written by
/// the whole of it.
proof fn lemme_valeur_croissante(s: Seq<char>, k: int)
    requires
        0 <= k <= s.len(),
    ensures
        valeur_chiffres(s.take(k)) <= valeur_chiffres(s),
    decreases s.len(),
{
    if k < s.len() {
        assert(s.drop_last().take(k) =~= s.take(k));
        lemme_valeur_croissante(s.drop_last(), k);
    } else {
        assert(s.take(k) =~= s);
    }
}

/// Reads `s` as a number in base ten that is at most `max`.
pub fn lire_entier(s: &str, max: u64) -> (r: Option<u64>)
    ensures
        match r {
            Some(n) => entier_lu(s@, max as nat) == Some(n as nat),
            None => entier_lu(s@, max as nat) is None,
        },
{
    let v = caracteres(s);
    let debut: usize = if v.len() > 0 && v[0] == '+' {
        1
    } else {
        0
    };
    let ghost chiffres = sans_signe(s@);
    if debut == v.len() {
        return None;
    }
    let mut acc: u64 = 0;
    let mut i: usize = debut;
    while i < v.len()
        invariant
            debut <= i <= v.len(),
            v@ == s@,
            chiffres == sans_signe(s@),
            chiffres.len() == v.len() - debut,
            forall|j: int| 0 <= j < chiffres.len() ==> chiffres[j] == v@[j + debut],
            forall|j: int| 0 <= j < i - debut ==> est_chiffre(#[trigger] chiffres[j]),
            acc == valeur_chiffres(chiffres.take(i - debut)),
            acc <= max,
        decreases v.len() - i,
    {
        let c = v[i];
        if !('0' <= c && c <= '9') {
            assert(!est_chiffre(chiffres[i - debut]));
            return None;
        }
        let d: u64 = (c as u8 - 48) as u64;
        proof {
            assert(chiffres.take(i - debut + 1).drop_last() =~= chiffres.take(i - debut));
        }
        if d > max || acc > (max - d) / 10 {
            proof {
                lemme_valeur_croissante(chiffres, i - debut + 1);
            }
            return None;
        }
        acc = acc * 10 + d;
        i = i + 1;
    }
    assert(chiffres.take(i - debut) =~= chiffres);
    Some(acc)
}

/// The parts of `s` between the occurrences of `sep`, in their order: one part
/// more than `s` has separators, and an empty part wherever two separators
/// touch or one stands at an end. The empty text has one part, which is empty.
pub open spec fn decouper(s: Seq<char>, sep: char) -> Seq<Seq<char>>
    decreases s.len(),
{
    if s.len() == 0 {
        seq![Seq::<char>::empty()]
    } else {
        let avant = decouper(s.drop_last(), sep);
        if s.last() == sep {
            avant.push(Seq::<char>::empty())
        } else {
            avant.drop_last().push(avant.last().push(s.last()))
        }
    }
}

/// The position of the first `c` in `s`, or the length of `s` where it holds
/// none.
pub open spec fn premier_indice(s: Seq<char>, c: char) -> int
    decreases s.len(),
{
    if s.len() == 0 || s[0] == c {
        0
    } else {
        1 + premier_indice(s.skip(1), c)
    }
}

/// Where no separator stands at or after `k`, the last part of `s` is what
/// follows `k`, and the parts before it are those of what precedes the
/// separator at `k - 1`.
pub proof fn lemme_derniere_partie(s: Seq<char>, sep: char, k: int)
    requires
        0 <= k <= s.len(),
        forall|j: int| k <= j < s.len() ==> s[j] != sep,
        k > 0 ==> s[k - 1] == sep,
    ensures
        k == 0 ==> decouper(s, sep) == seq![s],
        k > 0 ==> decouper(s, sep) == decouper(s.take(k - 1), sep).push(s.skip(k)),
    decreases s.len(),
{
    if k == s.len() {
        if k == 0 {
            assert(s =~= Seq::<char>::empty());
        } else {
            assert(s.skip(k) =~= Seq::<char>::empty());
        }
    } else {
        let debut = s.drop_last();
        lemme_derniere_partie(debut, sep, k);
        if k == 0 {
            assert(debut.push(s.last()) =~= s);
        } else {
            assert(debut.take(k - 1) =~= s.take(k - 1));
            assert(debut.skip(k).push(s.last()) =~= s.skip(k));
        }
    }
}

/// The first `c` of `s` stands at `i` where no `c` stands before `i` and
/// either one stands at `i` or `i` is the length of `s`.
pub proof fn lemme_premier_indice(s: Seq<char>, c: char, i: int)
    requires
        0 <= i <= s.len(),
        forall|j: int| 0 <= j < i ==> s[j] != c,
        i < s.len() ==> s[i] == c,
    ensures
        premier_indice(s, c) == i,
    decreases s.len(),
{
    if i > 0 {
        lemme_premier_indice(s.skip(1), c, i - 1);
    }
}

/// The position of the first `c` of `v` from `debut` on, and before `fin`;
/// `fin` where there is none.
pub fn chercher(v: &[char], debut: usize, fin: usize, c: char) -> (i: usize)
    requires
        debut <= fin <= v.len(),
    ensures
        debut <= i <= fin,
        forall|j: int| debut <= j < i ==> v@[j] != c,
        i < fin ==> v@[i as int] == c,
{
    let mut i: usize = debut;
    while i < fin
        invariant
            debut <= i <= fin <= v.len(),
            forall|j: int| debut <= j < i ==> v@[j] != c,
        decreases fin - i,
    {
        if v[i] == c {
            return i;
        }
        i = i + 1;
    }
    i
}

} // verus!
