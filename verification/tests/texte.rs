use naolametric::texte::{caracteres, chercher, contient_exec, egal, egal_sans_casse_exec, en_minuscule_ascii, lire_entier};

fn lettres(s: &str) -> Vec<char> {
    s.chars().collect()
}

#[test]
fn characters_of_a_text() {
    assert_eq!(caracteres(""), Vec::<char>::new());
    assert_eq!(caracteres("aé€"), vec!['a', 'é', '€']);
}

#[test]
fn ascii_lower_case_of_a_character() {
    assert_eq!(en_minuscule_ascii('A'), 'a');
    assert_eq!(en_minuscule_ascii('Z'), 'z');
    assert_eq!(en_minuscule_ascii('m'), 'm');
    assert_eq!(en_minuscule_ascii('@'), '@');
    assert_eq!(en_minuscule_ascii('['), '[');
    assert_eq!(en_minuscule_ascii('5'), '5');
    assert_eq!(en_minuscule_ascii('É'), 'É');
}

#[test]
fn equality_without_ascii_case() {
    assert!(egal_sans_casse_exec("", &lettres("")));
    assert!(egal_sans_casse_exec("c6", &lettres("C6")));
    assert!(egal_sans_casse_exec("C6", &lettres("c6")));
    assert!(!egal_sans_casse_exec("C6", &lettres("C")));
    assert!(!egal_sans_casse_exec("C", &lettres("C6")));
    assert!(!egal_sans_casse_exec("C6", &lettres("C7")));
    assert!(!egal_sans_casse_exec("é", &lettres("É")));
    assert!("c6".eq_ignore_ascii_case("C6"));
    assert!(!"é".eq_ignore_ascii_case("É"));
}

#[test]
fn equality_of_texts() {
    assert!(egal("", &lettres("")));
    assert!(egal("stop", &lettres("stop")));
    assert!(!egal("stop", &lettres("Stop")));
    assert!(!egal("stop", &lettres("sto")));
    assert!(!egal("sto", &lettres("stop")));
}

#[test]
fn substring_search() {
    assert!(contient_exec(&lettres("gare nord"), &lettres("gare")));
    assert!(contient_exec(&lettres("gare nord"), &lettres("nord")));
    assert!(contient_exec(&lettres("gare nord"), &lettres("e n")));
    assert!(contient_exec(&lettres("gare nord"), &lettres("")));
    assert!(contient_exec(&lettres(""), &lettres("")));
    assert!(contient_exec(&lettres("gare"), &lettres("gare")));
    assert!(!contient_exec(&lettres("gare"), &lettres("gares")));
    assert!(!contient_exec(&lettres(""), &lettres("a")));
    assert!(!contient_exec(&lettres("gare nord"), &lettres("sud")));
    assert!(!contient_exec(&lettres("aab"), &lettres("abb")));
    assert!(contient_exec(&lettres("aaab"), &lettres("aab")));
}

#[test]
fn first_position_of_a_character() {
    let v = lettres("a=b=c");
    assert_eq!(chercher(&v, 0, 5, '='), 1);
    assert_eq!(chercher(&v, 2, 5, '='), 3);
    assert_eq!(chercher(&v, 4, 5, '='), 5);
    assert_eq!(chercher(&v, 0, 1, '='), 1);
    assert_eq!(chercher(&v, 0, 0, '='), 0);
    assert_eq!(chercher(&v, 5, 5, '='), 5);
}

#[test]
fn numbers_are_read_in_base_ten() {
    assert_eq!(lire_entier("0", 255), Some(0));
    assert_eq!(lire_entier("7", 255), Some(7));
    assert_eq!(lire_entier("255", 255), Some(255));
    assert_eq!(lire_entier("007", 255), Some(7));
    assert_eq!(lire_entier("+7", 255), Some(7));
    assert_eq!(lire_entier("0000000000000000000000000000000000012", 255), Some(12));
    assert_eq!(lire_entier("18446744073709551615", u64::MAX), Some(u64::MAX));
}

#[test]
fn what_is_not_a_number_is_not_read() {
    assert_eq!(lire_entier("", 255), None);
    assert_eq!(lire_entier("+", 255), None);
    assert_eq!(lire_entier("-1", 255), None);
    assert_eq!(lire_entier("-0", 255), None);
    assert_eq!(lire_entier("++1", 255), None);
    assert_eq!(lire_entier("1+", 255), None);
    assert_eq!(lire_entier(" 1", 255), None);
    assert_eq!(lire_entier("1 ", 255), None);
    assert_eq!(lire_entier("1.0", 255), None);
    assert_eq!(lire_entier("abc", 255), None);
    assert_eq!(lire_entier("1_0", 255), None);
    assert_eq!(lire_entier("٣", 255), None);
}

#[test]
fn numbers_above_the_bound_are_not_read() {
    assert_eq!(lire_entier("256", 255), None);
    assert_eq!(lire_entier("999", 255), None);
    assert_eq!(lire_entier("2560", 255), None);
    assert_eq!(lire_entier("18446744073709551616", u64::MAX), None);
    assert_eq!(lire_entier("99999999999999999999999999", u64::MAX), None);
    assert_eq!(lire_entier("6", 5), None);
    assert_eq!(lire_entier("5", 5), Some(5));
    assert_eq!(lire_entier("0", 0), Some(0));
    assert_eq!(lire_entier("1", 0), None);
}

#[test]
fn numbers_are_read_as_the_standard_library_reads_them() {
    for texte in ["0", "1", "2", "12", "255", "256", "+3", "-3", "", "+", "03", "3a", "a3", "300", "1e3"] {
        assert_eq!(lire_entier(texte, 255), texte.parse::<u8>().ok().map(u64::from), "{}", texte);
    }
    for texte in ["18446744073709551615", "18446744073709551616", "+0", "00"] {
        assert_eq!(lire_entier(texte, u64::MAX), texte.parse::<u64>().ok(), "{}", texte);
    }
}
