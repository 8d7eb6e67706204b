use naolametric::amont::{
    statut_accepte, url_arrets, url_passages, API_URL, DELAI_ARRETS_SECS, DELAI_PASSAGES_SECS,
};
use naolametric::cache::{cache_valide, rafraichir_cache, CacheArrets, CacheError};
use naolametric::modele::{ArretNaolib, LigneNaolib, PassageNaolib, UpstreamError};
use naolametric::requete::{DirectionDemandee, Params};
use naolametric::resolution::{ConfigError, EnvDefaults, RequestConfig};
use naolametric::service::{
    handle_info, handle_principal, repondre_passages, router, Route, Suite, ARRETS_POPULAIRES,
    CORPS_CHEMIN_INCONNU, CORPS_METHODE_REFUSEE, CORPS_SANTE, INFO_DEBUT, INFO_FIN,
};

fn depart(ligne: &str, sens: u8, terminus: &str, temps: &str) -> PassageNaolib {
    PassageNaolib {
        sens,
        terminus: terminus.to_string(),
        temps: temps.to_string(),
        ligne: LigneNaolib { num_ligne: ligne.to_string() },
    }
}

fn defauts(stop: &str) -> EnvDefaults {
    EnvDefaults {
        stop_code: stop.to_string(),
        line: None,
        direction: DirectionDemandee::Absente,
        limit: 2,
    }
}

fn cache_nantes() -> CacheArrets {
    let mut cache = CacheArrets::new();
    let arrets = vec![
        ArretNaolib { code_lieu: "COMM".to_string(), libelle: "Commerce".to_string() },
        ArretNaolib { code_lieu: "GSNO".to_string(), libelle: "Gare Nord".to_string() },
    ];
    assert!(rafraichir_cache(&mut cache, Ok(arrets), 100).is_ok());
    cache
}

fn params_de_url(url: &str) -> Params {
    match router(true, url, "1.0.0") {
        Route::Principal(p) => p,
        autre => panic!("{:?}", autre),
    }
}

fn erreur_400(message: &str) -> Suite {
    Suite::Repondre(400, format!("{{\"frames\":[{{\"icon\":\"555\",\"text\":\"{}\"}}]}}", message))
}

#[test]
fn upstream_addresses() {
    assert_eq!(API_URL, "https://open.tan.fr/ewp");
    assert_eq!(url_arrets(), "https://open.tan.fr/ewp/arrets.json");
    assert_eq!(url_passages("COMM"), "https://open.tan.fr/ewp/tempsattente.json/COMM");
    assert_eq!(url_passages(""), "https://open.tan.fr/ewp/tempsattente.json/");
    assert_eq!(url_passages("a b/é"), "https://open.tan.fr/ewp/tempsattente.json/a b/é");
}

#[test]
fn upstream_statuses_from_200_to_299_are_accepted() {
    for statut in [200, 201, 204, 299] {
        assert!(statut_accepte(statut));
    }
    for statut in [i32::MIN, -200, 0, 100, 199, 300, 301, 404, 500, 502, i32::MAX] {
        assert!(!statut_accepte(statut));
    }
}

#[test]
fn upstream_delays_are_between_five_and_ten_seconds() {
    assert!(5 <= DELAI_ARRETS_SECS && DELAI_ARRETS_SECS <= 10);
    assert!(5 <= DELAI_PASSAGES_SECS && DELAI_PASSAGES_SECS <= 10);
}

#[test]
fn messages_of_config_errors() {
    assert_eq!(ConfigError::MissingStopCode.message(), "No stop");
    assert_eq!(ConfigError::InvalidStopCode.message(), "Bad stop");
    assert_eq!(ConfigError::InvalidDirection.message(), "Bad dir");
}

#[test]
fn end_to_end_two_frames_by_default() {
    let cache = cache_nantes();
    let params = params_de_url("/?stop=COMM");
    let suite = handle_principal(&defauts(""), &params, Ok(&cache));
    let config = match suite {
        Suite::Interroger(config) => config,
        autre => panic!("{:?}", autre),
    };
    assert_eq!(
        config,
        RequestConfig {
            stop_code: "COMM".to_string(),
            line_filter: None,
            direction_filter: None,
            limit: 2,
            show_terminus: false,
        }
    );
    assert_eq!(url_passages(&config.stop_code), "https://open.tan.fr/ewp/tempsattente.json/COMM");
    let passages = vec![
        depart("2", 1, "Orvault Grand Val", "3mn"),
        depart("C6", 2, "Hermeland", "5mn"),
        depart("N1", 1, "Gare Maritime", "8mn"),
    ];
    let (statut, corps) = repondre_passages(Ok(passages), &config);
    assert_eq!(statut, 200);
    assert_eq!(
        corps,
        "{\"frames\":[{\"icon\":\"8958\",\"text\":\"L2 3mn\"},{\"icon\":\"7956\",\"text\":\"LC6 5mn\"}]}"
    );
    let lu: serde_json::Value = serde_json::from_str(&corps).unwrap();
    let frames = lu.get("frames").unwrap().as_array().unwrap();
    assert_eq!(frames.len(), 2);
    for frame in frames {
        assert!(frame.get("text").unwrap().as_str().unwrap().starts_with('L'));
    }
    assert_eq!(frames[0].get("text").unwrap().as_str(), Some("L2 3mn"));
    assert_eq!(frames[1].get("text").unwrap().as_str(), Some("LC6 5mn"));
}

#[test]
fn end_to_end_only_empty_waits_gives_the_no_result_frame() {
    let params = params_de_url("/?stop=COMM");
    let config = match handle_principal(&defauts(""), &params, Ok(&cache_nantes())) {
        Suite::Interroger(config) => config,
        autre => panic!("{:?}", autre),
    };
    let passages = vec![depart("2", 1, "Orvault Grand Val", ""), depart("C6", 2, "Hermeland", "")];
    let (statut, corps) = repondre_passages(Ok(passages), &config);
    assert_eq!(statut, 200);
    assert_eq!(corps, "{\"frames\":[{\"icon\":\"8958\",\"text\":\"Aucun\"}]}");
    let lu: serde_json::Value = serde_json::from_str(&corps).unwrap();
    assert_eq!(lu.get("frames").unwrap().as_array().unwrap().len(), 1);
}

#[test]
fn end_to_end_direction_three_is_refused_before_any_fetch() {
    let params = params_de_url("/?stop=COMM&direction=3");
    let suite = handle_principal(&defauts(""), &params, Ok(&cache_nantes()));
    assert_eq!(suite, erreur_400("Bad dir"));
    assert!(!matches!(suite, Suite::Interroger(_)));
}

#[test]
fn end_to_end_missing_stop() {
    let suite = handle_principal(&defauts(""), &params_de_url("/"), Ok(&cache_nantes()));
    assert_eq!(suite, erreur_400("No stop"));
    let suite = handle_principal(&defauts(""), &params_de_url("/?stop=&direction=5"), Err(CacheError));
    assert_eq!(suite, erreur_400("No stop"));
}

#[test]
fn end_to_end_unknown_stop() {
    let suite = handle_principal(&defauts(""), &params_de_url("/?stop=ZZZZ"), Ok(&cache_nantes()));
    assert_eq!(suite, erreur_400("Bad stop"));
    let suite = handle_principal(&defauts("ZZZZ"), &params_de_url("/"), Ok(&cache_nantes()));
    assert_eq!(suite, erreur_400("Bad stop"));
}

#[test]
fn end_to_end_unknown_stop_passes_while_the_cache_is_cold() {
    let froid = CacheArrets::new();
    assert!(!cache_valide(Ok(&froid), 0));
    let suite = handle_principal(&defauts(""), &params_de_url("/?stop=ZZZZ"), Ok(&froid));
    assert!(matches!(suite, Suite::Interroger(_)));
    let suite = handle_principal(&defauts(""), &params_de_url("/?stop=ZZZZ"), Err(CacheError));
    assert!(matches!(suite, Suite::Interroger(_)));
}

#[test]
fn end_to_end_upstream_failure_is_502() {
    let config = match handle_principal(&defauts("COMM"), &Params::aucun(), Err(CacheError)) {
        Suite::Interroger(config) => config,
        autre => panic!("{:?}", autre),
    };
    let echec = UpstreamError { cause: "connection refused".to_string() };
    assert_eq!(
        repondre_passages(Err(echec), &config),
        (502, "{\"frames\":[{\"icon\":\"555\",\"text\":\"API err\"}]}".to_string())
    );
}

#[test]
fn end_to_end_filters_limit_and_terminus() {
    let params = params_de_url("/?stop=gsno&line=c6&direction=2&limit=5&show_terminus=true");
    let config = match handle_principal(&defauts("COMM"), &params, Ok(&cache_nantes())) {
        Suite::Interroger(config) => config,
        autre => panic!("{:?}", autre),
    };
    let passages = vec![
        depart("C6", 1, "Chantrerie", "1mn"),
        depart("C6", 2, "Hermeland Grande Distance", "2mn"),
        depart("2", 2, "Gare de Pont-Rousseau", "3mn"),
        depart("c6", 2, "Hermeland", ""),
        depart("c6", 2, "Hermeland", "9mn"),
    ];
    let (statut, corps) = repondre_passages(Ok(passages), &config);
    assert_eq!(statut, 200);
    assert_eq!(
        corps,
        "{\"frames\":[{\"icon\":\"7956\",\"text\":\"C6 Hermeland G. 2mn\"},{\"icon\":\"7956\",\"text\":\"c6 Hermeland 9mn\"}]}"
    );
}

#[test]
fn end_to_end_text_with_a_quote_is_escaped() {
    let config = match handle_principal(&defauts("COMM"), &Params::aucun(), Err(CacheError)) {
        Suite::Interroger(config) => config,
        autre => panic!("{:?}", autre),
    };
    let (_, corps) = repondre_passages(Ok(vec![depart("C\"6", 1, "X", "2\\mn")]), &config);
    assert_eq!(corps, "{\"frames\":[{\"icon\":\"7956\",\"text\":\"LC\\\"6 2\\\\mn\"}]}");
}

#[test]
fn route_of_other_methods_is_405() {
    assert_eq!(CORPS_METHODE_REFUSEE, "{\"error\":\"Method not allowed\"}");
    for url in ["/", "/health", "/stops?search=a", "/nothing", ""] {
        assert_eq!(
            router(false, url, "1.0.0"),
            Route::Fixe(405, "{\"error\":\"Method not allowed\"}".to_string())
        );
    }
}

#[test]
fn route_of_unknown_paths_is_404() {
    assert_eq!(CORPS_CHEMIN_INCONNU, "{\"error\":\"Not found\"}");
    for url in ["", "/nothing", "/Health", "/health/", "//", "/stops/", "/?", "stops", "/info.json", "?stop=COMM"] {
        let attendu = if url == "/?" {
            Route::Principal(Params::aucun())
        } else {
            Route::Fixe(404, "{\"error\":\"Not found\"}".to_string())
        };
        assert_eq!(router(true, url, "1.0.0"), attendu, "{}", url);
    }
}

#[test]
fn route_of_health() {
    assert_eq!(CORPS_SANTE, "OK");
    assert_eq!(router(true, "/health", "1.0.0"), Route::Fixe(200, "OK".to_string()));
    assert_eq!(router(true, "/health?x=1", "1.0.0"), Route::Fixe(200, "OK".to_string()));
}

#[test]
fn route_of_popular_stops() {
    let route = router(true, "/popular-stops", "1.0.0");
    assert_eq!(route, Route::Fixe(200, ARRETS_POPULAIRES.to_string()));
    assert!(ARRETS_POPULAIRES.starts_with("[\n{\"code\":\"COMM\",\"name\":\"Commerce\"},\n{\"code\":\"GSNO\""));
    assert!(ARRETS_POPULAIRES.ends_with("{\"code\":\"HALU\",\"name\":\"Haluchère - Batignolles\"}\n]"));
    let lu: serde_json::Value = serde_json::from_str(ARRETS_POPULAIRES).unwrap();
    let arrets = lu.as_array().unwrap();
    assert_eq!(arrets.len(), 14);
    assert_eq!(arrets[3].get("code").unwrap().as_str(), Some("HVNA"));
    assert_eq!(arrets[3].get("name").unwrap().as_str(), Some("Hôtel de Ville"));
    assert_eq!(ARRETS_POPULAIRES.lines().count(), 16);
}

#[test]
fn route_of_info() {
    let route = router(true, "/info", "1.2.3");
    assert_eq!(route, Route::Fixe(200, handle_info("1.2.3")));
}

#[test]
fn info_names_the_version_and_the_paths() {
    let corps = handle_info("1.2.3");
    assert_eq!(corps, format!("{}1.2.3{}", INFO_DEBUT, INFO_FIN));
    assert!(corps.starts_with("{\"name\":\"NaoLaMetric\",\"version\":\"1.2.3\",\"description\":\"Application LaMetric"));
    let lu: serde_json::Value = serde_json::from_str(&corps).unwrap();
    assert_eq!(lu.get("name").unwrap().as_str(), Some("NaoLaMetric"));
    assert_eq!(lu.get("version").unwrap().as_str(), Some("1.2.3"));
    let chemins: Vec<&str> = lu
        .get("endpoints")
        .unwrap()
        .as_array()
        .unwrap()
        .iter()
        .map(|e| e.get("path").unwrap().as_str().unwrap())
        .collect();
    assert_eq!(chemins, vec!["/", "/stops", "/popular-stops", "/health", "/info"]);
    let noms: Vec<&str> = lu
        .get("parameters")
        .unwrap()
        .as_array()
        .unwrap()
        .iter()
        .map(|e| e.get("name").unwrap().as_str().unwrap())
        .collect();
    assert_eq!(noms, vec!["stop", "line", "direction", "limit", "show_terminus"]);
    assert_eq!(lu.get("examples").unwrap().as_array().unwrap().len(), 4);
    assert_eq!(
        lu.get("endpoints").unwrap().as_array().unwrap()[1].get("description").unwrap().as_str(),
        Some("Recherche d'arrêts")
    );
}

#[test]
fn route_of_departures_reads_the_query_string() {
    let p = params_de_url("/?stop=comm&limit=3");
    assert_eq!(p.stop, Some("COMM".to_string()));
    assert_eq!(p.limit, Some(3));
    assert_eq!(router(true, "/", "1.0.0"), Route::Principal(Params::aucun()));
    let p = params_de_url("/?search=a?b&stop=x");
    assert_eq!(p.search, Some("a?b".to_string()));
    assert_eq!(p.stop, Some("X".to_string()));
}

#[test]
fn route_of_stops_reads_the_query_string() {
    match router(true, "/stops?search=Gare&limit=20", "1.0.0") {
        Route::Arrets(p) => {
            assert_eq!(p.search, Some("gare".to_string()));
            assert_eq!(p.limit, Some(20));
        },
        autre => panic!("{:?}", autre),
    }
    assert_eq!(router(true, "/stops", "1.0.0"), Route::Arrets(Params::aucun()));
}
