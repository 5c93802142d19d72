use orda::query::is_false;
use orda::Civilization;
use orda::Query;
use orda::SortBy;

fn pair(name: &str, value: &str) -> (String, String) {
    (name.to_string(), value.to_string())
}

fn all_civilizations() -> Vec<(Civilization, &'static str)> {
    vec![
        (Civilization::Any, "ANY"),
        (Civilization::Abb, "ABB"),
        (Civilization::Ayy, "AYY"),
        (Civilization::Byz, "BYZ"),
        (Civilization::Chi, "CHI"),
        (Civilization::Del, "DEL"),
        (Civilization::Eng, "ENG"),
        (Civilization::Fre, "FRE"),
        (Civilization::Gol, "GOL"),
        (Civilization::Hol, "HOL"),
        (Civilization::Hre, "HRE"),
        (Civilization::Jap, "JAP"),
        (Civilization::Jda, "JDA"),
        (Civilization::Kte, "KTE"),
        (Civilization::Mac, "MAC"),
        (Civilization::Mal, "MAL"),
        (Civilization::Mon, "MON"),
        (Civilization::Dra, "DRA"),
        (Civilization::Ott, "OTT"),
        (Civilization::Rus, "RUS"),
        (Civilization::Sen, "SEN"),
        (Civilization::Tug, "TUG"),
        (Civilization::Zxl, "ZXL"),
    ]
}

#[test]
fn default_filters_send_nothing() {
    let q = Query::from_parts(Civilization::Any, None, false);
    assert!(q.pairs().is_empty());
    assert_eq!(q.civ(), None);
    assert_eq!(q.order_by(), None);
    assert!(!q.overlay());
}

#[test]
fn score_and_overlay_are_sent_without_civ() {
    let q = Query::from_parts(Civilization::Any, Some(SortBy::Score), true);
    assert_eq!(q.pairs(), vec![pair("orderBy", "score"), pair("overlay", "true")]);
    assert!(q.pairs().iter().all(|p| p.0 != "civ"));
}

#[test]
fn every_civilization_has_its_code() {
    let all = all_civilizations();
    assert_eq!(all.len(), 23);
    for (civ, code) in all {
        assert_eq!(civ.as_str(), code);
        assert_eq!(civ.to_string(), code);
    }
}

#[test]
fn french_and_mongol_codes() {
    assert_eq!(Civilization::Fre.to_string(), "FRE");
    assert_eq!(Civilization::Mon.to_string(), "MON");
}

#[test]
fn every_civilization_but_any_is_sent_as_its_code() {
    for (civ, code) in all_civilizations() {
        let q = Query::from_parts(civ, None, false);
        if civ == Civilization::Any {
            assert_eq!(q.civ(), None);
            assert!(q.pairs().is_empty());
        } else {
            assert_eq!(q.civ(), Some(code));
            assert_eq!(q.pairs(), vec![pair("civ", code)]);
        }
    }
}

#[test]
fn codes_are_distinct() {
    let all = all_civilizations();
    for (i, a) in all.iter().enumerate() {
        for (j, b) in all.iter().enumerate() {
            assert_eq!(i == j, a.1 == b.1);
            assert_eq!(i == j, a.0 == b.0);
        }
    }
}

#[test]
fn every_criterion_has_its_token() {
    assert_eq!(SortBy::Score.to_string(), "score");
    assert_eq!(SortBy::TimeCreated.to_string(), "timeCreated");
    assert_eq!(SortBy::Views.to_string(), "views");
    assert_eq!(SortBy::Likes.to_string(), "likes");
    assert_eq!(SortBy::Score.as_str(), "score");
    assert_eq!(SortBy::TimeCreated.as_str(), "timeCreated");
    assert_eq!(SortBy::Views.as_str(), "views");
    assert_eq!(SortBy::Likes.as_str(), "likes");
}

#[test]
fn every_criterion_is_sent_as_its_token() {
    let all = vec![
        (SortBy::Score, "score"),
        (SortBy::TimeCreated, "timeCreated"),
        (SortBy::Views, "views"),
        (SortBy::Likes, "likes"),
    ];
    for (sort, token) in all {
        let q = Query::from_parts(Civilization::Any, Some(sort), false);
        assert_eq!(q.order_by(), Some(token));
        assert_eq!(q.pairs(), vec![pair("orderBy", token)]);
    }
}

#[test]
fn all_three_filters_come_in_declaration_order() {
    let q = Query::from_parts(Civilization::Mon, Some(SortBy::Score), true);
    assert_eq!(
        q.pairs(),
        vec![pair("civ", "MON"), pair("orderBy", "score"), pair("overlay", "true")]
    );
    assert_eq!(q.civ(), Some("MON"));
    assert_eq!(q.order_by(), Some("score"));
    assert!(q.overlay());
}

#[test]
fn overlay_false_is_never_sent() {
    for (civ, _) in all_civilizations() {
        let q = Query::from_parts(civ, Some(SortBy::Likes), false);
        assert!(q.pairs().iter().all(|p| p.0 != "overlay" && p.1 != "false"));
    }
}

#[test]
fn overlay_alone() {
    let q = Query::from_parts(Civilization::Any, None, true);
    assert_eq!(q.pairs(), vec![pair("overlay", "true")]);
}

#[test]
fn is_false_negates() {
    assert!(is_false(&false));
    assert!(!is_false(&true));
}
