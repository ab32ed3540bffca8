use radarr::AlternativeTitle;
use radarr::MatchOutcome;
use radarr::SearchResult;
use radarr::matching::find_matches;

fn candidate(title: &str, alternative_titles: &[&str]) -> SearchResult {
    SearchResult {
        title: String::from(title),
        secondary_year_source_id: 0,
        sort_title: title.to_lowercase(),
        alternate_titles: alternative_titles
            .iter()
            .map(|t| AlternativeTitle { title: String::from(*t) })
            .collect(),
        status: String::from("released"),
        overview: String::from(""),
        in_cinemas: None,
        year: 1980,
        monitored: false,
        has_file: false,
        minimum_availability: String::from("announced"),
        is_available: true,
        folder_name: String::from(""),
        runtime: 100,
        tmdb_id: 694,
        title_slug: String::from("slug"),
        genres: vec![],
        tags: vec![],
        added: String::from(""),
        quality_profile_id: 1,
        images: vec![],
    }
}

#[test]
fn match_is_case_insensitive() {
    let outcome = find_matches("The Shining", vec![candidate("the shining", &[])]);

    match outcome {
        MatchOutcome::Matches(found) => assert_eq!(found.len(), 1),
        MatchOutcome::NoMatch => panic!("case-folded equal titles must match"),
    }
}

#[test]
fn match_is_exact_after_case_folding() {
    let outcome = find_matches("Shining", vec![candidate("The Shining", &[])]);

    assert_eq!(outcome, MatchOutcome::NoMatch);
}

#[test]
fn match_accepts_alternative_titles() {
    let outcome = find_matches(
        "Dracula",
        vec![candidate("Nosferatu", &["Dracula", "Terror of Dracula"])],
    );

    match outcome {
        MatchOutcome::Matches(found) => {
            assert_eq!(found.len(), 1);
            assert_eq!(found[0].title, "Nosferatu");
        }
        MatchOutcome::NoMatch => panic!("an alternative title must match"),
    }
}

#[test]
fn match_preserves_candidate_order() {
    let c1 = candidate("Carrie", &[]);
    let c2 = candidate("Christine", &[]);
    let c3 = candidate("The Fury", &["Carrie"]);

    let outcome = find_matches("carrie", vec![c1, c2, c3]);

    match outcome {
        MatchOutcome::Matches(found) => {
            assert_eq!(found, vec![candidate("Carrie", &[]), candidate("The Fury", &["Carrie"])]);
        }
        MatchOutcome::NoMatch => panic!("two candidates must match"),
    }
}

#[test]
fn match_keeps_duplicates() {
    let outcome = find_matches("Carrie", vec![candidate("Carrie", &[]), candidate("Carrie", &[])]);

    match outcome {
        MatchOutcome::Matches(found) => assert_eq!(found.len(), 2),
        MatchOutcome::NoMatch => panic!("duplicate titles must both match"),
    }
}

#[test]
fn empty_candidate_list_is_no_match() {
    let outcome = find_matches("Affinity", vec![]);

    assert_eq!(outcome, MatchOutcome::NoMatch);
}

#[test]
fn no_qualifying_candidate_is_no_match() {
    let outcome = find_matches("Affinity", vec![candidate("Alien", &[]), candidate("Aliens", &[])]);

    assert_eq!(outcome, MatchOutcome::NoMatch);
}
