use radarr::AlternativeTitle;
use radarr::Decision;
use radarr::ListingRecord;
use radarr::SearchResult;
use radarr::SkipReason;
use radarr::decision::decide;
use radarr::decision::decide_all;
use radarr::listing::filter_by_category;

fn candidate(title: &str, year: u32, already_tracked: bool) -> SearchResult {
    SearchResult {
        title: String::from(title),
        secondary_year_source_id: 0,
        sort_title: title.to_lowercase(),
        alternate_titles: Vec::<AlternativeTitle>::new(),
        status: String::from("released"),
        overview: String::from(""),
        in_cinemas: None,
        year,
        monitored: already_tracked,
        has_file: already_tracked,
        minimum_availability: String::from("announced"),
        is_available: true,
        folder_name: String::from(""),
        runtime: 100,
        tmdb_id: 694,
        title_slug: String::from("slug"),
        genres: vec![],
        tags: vec![],
        added: String::from(""),
        quality_profile_id: 1,
        images: vec![],
    }
}

#[test]
fn single_untracked_match_is_added() {
    let decision = decide("Affinity", vec![candidate("Affinity", 2008, false)]);

    assert_eq!(decision, Decision::Add(candidate("Affinity", 2008, false)));
}

#[test]
fn two_matches_need_disambiguation() {
    let decision = decide(
        "Carrie",
        vec![candidate("Carrie", 1976, false), candidate("Carrie", 2013, false)],
    );

    assert_eq!(
        decision,
        Decision::NeedsDisambiguation(vec![
            candidate("Carrie", 1976, false),
            candidate("Carrie", 2013, false),
        ])
    );
}

#[test]
fn tracked_match_is_skipped() {
    let decision = decide("Nosferatu", vec![candidate("Nosferatu", 1922, true)]);

    assert_eq!(decision, Decision::Skip(SkipReason::AlreadyTracked));
    assert_eq!(SkipReason::AlreadyTracked.message(), "already tracked");
}

#[test]
fn empty_search_reply_is_skipped() {
    let decision = decide("Suspiria", vec![]);

    assert_eq!(decision, Decision::Skip(SkipReason::NoSearchResults));
    assert_eq!(SkipReason::NoSearchResults.message(), "no search results");
}

#[test]
fn unmatched_search_reply_is_skipped_differently() {
    let decision = decide("Suspiria", vec![candidate("Inferno", 1980, false)]);

    assert_eq!(decision, Decision::Skip(SkipReason::NoExactTitleMatch));
    assert_ne!(
        Decision::Skip(SkipReason::NoExactTitleMatch),
        Decision::Skip(SkipReason::NoSearchResults)
    );
    assert_eq!(SkipReason::NoExactTitleMatch.message(), "no exact title match");
}

fn batch() -> Vec<(ListingRecord, Vec<SearchResult>)> {
    vec![
        (
            ListingRecord {
                name: String::from("Affinity"),
                show_category: String::from("Terror Tuesday"),
            },
            vec![candidate("Affinity", 2008, false)],
        ),
        (
            ListingRecord {
                name: String::from("Carrie"),
                show_category: String::from("Terror Tuesday"),
            },
            vec![candidate("Carrie", 1976, false), candidate("Carrie", 2013, false)],
        ),
        (
            ListingRecord {
                name: String::from("Suspiria"),
                show_category: String::from("Weird Wednesday"),
            },
            vec![],
        ),
    ]
}

#[test]
fn deciding_twice_yields_the_same_outcomes() {
    let first = decide_all(batch());
    let second = decide_all(batch());

    assert_eq!(first, second);
    assert_eq!(first.len(), 3);
    assert_eq!(first[0].title, "Affinity");
    assert_eq!(first[0].decision, Decision::Add(candidate("Affinity", 2008, false)));
    assert_eq!(first[2].decision, Decision::Skip(SkipReason::NoSearchResults));
}

#[test]
fn category_filter_keeps_allowed_listings_in_order() {
    let listings = vec![
        ListingRecord {
            name: String::from("Affinity"),
            show_category: String::from("Terror Tuesday"),
        },
        ListingRecord {
            name: String::from("Big Lebowski"),
            show_category: String::from("Quote-Along"),
        },
        ListingRecord {
            name: String::from("Suspiria"),
            show_category: String::from("Weird Wednesday"),
        },
    ];
    let allowed = vec![String::from("Terror Tuesday"), String::from("Weird Wednesday")];

    let kept = filter_by_category(listings, &allowed);

    assert_eq!(kept.len(), 2);
    assert_eq!(kept[0].name, "Affinity");
    assert_eq!(kept[1].name, "Suspiria");
}
