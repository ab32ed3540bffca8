use radarr::AddMoviePayload;
use radarr::AlternativeTitle;
use radarr::Image;
use radarr::SearchResult;
use radarr::UnableToAddMovie;

fn untracked_result() -> SearchResult {
    SearchResult {
        title: String::from("Affinity"),
        secondary_year_source_id: 0,
        sort_title: String::from("affinity"),
        alternate_titles: Vec::<AlternativeTitle>::new(),
        status: String::from("released"),
        overview: String::from("A spiritualist medium in a Victorian prison."),
        in_cinemas: None,
        year: 2008,
        monitored: false,
        has_file: false,
        minimum_availability: String::from("announced"),
        is_available: true,
        folder_name: String::from(""),
        runtime: 104,
        tmdb_id: 17139,
        title_slug: String::from("affinity-17139"),
        genres: vec![String::from("Drama")],
        tags: vec![],
        added: String::from(""),
        quality_profile_id: 1,
        images: vec![Image {
            cover_type: String::from("poster"),
            url: String::from("/posters/affinity.jpg"),
        }],
    }
}

#[test]
fn payload_copies_the_required_fields() {
    let movie = untracked_result();

    let payload = AddMoviePayload::from_movie_response(&movie).unwrap();

    assert_eq!(payload.title, "Affinity");
    assert_eq!(payload.title_slug, "affinity-17139");
    assert_eq!(payload.tmdb_id, 17139);
    assert_eq!(payload.year, 2008);
    assert_eq!(payload.images.len(), 1);
    assert_eq!(payload.images[0].url, "/posters/affinity.jpg");
    assert!(payload.path.is_none());
    assert!(payload.root_folder_path.is_none());
    assert!(payload.monitored.is_none());
    assert!(payload.add_options.is_none());
}

#[test]
fn no_payload_for_a_tracked_movie() {
    let mut movie = untracked_result();
    movie.monitored = true;

    assert!(AddMoviePayload::from_movie_response(&movie).is_none());

    let mut movie = untracked_result();
    movie.has_file = true;

    assert!(AddMoviePayload::from_movie_response(&movie).is_none());
}

#[test]
fn payload_is_valid_with_exactly_one_destination() {
    let movie = untracked_result();
    let mut payload = AddMoviePayload::from_movie_response(&movie).unwrap();

    assert!(!payload.is_valid());

    payload.set_root_folder_path("/storage/Movies");
    assert!(payload.is_valid());
    assert_eq!(payload.root_folder_path.as_deref(), Some("/storage/Movies"));

    payload.set_path("/storage/Movies/Affinity (2008)");
    assert!(!payload.is_valid());
}

#[test]
fn set_search_for_movie_monitors_the_movie_only() {
    let movie = untracked_result();
    let mut payload = AddMoviePayload::from_movie_response(&movie).unwrap();

    payload.set_search_for_movie(true);

    let options = payload.add_options.unwrap();
    assert!(options.search_for_movie);
    assert_eq!(options.monitor, "movieOnly");
}

#[test]
fn set_monitored_sets_the_flag() {
    let movie = untracked_result();
    let mut payload = AddMoviePayload::from_movie_response(&movie).unwrap();

    payload.set_monitored(true);

    assert_eq!(payload.monitored, Some(true));
}

#[test]
fn add_error_reports_its_message() {
    let error = UnableToAddMovie::with_msg("server said no");

    assert_eq!(error.message(), "Unable to add movie: server said no");
}
