//! Client-side logic for a movie-management REST API ("the media server"),
//! centred on reconciling free-text cinema listing titles against the
//! server's search results and deciding whether each title should be added.
//!
//! The core is the match selector (`matching`) and the add/skip decision
//! policy (`decision`); around them sit the data contracts the media server
//! exchanges and the configuration and URL plumbing of the client itself.

pub mod add_movie_payload;
pub mod add_options;
pub mod alternative_title;
pub mod client;
pub mod config;
pub mod data_source;
pub mod decision;
pub mod error;
pub mod health_response;
pub mod image;
pub mod listing;
pub mod matching;
pub mod ping_response;
pub mod quality;
pub mod quality_spec;
pub mod revision;
pub mod root_folder_response;
pub mod search_result;
pub mod status_response;

pub use add_movie_payload::AddMoviePayload;
pub use add_options::AddOptions;
pub use alternative_title::AlternativeTitle;
pub use client::Client;
pub use config::Config;
pub use config::MaterializedConfig;
pub use data_source::DataSource;
pub use decision::Decision;
pub use decision::Outcome;
pub use decision::SkipReason;
pub use error::ConfigNotMaterializeable;
pub use error::UnableToAddMovie;
pub use health_response::HealthResponse;
pub use image::Image;
pub use listing::ListingRecord;
pub use matching::MatchOutcome;
pub use ping_response::PingResponse;
pub use quality::Quality;
pub use quality_spec::QualitySpec;
pub use revision::Revision;
pub use root_folder_response::RootFolderResponse;
pub use search_result::SearchResult;
pub use status_response::StatusResponse;
