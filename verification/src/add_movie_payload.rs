//! The payload sent to the media server to add a work.

use vstd::prelude::*;

use crate::add_options::AddOptions;
use crate::image::Image;
use crate::search_result::SearchResult;

verus! {

/// An add request under construction. The server needs the work's title,
/// slug, images, upstream identifier and release year, plus a destination:
/// either an explicit path or a root folder the server may build the path
/// under. Monitoring and search-on-add are optional instructions.
#[derive(Debug, PartialEq, Eq)]
pub struct AddMoviePayload {
    pub title: String,
    pub title_slug: String,
    pub images: Vec<Image>,
    pub tmdb_id: u32,
    pub year: u32,
    pub path: Option<String>,
    pub root_folder_path: Option<String>,
    pub monitored: Option<bool>,
    pub add_options: Option<AddOptions>,
}

impl AddMoviePayload {
    /// A payload may be submitted only when it names exactly one
    /// destination: an explicit path or a root folder, never both and
    /// never neither.
    pub open spec fn is_valid_for_submission(self) -> bool {
        (self.path is Some) != (self.root_folder_path is Some)
    }

    /// Builds an add request from a search result, copying the fields the
    /// server requires and leaving every optional field unset.
    ///
    /// A work the server already tracks must not be added again, so no
    /// payload is built for it; `None` says so.
    pub fn from_movie_response(movie: &SearchResult) -> (r: Option<AddMoviePayload>)
        ensures
            r is None <==> movie.is_already_tracked(),
            r matches Some(p) ==> {
                &&& p.title == movie.title
                &&& p.title_slug == movie.title_slug
                &&& p.images@ == movie.images@
                &&& p.tmdb_id == movie.tmdb_id
                &&& p.year == movie.year
                &&& p.path is None
                &&& p.root_folder_path is None
                &&& p.monitored is None
                &&& p.add_options is None
            },
    {
        if movie.has_file || movie.monitored {
            return None;
        }

        let title = movie.title.clone();
        let title_slug = movie.title_slug.clone();
        let images = movie.images.clone();
        proof {
            assert forall|i: int| 0 <= i < movie.images@.len() implies images@[i]
                == movie.images@[i] by {
                assert(cloned::<Image>(movie.images[i], images[i]));
            }
            assert(images@ =~= movie.images@);
        }
        let tmdb_id = movie.tmdb_id;
        let year = movie.year;
        let path = None;
        let root_folder_path = None;
        let monitored = None;
        let add_options = None;

        Some(AddMoviePayload {
            title,
            title_slug,
            images,
            tmdb_id,
            year,
            path,
            root_folder_path,
            monitored,
            add_options,
        })
    }

    /// Sets the search-on-add instruction, monitoring the movie only.
    pub fn set_search_for_movie(&mut self, value: bool)
        ensures
            final(self).add_options matches Some(o) && o.search_for_movie == value
                && o.monitor@ == "movieOnly"@,
            *final(self) == (AddMoviePayload { add_options: final(self).add_options, ..*old(self) }),
    {
        let search_object = AddOptions { search_for_movie: value, monitor: "movieOnly".to_owned() };

        self.add_options = Some(search_object);
    }

    pub fn set_monitored(&mut self, value: bool)
        ensures
            *final(self) == (AddMoviePayload { monitored: Some(value), ..*old(self) }),
    {
        self.monitored = Some(value);
    }

    pub fn set_path(&mut self, value: &str)
        ensures
            final(self).path matches Some(p) && p@ == value@,
            *final(self) == (AddMoviePayload { path: final(self).path, ..*old(self) }),
    {
        self.path = Some(value.to_owned());
    }

    pub fn set_root_folder_path(&mut self, value: &str)
        ensures
            final(self).root_folder_path matches Some(p) && p@ == value@,
            *final(self) == (AddMoviePayload {
                root_folder_path: final(self).root_folder_path,
                ..*old(self)
            }),
    {
        self.root_folder_path = Some(value.to_owned());
    }

    /// Whether the payload may be submitted: it carries exactly one of an
    /// explicit path and a root folder reference.
    pub fn is_valid(&self) -> (r: bool)
        ensures
            r == self.is_valid_for_submission(),
    {
        self.path.is_some() != self.root_folder_path.is_some()
    }
}

} // verus!
