//! Resolving a track page of the site into a verified description of the track:
//! the hydration state is located among the page's scripts and parsed, the
//! track and author are assembled from it, artwork URLs are normalised, client
//! ids are read out of bundled scripts, and stub URLs are turned into requests.

pub mod artwork;
pub mod client_id;
pub mod error;
pub mod json;
pub mod page;
pub mod response;
pub mod text;
pub mod track;
