use vstd::prelude::*;

pub mod text;
pub mod unicode;
pub mod paths;
pub mod patterns;
pub mod library;
pub mod tmdb;
pub mod sorting;
pub mod subtitle;
pub mod routes;
pub mod scan;
pub mod watching;
pub mod media;
pub mod remux;
pub mod desktop;
pub mod ingest;
pub mod items;
pub mod network;

verus! {
} // verus!
