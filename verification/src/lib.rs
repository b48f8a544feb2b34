//! Nagoya-Protocol compliance checks for biological-sample probes.
//!
//! The crate answers one question: is a probe's country of origin subject to
//! Nagoya-Protocol access-and-benefit-sharing measures?  Callers supply an ISO
//! 3166-1 country code (alpha-2 or alpha-3, any case) or the outcome of a
//! reverse-geocoding step; the code is normalized to a canonical alpha-3 code
//! and tested against a lazily refreshed reference set of implementing
//! countries.
//!
//! The verified core is the normalization table ([`iso3166`]), the reference
//! set and its TTL cache ([`models`], [`cache`]), the ingestion of registry
//! records ([`registry`]), and the compliance decisions ([`nagoya_check`]).
//! All I/O (HTTP serving, registry and geocoder requests, configuration
//! loading) is left to the embedding program, which hands plain values in and
//! takes plain values back.

pub mod cache;
pub mod iso3166;
pub mod models;
pub mod nagoya_check;
pub mod registry;
