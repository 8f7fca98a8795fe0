//! Geographic metadata reporting for network addresses at the edge.
//!
//! Given a client address and the outcome of a geolocation lookup, the
//! library normalizes the raw result (or its absence) into a fully
//! populated [`model::GeoIPResponse`], renders that record as an HTML
//! page or a JSON document, and decides how an HTTP request (method and
//! path) is answered.
//!
//! The JSON form is a canonical document. [`parse::parse_json`] returns
//! a record only for that record's own rendering, and
//! [`canon::lemma_json_injective`] proves the document determines the
//! record, so whatever parses back is the record that was rendered.
//! That every rendered document is accepted is guaranteed piecewise by
//! the parser's verified helpers and exercised by the round-trip tests.

pub mod canon;
pub mod html;
pub mod json;
pub mod laws;
pub mod model;
pub mod parse;
pub mod router;
pub mod text;
