//! The records that the API returns, and the envelopes they arrive in.

use std::collections::HashMap;
use vstd::prelude::*;

verus! {

/// A point in time on the UTC scale: whole seconds since 1970-01-01T00:00:00Z,
/// leap seconds not counted, and the nanoseconds that follow them.
#[derive(Clone, Copy, Debug, PartialEq, Eq, Structural)]
pub struct Timestamp {
    pub secs: i64,
    pub nanos: u32,
}

/// One declaration-area record. Every field is required.
#[derive(Clone, Debug, PartialEq, Eq)]
pub struct Entry {
    pub disaster_number: i32,
    pub program_type_code: String,
    pub program_type_description: String,
    pub state_code: String,
    pub place_code: String,
    pub place_name: String,
    pub designated_date: Timestamp,
    pub entry_date: Timestamp,
    pub update_date: Timestamp,
    pub hash: String,
    pub last_refresh: Timestamp,
    pub id: String,
}

/// What the server says of the query it answered. The pager reads `count`
/// alone; the other fields are carried along as they came.
#[derive(Clone, Debug, PartialEq, Eq)]
pub struct Metadata {
    pub skip: i32,
    pub top: i32,
    pub count: i32,
    pub filter: String,
    pub format: String,
    pub metadata: bool,
    pub orderby: HashMap<String, String>,
    pub select: String,
    pub entityname: String,
    pub version: String,
    pub url: String,
    pub rundate: Timestamp,
    pub deprecation_information: HashMap<String, Option<String>>,
}

/// The envelope of every page but the first: the entries, in the server's
/// order.
#[derive(Clone, Debug, PartialEq, Eq)]
pub struct Response {
    pub fema_web_declaration_areas: Vec<Entry>,
}

/// The envelope of the first page: the entries and the metadata of the query.
#[derive(Clone, Debug, PartialEq, Eq)]
pub struct ResponseWithMetaData {
    pub metadata: Metadata,
    pub fema_web_declaration_areas: Vec<Entry>,
}

} // verus!
