//! The plain data records that the repositories hand out, and the
//! mathematical rows that stand for them in contracts.

use vstd::prelude::*;

verus! {

/// A collection as contracts see it.
pub struct CollectionRecord {
    pub id: Seq<char>,
    pub name: Seq<char>,
    pub icon: Seq<char>,
    pub requests_count: int,
}

/// A request as contracts see it.
pub struct RequestRecord {
    pub id: Seq<char>,
    pub name: Seq<char>,
    pub url: Option<Seq<char>>,
    pub protocol: Seq<char>,
    pub collection_id: Seq<char>,
    pub http_method: Option<Seq<char>>,
}

/// The characters of an optional text.
pub open spec fn text_of(field: Option<String>) -> Option<Seq<char>> {
    match field {
        Some(text) => Some(text@),
        None => None,
    }
}

/// A named folder of requests.
#[derive(Debug)]
pub struct CollectionData {
    pub id: String,
    pub name: String,
    pub icon: String,
    pub requests_count: i32,
}

impl View for CollectionData {
    type V = CollectionRecord;

    open spec fn view(&self) -> CollectionRecord {
        CollectionRecord {
            id: self.id@,
            name: self.name@,
            icon: self.icon@,
            requests_count: self.requests_count as int,
        }
    }
}

impl Clone for CollectionData {
    fn clone(&self) -> (copy: Self)
        ensures
            copy == *self,
    {
        CollectionData {
            id: self.id.clone(),
            name: self.name.clone(),
            icon: self.icon.clone(),
            requests_count: self.requests_count,
        }
    }
}

/// The saved metadata of one call. No request is ever sent.
#[derive(Debug)]
pub struct RequestData {
    pub id: String,
    pub name: String,
    pub url: Option<String>,
    pub protocol: String,
    pub collection_id: String,
    pub http_method: Option<String>,
}

impl View for RequestData {
    type V = RequestRecord;

    open spec fn view(&self) -> RequestRecord {
        RequestRecord {
            id: self.id@,
            name: self.name@,
            url: text_of(self.url),
            protocol: self.protocol@,
            collection_id: self.collection_id@,
            http_method: text_of(self.http_method),
        }
    }
}

/// Copies an optional text.
pub fn clone_text(field: &Option<String>) -> (copy: Option<String>)
    ensures
        copy == *field,
{
    match field {
        Some(text) => Some(text.clone()),
        None => None,
    }
}

impl Clone for RequestData {
    fn clone(&self) -> (copy: Self)
        ensures
            copy == *self,
    {
        RequestData {
            id: self.id.clone(),
            name: self.name.clone(),
            url: clone_text(&self.url),
            protocol: self.protocol.clone(),
            collection_id: self.collection_id.clone(),
            http_method: clone_text(&self.http_method),
        }
    }
}

} // verus!
