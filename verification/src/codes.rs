//! The enumerated fields of a request and their short codes.

use vstd::prelude::*;

verus! {

/// Compares two string slices by their characters.
pub fn text_eq(a: &str, b: &str) -> (same: bool)
    ensures
        same == (a@ == b@),
{
    let left = a.to_owned();
    let right = b.to_owned();
    left == right
}

/// The wire-level kind of a request.
#[derive(Clone, Copy, Debug, PartialEq, Eq, Structural)]
pub enum ProtocolTypes {
    Http,
    Websocket,
    Grpc,
    GraphQL,
}

impl ProtocolTypes {
    /// The short code under which this protocol is stored.
    pub open spec fn code(self) -> Seq<char> {
        match self {
            ProtocolTypes::Http => "HTTP"@,
            ProtocolTypes::Websocket => "WS"@,
            ProtocolTypes::Grpc => "GRPC"@,
            ProtocolTypes::GraphQL => "GQL"@,
        }
    }

    /// The protocol that a code stands for, if it is a declared one.
    pub open spec fn parse(code: Seq<char>) -> Option<ProtocolTypes> {
        if code == "HTTP"@ {
            Some(ProtocolTypes::Http)
        } else if code == "WS"@ {
            Some(ProtocolTypes::Websocket)
        } else if code == "GRPC"@ {
            Some(ProtocolTypes::Grpc)
        } else if code == "GQL"@ {
            Some(ProtocolTypes::GraphQL)
        } else {
            None
        }
    }

    /// Writes the protocol as its code.
    pub fn to_string(&self) -> (text: String)
        ensures
            text@ == self.code(),
    {
        match self {
            ProtocolTypes::Http => "HTTP".to_owned(),
            ProtocolTypes::Websocket => "WS".to_owned(),
            ProtocolTypes::Grpc => "GRPC".to_owned(),
            ProtocolTypes::GraphQL => "GQL".to_owned(),
        }
    }

    /// Reads a protocol from its code. A text that is no declared code gives
    /// `None`; nothing is ever assumed in its place.
    pub fn from_string(s: &str) -> (parsed: Option<ProtocolTypes>)
        ensures
            parsed == ProtocolTypes::parse(s@),
            parsed is Some <==> is_protocol_code(s@),
            parsed matches Some(p) ==> p.code() == s@,
    {
        if text_eq(s, "HTTP") {
            Some(ProtocolTypes::Http)
        } else if text_eq(s, "WS") {
            Some(ProtocolTypes::Websocket)
        } else if text_eq(s, "GRPC") {
            Some(ProtocolTypes::Grpc)
        } else if text_eq(s, "GQL") {
            Some(ProtocolTypes::GraphQL)
        } else {
            None
        }
    }
}

/// Every protocol is recovered from its own code.
pub proof fn lemma_protocol_code_round_trip(p: ProtocolTypes)
    ensures
        ProtocolTypes::parse(p.code()) == Some(p),
        is_protocol_code(p.code()),
{
    reveal_strlit("HTTP");
    reveal_strlit("WS");
    reveal_strlit("GRPC");
    reveal_strlit("GQL");
    assert("HTTP"@.len() == 4 && "WS"@.len() == 2 && "GRPC"@.len() == 4 && "GQL"@.len() == 3);
    assert("HTTP"@[0] == 'H' && "GRPC"@[0] == 'G');
}

/// The HTTP method of a request; it matters only under the HTTP protocol.
#[derive(Clone, Copy, Debug, PartialEq, Eq, Structural)]
pub enum HTTPMethods {
    Post,
    Get,
    Put,
    Delete,
}

impl HTTPMethods {
    /// The short code under which this method is stored.
    pub open spec fn code(self) -> Seq<char> {
        match self {
            HTTPMethods::Post => "POST"@,
            HTTPMethods::Get => "GET"@,
            HTTPMethods::Put => "PUT"@,
            HTTPMethods::Delete => "DEL"@,
        }
    }

    /// The method that a code stands for, if it is a declared one.
    pub open spec fn parse(code: Seq<char>) -> Option<HTTPMethods> {
        if code == "POST"@ {
            Some(HTTPMethods::Post)
        } else if code == "GET"@ {
            Some(HTTPMethods::Get)
        } else if code == "PUT"@ {
            Some(HTTPMethods::Put)
        } else if code == "DEL"@ {
            Some(HTTPMethods::Delete)
        } else {
            None
        }
    }

    /// Writes the method as its code.
    pub fn to_string(&self) -> (text: String)
        ensures
            text@ == self.code(),
    {
        match self {
            HTTPMethods::Post => "POST".to_owned(),
            HTTPMethods::Get => "GET".to_owned(),
            HTTPMethods::Put => "PUT".to_owned(),
            HTTPMethods::Delete => "DEL".to_owned(),
        }
    }

    /// Reads a method from its code. A text that is no declared code gives
    /// `None`; nothing is ever assumed in its place.
    pub fn from_string(s: &str) -> (parsed: Option<HTTPMethods>)
        ensures
            parsed == HTTPMethods::parse(s@),
            parsed is Some <==> is_method_code(s@),
            parsed matches Some(m) ==> m.code() == s@,
    {
        if text_eq(s, "POST") {
            Some(HTTPMethods::Post)
        } else if text_eq(s, "GET") {
            Some(HTTPMethods::Get)
        } else if text_eq(s, "PUT") {
            Some(HTTPMethods::Put)
        } else if text_eq(s, "DEL") {
            Some(HTTPMethods::Delete)
        } else {
            None
        }
    }
}

/// Whether a text is one of the four method codes.
pub open spec fn is_method_code(code: Seq<char>) -> bool {
    code == "POST"@ || code == "GET"@ || code == "PUT"@ || code == "DEL"@
}

/// Whether a text is one of the four protocol codes.
pub open spec fn is_protocol_code(code: Seq<char>) -> bool {
    code == "HTTP"@ || code == "WS"@ || code == "GRPC"@ || code == "GQL"@
}

/// Every method is recovered from its own code.
pub proof fn lemma_method_code_round_trip(m: HTTPMethods)
    ensures
        HTTPMethods::parse(m.code()) == Some(m),
        is_method_code(m.code()),
{
    reveal_strlit("POST");
    reveal_strlit("GET");
    reveal_strlit("PUT");
    reveal_strlit("DEL");
    assert("POST"@.len() == 4 && "GET"@.len() == 3 && "PUT"@.len() == 3 && "DEL"@.len() == 3);
    assert("GET"@[0] == 'G' && "PUT"@[0] == 'P' && "DEL"@[0] == 'D');
}

/// A text is read as a method exactly when it is a declared code, and then
/// the method read is the one that writes that code.
pub proof fn lemma_method_parse_exact(code: Seq<char>)
    ensures
        HTTPMethods::parse(code) is Some <==> is_method_code(code),
        HTTPMethods::parse(code) matches Some(m) ==> m.code() == code,
{
}

/// A text is read as a protocol exactly when it is a declared code, and
/// then the protocol read is the one that writes that code.
pub proof fn lemma_protocol_parse_exact(code: Seq<char>)
    ensures
        ProtocolTypes::parse(code) is Some <==> is_protocol_code(code),
        ProtocolTypes::parse(code) matches Some(p) ==> p.code() == code,
{
}


} // verus!
