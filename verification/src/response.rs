//! The acknowledgement a successful create or update returns.

use vstd::prelude::*;

verus! {

/// One key/value pair of descriptive output on a successful operation.
#[derive(Debug)]
pub struct Attribute {
    pub key: String,
    pub value: String,
}

/// Acknowledgement of a successful create or update: descriptive attributes
/// for observability, and follow-up messages for the host. This store never
/// emits a follow-up message, and its contracts say so.
#[derive(Debug)]
pub struct Response {
    pub messages: Vec<String>,
    pub attributes: Vec<Attribute>,
}

impl Response {
    /// The attributes as pairs of character sequences, in order.
    pub open spec fn attrs(self) -> Seq<(Seq<char>, Seq<char>)> {
        self.attributes@.map_values(|a: Attribute| (a.key@, a.value@))
    }

    /// The follow-up messages as character sequences, in order.
    pub open spec fn msgs(self) -> Seq<Seq<char>> {
        self.messages@.map_values(|m: String| m@)
    }

    /// An acknowledgement with no attributes and no messages.
    pub fn new() -> (r: Response)
        ensures
            r.attrs() == Seq::<(Seq<char>, Seq<char>)>::empty(),
            r.msgs() == Seq::<Seq<char>>::empty(),
    {
        let r = Response { messages: Vec::new(), attributes: Vec::new() };
        proof {
            assert(r.attrs() =~= Seq::<(Seq<char>, Seq<char>)>::empty());
            assert(r.msgs() =~= Seq::<Seq<char>>::empty());
        }
        r
    }

    /// Appends one attribute; everything already present is kept as it was.
    pub fn add_attribute(self, key: &str, value: String) -> (r: Response)
        ensures
            r.attrs() == self.attrs().push((key@, value@)),
            r.msgs() == self.msgs(),
    {
        let ghost prior_attrs = self.attrs();
        let ghost value_view = value@;
        let Response { messages, mut attributes } = self;
        attributes.push(Attribute { key: key.to_string(), value });
        let r = Response { messages, attributes };
        proof {
            assert(r.attrs() =~= prior_attrs.push((key@, value_view)));
        }
        r
    }
}

} // verus!
