use vstd::prelude::*;

verus! {

/// One observable key-value pair, emitted with a successful response and
/// consumed by off-chain indexers. Attributes are part of the stable
/// interface: a handler emits them only on success.
#[derive(Debug, PartialEq, Eq)]
pub struct Attribute {
    pub key: String,
    pub value: String,
}

impl View for Attribute {
    type V = (Seq<char>, Seq<char>);

    open spec fn view(&self) -> (Seq<char>, Seq<char>) {
        (self.key@, self.value@)
    }
}

/// Acknowledgement a handler returns to the host on success: the attributes
/// to emit. The present handlers schedule no outbound cross-module calls, so
/// none are carried.
#[derive(Debug, PartialEq, Eq)]
pub struct Response {
    pub attributes: Vec<Attribute>,
}

impl Response {
    /// The emitted attributes as key-value pairs of character sequences.
    pub open spec fn attrs(&self) -> Seq<(Seq<char>, Seq<char>)> {
        self.attributes@.map_values(|a: Attribute| a@)
    }

    /// An acknowledgement carrying no attributes.
    pub fn new() -> (r: Response)
        ensures
            r.attrs() == Seq::<(Seq<char>, Seq<char>)>::empty(),
    {
        let r = Response { attributes: Vec::new() };
        proof {
            assert(r.attrs() =~= Seq::<(Seq<char>, Seq<char>)>::empty());
        }
        r
    }

    /// Builder step: the same acknowledgement with one more attribute, at
    /// the end.
    pub fn add_attribute(self, key: &str, value: &str) -> (r: Response)
        ensures
            r.attrs() == self.attrs().push((key@, value@)),
    {
        let ghost before = self;
        let mut attributes = self.attributes;
        attributes.push(Attribute { key: key.to_owned(), value: value.to_owned() });
        let r = Response { attributes };
        proof {
            assert(r.attrs() =~= before.attrs().push((key@, value@)));
        }
        r
    }
}

impl Default for Response {
    /// The neutral acknowledgement: no attributes.
    fn default() -> (r: Response)
        ensures
            r.attrs() == Seq::<(Seq<char>, Seq<char>)>::empty(),
    {
        Response::new()
    }
}

} // verus!
