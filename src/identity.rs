use vstd::prelude::*;

verus! {

/// An account reference: opaque, compared for equality only.
#[derive(Debug)]
pub struct Identity {
    key: String,
}

impl View for Identity {
    type V = Seq<char>;

    closed spec fn view(&self) -> Seq<char> {
        self.key@
    }
}

impl Identity {
    /// Wraps the textual form of an account reference.
    pub fn new(key: String) -> (r: Identity)
        ensures
            r@ == key@,
    {
        Identity { key }
    }

    /// The textual form of the account reference.
    pub fn as_str(&self) -> (r: &str)
        ensures
            r@ == self@,
    {
        self.key.as_str()
    }

    /// A second handle on the same account.
    pub fn duplicate(&self) -> (r: Identity)
        ensures
            r == *self,
    {
        Identity { key: self.key.clone() }
    }
}

impl PartialEq for Identity {
    fn eq(&self, o: &Identity) -> (r: bool) {
        self.key == o.key
    }
}

impl vstd::std_specs::cmp::PartialEqSpecImpl for Identity {
    open spec fn obeys_eq_spec() -> bool {
        true
    }

    open spec fn eq_spec(&self, o: &Identity) -> bool {
        self@ == o@
    }
}

impl Eq for Identity {

}

} // verus!
