use vstd::prelude::*;

verus! {

/// The public base URL under which the application is reachable.
pub struct ApplicationBaseUrl(pub String);

/// The process-wide key of the redirect tags. It has no `Debug`, so that it
/// cannot reach a log by accident.
pub struct HmacSecret {
    key: Vec<u8>,
}

impl View for HmacSecret {
    type V = Seq<u8>;

    closed spec fn view(&self) -> Seq<u8> {
        self.key@
    }
}

impl HmacSecret {
    pub fn new(key: Vec<u8>) -> (r: HmacSecret)
        ensures
            r@ == key@,
    {
        HmacSecret { key }
    }

    pub fn expose_secret(&self) -> (r: &[u8])
        ensures
            r@ == self@,
    {
        self.key.as_slice()
    }
}

} // verus!
