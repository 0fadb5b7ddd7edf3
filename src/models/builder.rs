//! Window-size configuration for a new per-endpoint aggregator state.
use vstd::prelude::*;

verus! {

/// Default capacity of the short window.
pub const DEFAULT_SHORT_WINDOW: usize = 100;

/// Default capacity of the long window.
pub const DEFAULT_LONG_WINDOW: usize = 1000;

/// Builder for per-endpoint aggregator state with defaults.
#[derive(Debug)]
pub struct AggregatorStateBuilder {
    endpoint_id: String,
    w_short: usize,
    w_long: usize,
}

impl AggregatorStateBuilder {
    pub closed spec fn spec_endpoint_id(&self) -> Seq<char> {
        self.endpoint_id@
    }

    pub closed spec fn spec_short(&self) -> usize {
        self.w_short
    }

    pub closed spec fn spec_long(&self) -> usize {
        self.w_long
    }

    pub fn new(endpoint_id: String) -> (r: Self)
        ensures
            r.spec_endpoint_id() == endpoint_id@,
            r.spec_short() == DEFAULT_SHORT_WINDOW,
            r.spec_long() == DEFAULT_LONG_WINDOW,
    {
        AggregatorStateBuilder {
            endpoint_id,
            w_short: DEFAULT_SHORT_WINDOW,
            w_long: DEFAULT_LONG_WINDOW,
        }
    }

    /// Set the short window size.
    pub fn short_window(self, size: usize) -> (r: Self)
        ensures
            r.spec_endpoint_id() == self.spec_endpoint_id(),
            r.spec_short() == size,
            r.spec_long() == self.spec_long(),
    {
        AggregatorStateBuilder { w_short: size, ..self }
    }

    /// Set the long window size.
    pub fn long_window(self, size: usize) -> (r: Self)
        ensures
            r.spec_endpoint_id() == self.spec_endpoint_id(),
            r.spec_short() == self.spec_short(),
            r.spec_long() == size,
    {
        AggregatorStateBuilder { w_long: size, ..self }
    }

    /// The endpoint id and the short and long window sizes.
    pub fn into_parts(self) -> (r: (String, usize, usize))
        ensures
            r.0@ == self.spec_endpoint_id(),
            r.1 == self.spec_short(),
            r.2 == self.spec_long(),
    {
        (self.endpoint_id, self.w_short, self.w_long)
    }
}

} // verus!
