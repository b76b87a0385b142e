//! Metadata sinks: where a module sends the descriptive key/value
//! entries that name it and the component libraries it is built from.

use vstd::prelude::*;

verus! {

/// A sink for a module's descriptive (key, value) entries.
///
/// The host supplies the sink and owns whatever accumulates in it.
/// Keys need not be unique: duplicate declarations accumulate in
/// declaration order, a later entry never overwrites an earlier one.
pub trait MetaSink {
    /// The entries declared so far, in declaration order.
    spec fn entries(&self) -> Seq<(Seq<char>, Seq<char>)>;

    /// Record one (key, value) entry after everything declared so far.
    fn declare(&mut self, key: &str, value: &str)
        ensures
            final(self).entries() == old(self).entries().push((key@, value@)),
    ;
}

/// A sink that keeps every declared entry, in declaration order.
pub struct MetaRecorder {
    pub items: Vec<(String, String)>,
}

impl MetaRecorder {
    /// An empty recorder.
    pub fn new() -> (r: MetaRecorder)
        ensures
            r.entries() == Seq::<(Seq<char>, Seq<char>)>::empty(),
    {
        MetaRecorder { items: Vec::new() }
    }

    /// How many entries have been declared.
    pub fn len(&self) -> (r: usize)
        ensures
            r == self.entries().len(),
    {
        self.items.len()
    }
}

impl MetaSink for MetaRecorder {
    open spec fn entries(&self) -> Seq<(Seq<char>, Seq<char>)> {
        self.items@.map_values(|e: (String, String)| (e.0@, e.1@))
    }

    fn declare(&mut self, key: &str, value: &str) {
        self.items.push((key.to_owned(), value.to_owned()));
        proof {
            assert(self.entries() =~= old(self).entries().push((key@, value@)));
        }
    }
}

} // verus!
