//! A scanner that finds what it was told to find, for tests.

use crate::port::views;
use crate::port::Port;
use crate::port::PortView;
use crate::scanner::Scanner;
use vstd::prelude::*;

verus! {

/// A scanner that finds the same ports at every scan.
pub struct FakeScanner {
    ports: Vec<Port>,
}

impl FakeScanner {
    /// The ports that every scan finds.
    pub closed spec fn ports(&self) -> Seq<PortView> {
        views(self.ports@)
    }

    /// A scanner that finds `ports`.
    pub fn new(ports: Vec<Port>) -> (scanner: FakeScanner)
        ensures
            scanner.ports() == views(ports@),
    {
        FakeScanner { ports }
    }

    /// A scanner that finds nothing.
    pub fn new_empty() -> (scanner: FakeScanner)
        ensures
            scanner.ports() == Seq::<PortView>::empty(),
    {
        let scanner = FakeScanner { ports: Vec::new() };
        assert(scanner.ports() =~= Seq::<PortView>::empty());
        scanner
    }
}

impl Scanner for FakeScanner {
    fn scan(&self) -> (found: Vec<Port>)
        ensures
            views(found@) == self.ports(),
    {
        let mut found: Vec<Port> = Vec::new();
        let mut i: usize = 0;
        while i < self.ports.len()
            invariant
                i <= self.ports@.len(),
                found@.len() == i,
                forall|k: int| 0 <= k < i ==> found@[k]@ == self.ports@[k]@,
            decreases self.ports@.len() - i,
        {
            found.push(self.ports[i].clone());
            i += 1;
        }
        assert(views(found@) =~= self.ports());
        found
    }
}

} // verus!
