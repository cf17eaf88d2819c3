//! Pre-resolved resources for a pass.
//!
//! Loading and decoding referenced content is I/O and belongs to an
//! outside collaborator.  A pass therefore receives every referenced
//! resource up front, as decoded pixel content or as the failure the
//! collaborator reported, keyed by the logical reference the nodes use.

use vstd::prelude::*;
use crate::context::LOGICAL_LIMIT;

verus! {

/// Decoded pixel content: row-major premultiplied RGBA bytes.
#[derive(Clone, PartialEq, Debug)]
pub struct ImageData {
    pub width: u32,
    pub height: u32,
    pub pixels: Vec<u8>,
}

impl ImageData {
    /// Positive bounded sides and exactly four bytes per pixel.
    pub open spec fn wf(self) -> bool {
        &&& 1 <= self.width <= LOGICAL_LIMIT
        &&& 1 <= self.height <= LOGICAL_LIMIT
        &&& self.pixels@.len() == 4 * self.width * self.height
    }

    /// Wraps decoded content; `None` when a side is zero or over the
    /// limit, or the byte count does not match the dimensions.
    pub fn new(width: u32, height: u32, pixels: Vec<u8>) -> (r: Option<ImageData>)
        ensures
            r is Some <==> (ImageData { width, height, pixels: pixels }).wf(),
            r is Some ==> r->0 == (ImageData { width, height, pixels: pixels }),
    {
        if 1 <= width && width <= LOGICAL_LIMIT && 1 <= height && height <= LOGICAL_LIMIT {
            proof {
                assert(4 * (width as int) * (height as int) <= 4 * 65536 * 65536)
                    by (nonlinear_arith)
                    requires
                        1 <= width <= 65536,
                        1 <= height <= 65536,
                ;
            }
            if pixels.len() as u64 == 4 * (width as u64) * (height as u64) {
                Some(ImageData { width, height, pixels })
            } else {
                None
            }
        } else {
            None
        }
    }
}

/// What the resource-loading collaborator reported for one reference.
#[derive(Clone, PartialEq, Debug)]
pub enum LoadOutcome {
    /// The reference resolved to decoded pixel content.
    Decoded(ImageData),
    /// The referenced content could not be obtained.
    AcquireFailed,
    /// The obtained content was malformed.
    DecodeFailed,
}

impl LoadOutcome {
    pub open spec fn wf(self) -> bool {
        match self {
            LoadOutcome::Decoded(img) => img.wf(),
            LoadOutcome::AcquireFailed => true,
            LoadOutcome::DecodeFailed => true,
        }
    }
}

/// What a table holds for a reference: the first entry with that key, or
/// an acquisition failure when no entry names it.
pub open spec fn spec_lookup(entries: Seq<(String, LoadOutcome)>, path: Seq<char>) -> LoadOutcome
    decreases entries,
{
    if entries.len() == 0 {
        LoadOutcome::AcquireFailed
    } else if entries[0].0@ == path {
        entries[0].1
    } else {
        spec_lookup(entries.drop_first(), path)
    }
}

/// The pre-resolved resources of one pass, keyed by logical reference.
pub struct ResourceTable {
    pub entries: Vec<(String, LoadOutcome)>,
}

impl ResourceTable {
    pub open spec fn wf(self) -> bool {
        forall|i: int| 0 <= i < self.entries@.len() ==> (#[trigger] self.entries@[i]).1.wf()
    }

    pub fn new() -> (t: ResourceTable)
        ensures
            t.entries@ == Seq::<(String, LoadOutcome)>::empty(),
            t.wf(),
    {
        ResourceTable { entries: Vec::new() }
    }

    /// Records what the collaborator reported for one reference.
    pub fn insert(&mut self, path: String, outcome: LoadOutcome)
        requires
            outcome.wf(),
        ensures
            final(self).entries@ == old(self).entries@.push((path, outcome)),
            old(self).wf() ==> final(self).wf(),
    {
        self.entries.push((path, outcome));
    }

    /// The outcome recorded for `path`: the first entry with that key, or
    /// `None` when the table holds no entry for it.
    pub fn lookup<'a>(&'a self, path: &String) -> (r: Option<&'a LoadOutcome>)
        ensures
            match r {
                Some(o) => *o == spec_lookup(self.entries@, path@),
                None => spec_lookup(self.entries@, path@) == LoadOutcome::AcquireFailed,
            },
    {
        let n = self.entries.len();
        let mut i: usize = 0;
        proof {
            assert(self.entries@.skip(0) =~= self.entries@);
        }
        while i < n
            invariant
                0 <= i <= n,
                n == self.entries@.len(),
                spec_lookup(self.entries@.skip(i as int), path@) == spec_lookup(
                    self.entries@,
                    path@,
                ),
            decreases n - i,
        {
            if self.entries[i].0 == *path {
                proof {
                    assert(self.entries@.skip(i as int)[0] == self.entries@[i as int]);
                }
                return Some(&self.entries[i].1);
            }
            proof {
                assert(self.entries@.skip(i as int).drop_first() =~= self.entries@.skip(
                    i as int + 1,
                ));
                assert(self.entries@.skip(i as int)[0] == self.entries@[i as int]);
            }
            i = i + 1;
        }
        proof {
            assert(self.entries@.skip(i as int) =~= Seq::<(String, LoadOutcome)>::empty());
        }
        None
    }
}

} // verus!
