//! Entries yielded by the directory iterator.
//!
//! A [`DirEntry`] owns a copy of exactly one raw record, so it stays valid
//! after the iterator's buffer is refilled or dropped, together with the
//! cached length of its name and a shared, reference-counted copy of the
//! root path every entry was listed under. Its one operation, [`DirEntry::path`],
//! joins the root path with the entry's name; it performs no input or
//! output and cannot fail.

use std::sync::Arc;
use vstd::prelude::*;

use crate::record::HEADER_LEN;

verus! {

/// The byte used as the path separator.
pub const SEPARATOR: u8 = 47;

/// Mathematical model of a [`DirEntry`]: the raw record bytes, the name
/// bytes and the root path bytes.
pub ghost struct EntryModel {
    /// The copied record, header included.
    pub record: Seq<u8>,
    /// The entry's name: the record's name field up to its terminator.
    pub name: Seq<u8>,
    /// The root path the directory was listed under.
    pub root: Seq<u8>,
}

/// The root path joined with an entry name: the two concatenated with one
/// separator between them, the separator left out when the root is empty
/// or already ends with one.
pub open spec fn join_paths(root: Seq<u8>, name: Seq<u8>) -> Seq<u8> {
    if root.len() == 0 {
        name
    } else if root.last() == SEPARATOR {
        root + name
    } else {
        root + seq![SEPARATOR] + name
    }
}

/// One directory entry: an owned copy of one raw record, the cached byte
/// length of its name, and a shared reference to the root path.
pub struct DirEntry {
    record: Vec<u8>,
    name_len: usize,
    root: Arc<Vec<u8>>,
}

impl View for DirEntry {
    type V = EntryModel;

    closed spec fn view(&self) -> EntryModel {
        EntryModel {
            record: self.record@,
            name: self.record@.subrange(
                HEADER_LEN as int,
                HEADER_LEN as int + self.name_len as int,
            ),
            root: self.root@,
        }
    }
}

impl DirEntry {
    /// The cached name length stays inside the owned record bytes.
    pub closed spec fn wf(&self) -> bool {
        HEADER_LEN + self.name_len <= self.record@.len()
    }

    /// Wrap one copied record. The name must lie inside the record, right
    /// after the header.
    pub(crate) fn new(record: Vec<u8>, name_len: usize, root: Arc<Vec<u8>>) -> (r: DirEntry)
        requires
            HEADER_LEN + name_len <= record@.len(),
        ensures
            r.wf(),
            r@.record == record@,
            r@.name == record@.subrange(HEADER_LEN as int, HEADER_LEN as int + name_len as int),
            r@.root == root@,
    {
        DirEntry { record, name_len, root }
    }

    /// The entry's name, as owned bytes.
    pub fn name_bytes(&self) -> (r: Vec<u8>)
        requires
            self.wf(),
        ensures
            r@ == self@.name,
    {
        proof {
            assert(self.record.len() == self.record@.len());
        }
        let mut out: Vec<u8> = Vec::new();
        let mut i: usize = 0;
        while i < self.name_len
            invariant
                self.wf(),
                self.record@.len() <= usize::MAX,
                i <= self.name_len,
                out@ == self@.record.subrange(HEADER_LEN as int, HEADER_LEN as int + i as int),
            decreases self.name_len - i,
        {
            out.push(self.record[HEADER_LEN + i]);
            i = i + 1;
            proof {
                assert(out@ =~= self@.record.subrange(
                    HEADER_LEN as int,
                    HEADER_LEN as int + i as int,
                ));
            }
        }
        out
    }

    /// The full path of the entry: the root path joined with the entry's
    /// name, byte for byte.
    pub fn path(&self) -> (r: Vec<u8>)
        requires
            self.wf(),
        ensures
            r@ == join_paths(self@.root, self@.name),
    {
        let root: &Vec<u8> = &self.root;
        let mut out: Vec<u8> = Vec::new();
        let mut i: usize = 0;
        while i < root.len()
            invariant
                i <= root@.len(),
                out@ == root@.subrange(0, i as int),
            decreases root@.len() - i,
        {
            out.push(root[i]);
            i = i + 1;
            proof {
                assert(out@ =~= root@.subrange(0, i as int));
            }
        }
        proof {
            assert(out@ =~= root@);
        }
        if root.len() > 0 && root[root.len() - 1] != SEPARATOR {
            out.push(SEPARATOR);
        }
        proof {
            assert(self.record.len() == self.record@.len());
        }
        let mut j: usize = 0;
        let ghost base = out@;
        while j < self.name_len
            invariant
                self.wf(),
                self.record@.len() <= usize::MAX,
                j <= self.name_len,
                out@ == base + self@.record.subrange(
                    HEADER_LEN as int,
                    HEADER_LEN as int + j as int,
                ),
            decreases self.name_len - j,
        {
            out.push(self.record[HEADER_LEN + j]);
            j = j + 1;
            proof {
                assert(out@ =~= base + self@.record.subrange(
                    HEADER_LEN as int,
                    HEADER_LEN as int + j as int,
                ));
            }
        }
        proof {
            assert(out@ =~= join_paths(self@.root, self@.name));
        }
        out
    }
}

} // verus!
