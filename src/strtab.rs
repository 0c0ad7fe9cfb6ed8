//! String tables: delimiter-separated records over a byte slice.
use vstd::prelude::*;
use vstd::slice::slice_subrange;

verus! {

/// Index of the first `delim` at or after `start` in `data`, or the length
/// of `data` when there is none.
pub open spec fn record_end(data: Seq<u8>, delim: u8, start: int) -> int
    decreases data.len() - start,
{
    if start >= data.len() {
        data.len() as int
    } else if data[start] == delim {
        start
    } else {
        record_end(data, delim, start + 1)
    }
}

/// Where the record with ordinal `n` starts, if `data` has that many
/// records. The records are the pieces between delimiters: an empty table
/// holds one empty record, and a trailing delimiter ends with an empty one.
pub open spec fn record_start(data: Seq<u8>, delim: u8, n: nat) -> Option<int>
    decreases n,
{
    if n == 0 {
        Some(0)
    } else {
        match record_start(data, delim, (n - 1) as nat) {
            Some(s) => {
                let e = record_end(data, delim, s);
                if e < data.len() {
                    Some(e + 1)
                } else {
                    None
                }
            },
            None => None,
        }
    }
}

proof fn lemma_record_end_bounds(data: Seq<u8>, delim: u8, start: int)
    requires
        0 <= start <= data.len(),
    ensures
        start <= record_end(data, delim, start) <= data.len(),
        record_end(data, delim, start) < data.len() ==> data[record_end(data, delim, start)]
            == delim,
    decreases data.len() - start,
{
    if start < data.len() && data[start] != delim {
        lemma_record_end_bounds(data, delim, start + 1);
    }
}

/// A string table: `data` split at each `delim` byte.
pub struct Strtab<'a> {
    delim: u8,
    data: &'a [u8],
}

impl<'a> Strtab<'a> {
    /// The conventional delimiter, the NUL byte.
    pub const DEFAULT_DELIM: u8 = 0;

    pub closed spec fn spec_delim(&self) -> u8 {
        self.delim
    }

    pub closed spec fn spec_data(&self) -> Seq<u8> {
        self.data@
    }

    pub fn new(delim: u8, data: &'a [u8]) -> (r: Self)
        ensures
            r.spec_delim() == delim,
            r.spec_data() == data@,
    {
        Strtab { data, delim }
    }

    /// Index of the first delimiter at or after `start`, or the length.
    fn find_end(&self, start: usize) -> (r: usize)
        requires
            start <= self.data@.len(),
        ensures
            r == record_end(self.data@, self.delim, start as int),
            start <= r <= self.data@.len(),
    {
        let len = self.data.len();
        let mut i = start;
        proof {
            lemma_record_end_bounds(self.data@, self.delim, start as int);
        }
        while i < len && self.data[i] != self.delim
            invariant
                len == self.data@.len(),
                start <= i <= len,
                record_end(self.data@, self.delim, start as int) == record_end(
                    self.data@,
                    self.delim,
                    i as int,
                ),
            decreases len - i,
        {
            i += 1;
        }
        i
    }

    /// The record with ordinal `index`, if the table has that many.
    pub fn get_bytes(&self, index: usize) -> (r: Option<&'a [u8]>)
        ensures
            match record_start(self.spec_data(), self.spec_delim(), index as nat) {
                Some(s) => r matches Some(b) && b@ == self.spec_data().subrange(
                    s,
                    record_end(self.spec_data(), self.spec_delim(), s),
                ),
                None => r is None,
            },
    {
        let len = self.data.len();
        let mut start: usize = 0;
        let mut k: usize = 0;
        while k < index
            invariant
                len == self.data@.len(),
                k <= index,
                start <= len,
                record_start(self.data@, self.delim, k as nat) == Some(start as int),
            decreases index - k,
        {
            let e = self.find_end(start);
            if e == len {
                proof {
                    let ghost n = (k + 1) as nat;
                    assert(record_start(self.data@, self.delim, n) is None);
                    lemma_none_stays(self.data@, self.delim, n, index as nat);
                }
                return None;
            }
            start = e + 1;
            k += 1;
        }
        let e = self.find_end(start);
        Some(slice_subrange(self.data, start, e))
    }

    /// The record that starts at byte `offset`, if `offset` lies within the
    /// table (an offset equal to its length gives the empty record).
    pub fn get_bytes_off(&self, offset: usize) -> (r: Option<&'a [u8]>)
        ensures
            offset <= self.spec_data().len() ==> (r matches Some(b) && b@
                == self.spec_data().subrange(
                offset as int,
                record_end(self.spec_data(), self.spec_delim(), offset as int),
            )),
            offset > self.spec_data().len() ==> r is None,
    {
        if offset > self.data.len() {
            return None;
        }
        let e = self.find_end(offset);
        Some(slice_subrange(self.data, offset, e))
    }
}

proof fn lemma_none_stays(data: Seq<u8>, delim: u8, n: nat, m: nat)
    requires
        record_start(data, delim, n) is None,
        n <= m,
    ensures
        record_start(data, delim, m) is None,
    decreases m - n,
{
    if n < m {
        lemma_none_stays(data, delim, n, (m - 1) as nat);
    }
}

} // verus!
