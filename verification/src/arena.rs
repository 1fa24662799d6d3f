//! The buffer arena: a fixed pool of user-allocated memory regions,
//! registered with the device and addressed by slot index.

use vstd::prelude::*;

use crate::buffer::BufType;
use crate::error::StreamError;

verus! {

/// An ordered, fixed-length pool of frame buffers.
///
/// Each slot is a contiguous user-owned region sized to one frame (or one
/// plane).  The pool is sized once, when the device answers the
/// reserve-buffers request with the count it actually granted; count and
/// per-buffer length are immutable afterwards.
pub struct Arena {
    bufs: Vec<Vec<u8>>,
    buf_len: usize,
    buf_type: BufType,
}

impl View for Arena {
    type V = Seq<Seq<u8>>;

    closed spec fn view(&self) -> Seq<Seq<u8>> {
        self.bufs@.map_values(|b: Vec<u8>| b@)
    }
}

impl Arena {
    /// Per-buffer length, as reported by the format in force when the pool
    /// was allocated.
    pub closed spec fn buf_len_spec(self) -> usize {
        self.buf_len
    }

    /// Buffer type the pool was registered with.
    pub closed spec fn buf_type_spec(self) -> BufType {
        self.buf_type
    }

    /// Every slot holds exactly one buffer of the recorded length.
    pub open spec fn wf(self) -> bool {
        forall|i: int| 0 <= i < self@.len() ==> (#[trigger] self@[i]).len() == self.buf_len_spec()
    }

    /// An empty pool for the given buffer type; `allocate` sizes it.
    pub fn new(buf_type: BufType) -> (r: Arena)
        ensures
            r@.len() == 0,
            r.buf_type_spec() == buf_type,
            r.wf(),
    {
        Arena { bufs: Vec::new(), buf_len: 0, buf_type }
    }

    /// Sizes the pool after the device has answered the reserve-buffers
    /// request: `granted` is the count the device actually granted (it may
    /// clamp the requested count to hardware limits), `buf_len` the
    /// per-buffer length the format reports.  Allocates one zero-filled
    /// region per granted slot and returns the granted count; a grant of
    /// zero slots means the device refused the request.
    pub fn allocate(&mut self, granted: u32, buf_len: usize) -> (r: Result<u32, StreamError>)
        requires
            old(self)@.len() == 0,
        ensures
            granted == 0 ==> r == Err::<u32, StreamError>(StreamError::DeviceRejected)
                && *final(self) == *old(self),
            granted >= 1 ==> {
                &&& r == Ok::<u32, StreamError>(granted)
                &&& final(self)@.len() == granted
                &&& final(self).buf_len_spec() == buf_len
                &&& forall|i: int| 0 <= i < granted ==>
                        #[trigger] final(self)@[i] =~= Seq::new(buf_len as nat, |k: int| 0u8)
            },
            final(self).buf_type_spec() == old(self).buf_type_spec(),
            final(self).wf(),
    {
        if granted == 0 {
            return Err(StreamError::DeviceRejected);
        }
        self.buf_len = buf_len;
        let count: usize = granted as usize;
        let mut i: usize = 0;
        while i < count
            invariant
                i <= count,
                count == granted,
                self@.len() == i,
                self.buf_len_spec() == buf_len,
                self.buf_type_spec() == old(self).buf_type_spec(),
                forall|n: int| 0 <= n < i ==>
                    #[trigger] self@[n] =~= Seq::new(buf_len as nat, |k: int| 0u8),
            decreases count - i,
        {
            let mut region: Vec<u8> = Vec::new();
            let mut j: usize = 0;
            while j < buf_len
                invariant
                    j <= buf_len,
                    region@.len() == j,
                    forall|k: int| 0 <= k < j ==> region@[k] == 0u8,
                decreases buf_len - j,
            {
                region.push(0u8);
                j = j + 1;
            }
            assert(region@ =~= Seq::new(buf_len as nat, |k: int| 0u8));
            let ghost prev = self@;
            self.bufs.push(region);
            proof {
                assert(self@ =~= prev.push(Seq::new(buf_len as nat, |k: int| 0u8)));
            }
            i = i + 1;
        }
        Ok(granted)
    }

    /// Number of addressable slots.
    pub fn len(&self) -> (r: usize)
        ensures
            r == self@.len(),
    {
        self.bufs.len()
    }

    /// Per-buffer length recorded at allocation time.
    pub fn buffer_len(&self) -> (r: usize)
        ensures
            r == self.buf_len_spec(),
    {
        self.buf_len
    }

    /// Buffer type the pool was registered with.
    pub fn buf_type(&self) -> (r: BufType)
        ensures
            r == self.buf_type_spec(),
    {
        self.buf_type
    }

    /// Read access to the memory of the slot at `index`.
    pub fn buffer_at(&self, index: usize) -> (r: &Vec<u8>)
        requires
            index < self@.len(),
        ensures
            r@ == self@[index as int],
    {
        &self.bufs[index]
    }
}

} // verus!
