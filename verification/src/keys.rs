use vstd::prelude::*;

verus! {

/// A 32-byte public key: the address form every account in the pool
/// controller is identified by.
pub struct Pubkey {
    pub bytes: Vec<u8>,
}

impl View for Pubkey {
    type V = Seq<u8>;

    open spec fn view(&self) -> Seq<u8> {
        self.bytes@
    }
}

impl Pubkey {
    /// A key is well formed when it holds exactly 32 bytes.
    pub open spec fn wf(&self) -> bool {
        self@.len() == 32
    }

    /// Builds a key from raw bytes; any length other than 32 is rejected.
    pub fn from_bytes(bytes: Vec<u8>) -> (r: Option<Pubkey>)
        ensures
            bytes@.len() == 32 ==> (r matches Some(p) && p@ == bytes@ && p.wf()),
            bytes@.len() != 32 ==> r is None,
    {
        if bytes.len() == 32 {
            Some(Pubkey { bytes })
        } else {
            None
        }
    }

    /// The raw bytes of the key.
    pub fn as_bytes(&self) -> (r: &Vec<u8>)
        ensures
            r@ == self@,
    {
        &self.bytes
    }

    /// Byte-for-byte equality of two keys.
    pub fn key_eq(&self, other: &Pubkey) -> (r: bool)
        ensures
            r == (self@ == other@),
    {
        if self.bytes.len() != other.bytes.len() {
            return false;
        }
        let n = self.bytes.len();
        let mut i: usize = 0;
        while i < n
            invariant
                i <= n,
                n == self@.len(),
                n == other@.len(),
                forall|j: int| 0 <= j < i ==> self@[j] == other@[j],
            decreases n - i,
        {
            if self.bytes[i] != other.bytes[i] {
                return false;
            }
            i = i + 1;
        }
        assert(self@ =~= other@);
        true
    }
}

/// Reads the 32 bytes at `offset` out of `data` as a public key: the whole
/// behaviour of deserializing a key from a byte slice.
pub fn read_pubkey(data: &Vec<u8>, offset: usize) -> (r: Pubkey)
    requires
        offset + 32 <= data@.len(),
    ensures
        r@ == data@.subrange(offset as int, offset + 32),
        r.wf(),
{
    let n = data.len();
    let mut bytes: Vec<u8> = Vec::new();
    let mut i: usize = 0;
    while i < 32
        invariant
            i <= 32,
            offset + 32 <= n,
            n == data@.len(),
            bytes@ == data@.subrange(offset as int, offset + i),
        decreases 32 - i,
    {
        bytes.push(data[offset + i]);
        assert(bytes@ =~= data@.subrange(offset as int, offset + i + 1));
        i = i + 1;
    }
    Pubkey { bytes }
}

} // verus!
