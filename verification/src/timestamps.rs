use vstd::prelude::*;

verus! {

/// Number of 16-bit limbs of a timestamp.
pub const NUM_TIMESTAMP_DATA_LIMBS: usize = 3usize;

/// Timestamps of the machine, as a scalar.
pub type TimestampScalar = u64;

/// The first timestamp of an execution.
pub const INITIAL_TIMESTAMP: u64 = 4u64;

/// Low bits of a RAM timestamp left empty: a cycle makes up to four accesses.
pub const NUM_EMPTY_BITS_FOR_RAM_TIMESTAMP: u32 = 2u32;

/// The first timestamp of a chunk of execution.
pub const INITIAL_TIMESTAMP_AT_CHUNK_START: u64 = 4u64;

/// How far the timestamp moves on each cycle.
pub const TIMESTAMP_STEP: u64 = 4u64;

/// Number of columns a RAM timestamp takes.
pub const NUM_TIMESTAMP_COLUMNS_FOR_RAM: usize = 2usize;

/// Number of columns a RAM timestamp takes in the setup.
pub const NUM_TIMESTAMP_COLUMNS_FOR_RAM_IN_SETUP: usize = 2usize;

/// Bits held by each timestamp column.
pub const TIMESTAMP_COLUMNS_NUM_BITS: u32 = 19u32;

/// Bits of a whole timestamp.
pub const TOTAL_TIMESTAMP_BITS: u32 = 38u32;

/// The largest timestamp that a circuit may start with.
pub const MAX_INITIAL_TIMESTAMP: u64 = 0x3f_ffff_fff8u64;

/// A timestamp as three 16-bit limbs, least significant first.
#[derive(Clone, Copy, Debug, PartialEq, Eq, Hash)]
pub struct TimestampData(pub [u16; 3]);

/// The scalar that three limbs stand for.
pub open spec fn limbs_value(l: [u16; 3]) -> int {
    l[0] as int + l[1] as int * 0x1_0000 + l[2] as int * 0x1_0000_0000
}

impl TimestampData {
    /// The scalar this timestamp stands for.
    pub open spec fn value(self) -> int {
        limbs_value(self.0)
    }

    /// The timestamp zero.
    pub fn empty() -> (r: Self)
        ensures
            r.0@ == seq![0u16, 0u16, 0u16],
            r.value() == 0,
    {
        let r = TimestampData([0u16; 3]);
        assert(r.0@ =~= seq![0u16, 0u16, 0u16]);
        r
    }

    /// The low 48 bits of the scalar, as three limbs.
    pub fn from_scalar(ts: u64) -> (r: Self)
        ensures
            r.value() == ts as int % 0x1_0000_0000_0000,
            r.0[0] == ts as u16,
            r.0[1] == (ts >> 16u64) as u16,
            r.0[2] == (ts >> 32u64) as u16,
    {
        let l0 = ts as u16;
        let l1 = (ts >> 16) as u16;
        let l2 = (ts >> 32) as u16;
        assert(l0 as int + l1 as int * 0x1_0000 + l2 as int * 0x1_0000_0000 == ts as int
            % 0x1_0000_0000_0000) by (bit_vector)
            requires
                l0 == ts as u16,
                l1 == (ts >> 16u64) as u16,
                l2 == (ts >> 32u64) as u16,
        ;
        TimestampData([l0, l1, l2])
    }

    /// The scalar that the three limbs stand for.
    pub fn as_scalar(&self) -> (r: u64)
        ensures
            r as int == self.value(),
    {
        let l0 = self.0[0];
        let l1 = self.0[1];
        let l2 = self.0[2];
        let r = (l0 as u64) | ((l1 as u64) << 16) | ((l2 as u64) << 32);
        assert(r as int == l0 as int + l1 as int * 0x1_0000 + l2 as int * 0x1_0000_0000) by (bit_vector)
            requires
                r == (l0 as u64) | ((l1 as u64) << 16u64) | ((l2 as u64) << 32u64),
        ;
        r
    }
}

/// Reading back a timestamp made from a scalar gives the scalar, for every
/// scalar that fits in 48 bits: the value that `from_scalar` ensures is the
/// scalar itself.
pub proof fn lemma_timestamp_scalar_roundtrip(ts: u64, d: TimestampData)
    requires
        ts < 0x1_0000_0000_0000,
        d.value() == ts as int % 0x1_0000_0000_0000,
    ensures
        d.value() == ts,
{
}

/// Making a timestamp from the scalar of a timestamp gives back the same
/// limbs: the limbs that `from_scalar` ensures for `as_scalar`'s result are
/// the original limbs.
pub proof fn lemma_timestamp_limbs_roundtrip(d: TimestampData, s: u64)
    requires
        s as int == d.value(),
    ensures
        s as u16 == d.0[0],
        (s >> 16u64) as u16 == d.0[1],
        (s >> 32u64) as u16 == d.0[2],
{
    let l0 = d.0[0];
    let l1 = d.0[1];
    let l2 = d.0[2];
    assert(s as u16 == l0 && (s >> 16u64) as u16 == l1 && (s >> 32u64) as u16 == l2) by (bit_vector)
        requires
            s as int == l0 as int + l1 as int * 0x1_0000 + l2 as int * 0x1_0000_0000,
    ;
}

} // verus!
