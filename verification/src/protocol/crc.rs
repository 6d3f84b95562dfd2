//! CRC-32 (IEEE 802.3, reflected polynomial 0xEDB88320).
use vstd::prelude::*;

verus! {

/// One shift of the reflected CRC register.
pub open spec fn crc_shift(c: u32) -> u32 {
    if c & 1 != 0 {
        (c >> 1) ^ 0xEDB88320u32
    } else {
        c >> 1
    }
}

/// `n` shifts of the register.
pub open spec fn crc_shifts(c: u32, n: nat) -> u32
    decreases n,
{
    if n == 0 {
        c
    } else {
        crc_shifts(crc_shift(c), (n - 1) as nat)
    }
}

/// The register after absorbing one byte.
pub open spec fn crc_absorb(c: u32, b: u8) -> u32 {
    crc_shifts(c ^ (b as u32), 8)
}

/// The register after absorbing all of `data`, starting from `init`.
pub open spec fn crc_register(init: u32, data: Seq<u8>) -> u32
    decreases data.len(),
{
    if data.len() == 0 {
        init
    } else {
        crc_absorb(crc_register(init, data.drop_last()), data.last())
    }
}

/// CRC-32 of `data`: all-ones initial register, final complement.
pub open spec fn spec_crc32(data: Seq<u8>) -> u32 {
    crc_register(0xFFFF_FFFFu32, data) ^ 0xFFFF_FFFFu32
}

/// Compute the CRC-32 (IEEE 802.3) checksum of `data`.
pub fn crc32(data: &[u8]) -> (r: u32)
    ensures
        r == spec_crc32(data@),
{
    let mut crc: u32 = 0xFFFF_FFFF;
    let mut i: usize = 0;
    while i < data.len()
        invariant
            i <= data@.len(),
            crc == crc_register(0xFFFF_FFFFu32, data@.subrange(0, i as int)),
        decreases data@.len() - i,
    {
        let ghost before = crc;
        crc = crc ^ (data[i] as u32);
        let ghost start = crc;
        let mut k: u32 = 0;
        while k < 8
            invariant
                k <= 8,
                crc == crc_shifts(start, k as nat),
            decreases 8 - k,
        {
            proof {
                lemma_shifts_step(start, k as nat);
            }
            crc = if crc & 1 != 0 {
                (crc >> 1) ^ 0xEDB88320u32
            } else {
                crc >> 1
            };
            k = k + 1;
        }
        proof {
            let prefix = data@.subrange(0, i + 1);
            assert(prefix.drop_last() =~= data@.subrange(0, i as int));
            assert(prefix.last() == data@[i as int]);
        }
        i = i + 1;
    }
    proof {
        assert(data@.subrange(0, data@.len() as int) =~= data@);
    }
    crc ^ 0xFFFF_FFFFu32
}

/// Shifting `n + 1` times is shifting `n` times and then once more.
pub proof fn lemma_shifts_step(c: u32, n: nat)
    ensures
        crc_shifts(c, n + 1) == crc_shift(crc_shifts(c, n)),
    decreases n,
{
    reveal_with_fuel(crc_shifts, 2);
    if n > 0 {
        lemma_shifts_step(crc_shift(c), (n - 1) as nat);
    }
}

} // verus!
