//! Derivation of the T=1 CCID parameter block from a card's Answer-To-Reset.
use vstd::prelude::*;

verus! {

/// Offset of TD2 after TD1 whose high nibble is `y2`: one past TD1, plus one for
/// each of TA2, TB2 and TC2 that `y2` announces.
pub open spec fn td2_step(y2: u8) -> int {
    1 + (y2 % 2) + ((y2 / 2) % 2) + ((y2 / 4) % 2)
}

/// The seven-byte T=1 parameter block of an ATR, or `None` when the ATR does not
/// have the required shape:
/// TS is 0x3B (direct) or 0x3F (inverse); T0's high nibble Y1 is 0xD or 0xF (TA1,
/// TC1 and TD1 present); TD1 announces TD2; TD2 announces TA3 and TB3; and every
/// byte read lies inside the ATR.
pub open spec fn spec_atr_parameters(atr: Seq<u8>) -> Option<Seq<u8>> {
    if atr.len() < 2 || !(atr[0] == 0x3B || atr[0] == 0x3F) {
        None
    } else {
        let y1 = atr[1] / 16;
        if !(y1 == 0xD || y1 == 0xF) {
            None
        } else {
            let tc1_at: int = if y1 == 0xD { 3 } else { 4 };
            let td1_at = tc1_at + 1;
            if td1_at >= atr.len() {
                None
            } else {
                let y2 = atr[td1_at] / 16;
                if y2 < 8 {
                    None
                } else {
                    let td2_at = td1_at + td2_step(y2);
                    if td2_at + 2 >= atr.len() || atr[td2_at] / 16 % 4 != 3 {
                        None
                    } else {
                        let tc1 = atr[tc1_at];
                        let inverse: int = if atr[0] == 0x3F { 1 } else { 0 };
                        let tcckst1 = (0x10 + 2 * inverse + tc1 % 2) as u8;
                        Some(seq![atr[2], tcckst1, tc1, atr[td2_at + 2], 0x00, atr[td2_at + 1], 0x00])
                    }
                }
            }
        }
    }
}

/// Derives the CCID parameter block for T=1 from `atr`:
/// `[TA1, TCCKST1, extra guard time (TC1), TB3, 0x00, TA3, 0x00]`, where TCCKST1
/// holds the CRC bit of TC1 in bit 0, the inverse convention in bit 1, and 0x10.
pub fn atr_parameters(atr: &[u8]) -> (r: Option<[u8; 7]>)
    ensures
        match r {
            Some(p) => spec_atr_parameters(atr@) == Some(p@),
            None => spec_atr_parameters(atr@) is None,
        },
{
    let n = atr.len();
    if n < 2 {
        return None;
    }
    let inverse: u8 = if atr[0] == 0x3B {
        0
    } else if atr[0] == 0x3F {
        1
    } else {
        return None;
    };
    let y1 = atr[1] / 16;
    let tc1_at: usize = if y1 == 0xD {
        3
    } else if y1 == 0xF {
        4
    } else {
        return None;
    };
    let td1_at = tc1_at + 1;
    if td1_at >= n {
        return None;
    }
    let ta1 = atr[2];
    let tc1 = atr[tc1_at];
    let y2 = atr[td1_at] / 16;
    if y2 < 8 {
        return None;
    }
    let step = 1 + (y2 % 2) as usize + ((y2 / 2) % 2) as usize + ((y2 / 4) % 2) as usize;
    let td2_at = td1_at + step;
    if td2_at + 2 >= n {
        return None;
    }
    if atr[td2_at] / 16 % 4 != 3 {
        return None;
    }
    let ta3 = atr[td2_at + 1];
    let tb3 = atr[td2_at + 2];
    let tcckst1: u8 = 0x10 + 2 * inverse + tc1 % 2;
    let p: [u8; 7] = [ta1, tcckst1, tc1, tb3, 0x00, ta3, 0x00];
    assert(p@ =~= spec_atr_parameters(atr@)->0);
    Some(p)
}

/// A parameter block exists only for an ATR that meets every requirement of
/// `spec_atr_parameters`, and its TCCKST1 byte has bit 4 set, the CRC bit of TC1 in
/// bit 0 and the inverse convention (TS = 0x3F) in bit 1.
pub proof fn lemma_atr_parameters_shape(atr: Seq<u8>)
    requires
        spec_atr_parameters(atr) is Some,
    ensures
        atr.len() >= 7,
        atr[0] == 0x3B || atr[0] == 0x3F,
        atr[1] & 0x10 == 0x10,
        atr[1] >> 4 == 0xD || atr[1] >> 4 == 0xF,
        ({
            let p = spec_atr_parameters(atr)->0;
            let tc1 = if atr[1] >> 4 == 0xD { atr[3] } else { atr[4] };
            let td1 = if atr[1] >> 4 == 0xD { atr[4] } else { atr[5] };
            &&& p.len() == 7
            &&& td1 >> 4 >= 8
            &&& p[0] == atr[2]
            &&& p[2] == tc1
            &&& p[1] & 0x10 == 0x10
            &&& p[1] & 0x01 == tc1 & 0x01
            &&& (p[1] >> 1) & 0x01 == (if atr[0] == 0x3F { 1u8 } else { 0u8 })
            &&& p[1] & 0xEC == 0
        }),
{
    let t0 = atr[1];
    assert(t0 >> 4 == t0 / 16) by (bit_vector);
    assert(t0 / 16 == 0xD || t0 / 16 == 0xF ==> t0 & 0x10 == 0x10) by (bit_vector);
    let y1 = t0 / 16;
    let td1 = if y1 == 0xD { atr[4] } else { atr[5] };
    assert(td1 >> 4 == td1 / 16) by (bit_vector);
    let tc1 = if y1 == 0xD { atr[3] } else { atr[4] };
    let b = spec_atr_parameters(atr)->0[1];
    assert(b == (0x10 + 2 * (if atr[0] == 0x3F { 1int } else { 0int }) + tc1 % 2) as u8);
    if atr[0] == 0x3F {
        assert(b == 0x12 + tc1 % 2 ==> b & 0x10 == 0x10 && b & 0x01 == tc1 & 0x01 && (b >> 1)
            & 0x01 == 1 && b & 0xEC == 0) by (bit_vector);
    } else {
        assert(b == 0x10 + tc1 % 2 ==> b & 0x10 == 0x10 && b & 0x01 == tc1 & 0x01 && (b >> 1)
            & 0x01 == 0 && b & 0xEC == 0) by (bit_vector);
    }
}

} // verus!
