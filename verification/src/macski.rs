//! Resource types found in the MacSki game files.

use vstd::prelude::*;
use crate::resfork::ResType;

verus! {

/// Color resources (`COLR`).
pub fn colr() -> (t: ResType)
    ensures
        t.0@ == seq![0x43u8, 0x4fu8, 0x4cu8, 0x52u8],
{
    let t = ResType([0x43u8, 0x4fu8, 0x4cu8, 0x52u8]);
    assert(t.0@ =~= seq![0x43u8, 0x4fu8, 0x4cu8, 0x52u8]);
    t
}

/// Hill and course terrain (`HILL`).
pub fn hill() -> (t: ResType)
    ensures
        t.0@ == seq![0x48u8, 0x49u8, 0x4cu8, 0x4cu8],
{
    let t = ResType([0x48u8, 0x49u8, 0x4cu8, 0x4cu8]);
    assert(t.0@ =~= seq![0x48u8, 0x49u8, 0x4cu8, 0x4cu8]);
    t
}

/// Obstacle and sprite graphics (`PICT`).
pub fn pict() -> (t: ResType)
    ensures
        t.0@ == seq![0x50u8, 0x49u8, 0x43u8, 0x54u8],
{
    let t = ResType([0x50u8, 0x49u8, 0x43u8, 0x54u8]);
    assert(t.0@ =~= seq![0x50u8, 0x49u8, 0x43u8, 0x54u8]);
    t
}

/// Sound resources (`snd `).
pub fn snd() -> (t: ResType)
    ensures
        t.0@ == seq![0x73u8, 0x6eu8, 0x64u8, 0x20u8],
{
    let t = ResType([0x73u8, 0x6eu8, 0x64u8, 0x20u8]);
    assert(t.0@ =~= seq![0x73u8, 0x6eu8, 0x64u8, 0x20u8]);
    t
}

/// String resources (`STR `).
pub fn str_list() -> (t: ResType)
    ensures
        t.0@ == seq![0x53u8, 0x54u8, 0x52u8, 0x20u8],
{
    let t = ResType([0x53u8, 0x54u8, 0x52u8, 0x20u8]);
    assert(t.0@ =~= seq![0x53u8, 0x54u8, 0x52u8, 0x20u8]);
    t
}

/// Version information (`vers`).
pub fn vers() -> (t: ResType)
    ensures
        t.0@ == seq![0x76u8, 0x65u8, 0x72u8, 0x73u8],
{
    let t = ResType([0x76u8, 0x65u8, 0x72u8, 0x73u8]);
    assert(t.0@ =~= seq![0x76u8, 0x65u8, 0x72u8, 0x73u8]);
    t
}

} // verus!
