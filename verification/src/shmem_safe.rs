//! Types that are safe to be transmitted between processes.

use vstd::prelude::*;

verus! {

/// Marker trait for types that are safe to be transmitted between processes.
pub trait ShmemSafe {}

impl ShmemSafe for u8 {}

impl ShmemSafe for u16 {}

impl ShmemSafe for u32 {}

impl ShmemSafe for u64 {}

impl ShmemSafe for u128 {}

impl ShmemSafe for usize {}

impl ShmemSafe for i8 {}

impl ShmemSafe for i16 {}

impl ShmemSafe for i32 {}

impl ShmemSafe for i64 {}

impl ShmemSafe for i128 {}

impl ShmemSafe for isize {}

impl ShmemSafe for char {}

impl<T: ShmemSafe, const N: usize> ShmemSafe for [T; N] {}

impl<T1: ShmemSafe, T2: ShmemSafe> ShmemSafe for (T1, T2) {}

impl<T1: ShmemSafe, T2: ShmemSafe, T3: ShmemSafe> ShmemSafe for (T1, T2, T3) {}

impl<T1: ShmemSafe, T2: ShmemSafe, T3: ShmemSafe, T4: ShmemSafe> ShmemSafe for (T1, T2, T3, T4) {}

impl<T1: ShmemSafe, T2: ShmemSafe, T3: ShmemSafe, T4: ShmemSafe, T5: ShmemSafe> ShmemSafe for (T1, T2, T3, T4, T5) {}

impl<T1: ShmemSafe, T2: ShmemSafe, T3: ShmemSafe, T4: ShmemSafe, T5: ShmemSafe, T6: ShmemSafe> ShmemSafe for (T1, T2, T3, T4, T5, T6) {}

impl<T1: ShmemSafe, T2: ShmemSafe, T3: ShmemSafe, T4: ShmemSafe, T5: ShmemSafe, T6: ShmemSafe, T7: ShmemSafe> ShmemSafe for (T1, T2, T3, T4, T5, T6, T7) {}

impl<T1: ShmemSafe, T2: ShmemSafe, T3: ShmemSafe, T4: ShmemSafe, T5: ShmemSafe, T6: ShmemSafe, T7: ShmemSafe, T8: ShmemSafe> ShmemSafe for (T1, T2, T3, T4, T5, T6, T7, T8) {}

impl<T1: ShmemSafe, T2: ShmemSafe, T3: ShmemSafe, T4: ShmemSafe, T5: ShmemSafe, T6: ShmemSafe, T7: ShmemSafe, T8: ShmemSafe, T9: ShmemSafe> ShmemSafe for (T1, T2, T3, T4, T5, T6, T7, T8, T9) {}

impl<T1: ShmemSafe, T2: ShmemSafe, T3: ShmemSafe, T4: ShmemSafe, T5: ShmemSafe, T6: ShmemSafe, T7: ShmemSafe, T8: ShmemSafe, T9: ShmemSafe, T10: ShmemSafe> ShmemSafe for (T1, T2, T3, T4, T5, T6, T7, T8, T9, T10) {}

impl<T1: ShmemSafe, T2: ShmemSafe, T3: ShmemSafe, T4: ShmemSafe, T5: ShmemSafe, T6: ShmemSafe, T7: ShmemSafe, T8: ShmemSafe, T9: ShmemSafe, T10: ShmemSafe, T11: ShmemSafe> ShmemSafe for (T1, T2, T3, T4, T5, T6, T7, T8, T9, T10, T11) {}

impl<T1: ShmemSafe, T2: ShmemSafe, T3: ShmemSafe, T4: ShmemSafe, T5: ShmemSafe, T6: ShmemSafe, T7: ShmemSafe, T8: ShmemSafe, T9: ShmemSafe, T10: ShmemSafe, T11: ShmemSafe, T12: ShmemSafe> ShmemSafe for (T1, T2, T3, T4, T5, T6, T7, T8, T9, T10, T11, T12) {}

impl<T1: ShmemSafe, T2: ShmemSafe, T3: ShmemSafe, T4: ShmemSafe, T5: ShmemSafe, T6: ShmemSafe, T7: ShmemSafe, T8: ShmemSafe, T9: ShmemSafe, T10: ShmemSafe, T11: ShmemSafe, T12: ShmemSafe, T13: ShmemSafe> ShmemSafe for (T1, T2, T3, T4, T5, T6, T7, T8, T9, T10, T11, T12, T13) {}

impl<T1: ShmemSafe, T2: ShmemSafe, T3: ShmemSafe, T4: ShmemSafe, T5: ShmemSafe, T6: ShmemSafe, T7: ShmemSafe, T8: ShmemSafe, T9: ShmemSafe, T10: ShmemSafe, T11: ShmemSafe, T12: ShmemSafe, T13: ShmemSafe, T14: ShmemSafe> ShmemSafe for (T1, T2, T3, T4, T5, T6, T7, T8, T9, T10, T11, T12, T13, T14) {}

impl<T1: ShmemSafe, T2: ShmemSafe, T3: ShmemSafe, T4: ShmemSafe, T5: ShmemSafe, T6: ShmemSafe, T7: ShmemSafe, T8: ShmemSafe, T9: ShmemSafe, T10: ShmemSafe, T11: ShmemSafe, T12: ShmemSafe, T13: ShmemSafe, T14: ShmemSafe, T15: ShmemSafe> ShmemSafe for (T1, T2, T3, T4, T5, T6, T7, T8, T9, T10, T11, T12, T13, T14, T15) {}

impl<T1: ShmemSafe, T2: ShmemSafe, T3: ShmemSafe, T4: ShmemSafe, T5: ShmemSafe, T6: ShmemSafe, T7: ShmemSafe, T8: ShmemSafe, T9: ShmemSafe, T10: ShmemSafe, T11: ShmemSafe, T12: ShmemSafe, T13: ShmemSafe, T14: ShmemSafe, T15: ShmemSafe, T16: ShmemSafe> ShmemSafe for (T1, T2, T3, T4, T5, T6, T7, T8, T9, T10, T11, T12, T13, T14, T15, T16) {}

impl<T1: ShmemSafe, T2: ShmemSafe, T3: ShmemSafe, T4: ShmemSafe, T5: ShmemSafe, T6: ShmemSafe, T7: ShmemSafe, T8: ShmemSafe, T9: ShmemSafe, T10: ShmemSafe, T11: ShmemSafe, T12: ShmemSafe, T13: ShmemSafe, T14: ShmemSafe, T15: ShmemSafe, T16: ShmemSafe, T17: ShmemSafe> ShmemSafe for (T1, T2, T3, T4, T5, T6, T7, T8, T9, T10, T11, T12, T13, T14, T15, T16, T17) {}

impl<T1: ShmemSafe, T2: ShmemSafe, T3: ShmemSafe, T4: ShmemSafe, T5: ShmemSafe, T6: ShmemSafe, T7: ShmemSafe, T8: ShmemSafe, T9: ShmemSafe, T10: ShmemSafe, T11: ShmemSafe, T12: ShmemSafe, T13: ShmemSafe, T14: ShmemSafe, T15: ShmemSafe, T16: ShmemSafe, T17: ShmemSafe, T18: ShmemSafe> ShmemSafe for (T1, T2, T3, T4, T5, T6, T7, T8, T9, T10, T11, T12, T13, T14, T15, T16, T17, T18) {}

impl<T1: ShmemSafe, T2: ShmemSafe, T3: ShmemSafe, T4: ShmemSafe, T5: ShmemSafe, T6: ShmemSafe, T7: ShmemSafe, T8: ShmemSafe, T9: ShmemSafe, T10: ShmemSafe, T11: ShmemSafe, T12: ShmemSafe, T13: ShmemSafe, T14: ShmemSafe, T15: ShmemSafe, T16: ShmemSafe, T17: ShmemSafe, T18: ShmemSafe, T19: ShmemSafe> ShmemSafe for (T1, T2, T3, T4, T5, T6, T7, T8, T9, T10, T11, T12, T13, T14, T15, T16, T17, T18, T19) {}

impl<T1: ShmemSafe, T2: ShmemSafe, T3: ShmemSafe, T4: ShmemSafe, T5: ShmemSafe, T6: ShmemSafe, T7: ShmemSafe, T8: ShmemSafe, T9: ShmemSafe, T10: ShmemSafe, T11: ShmemSafe, T12: ShmemSafe, T13: ShmemSafe, T14: ShmemSafe, T15: ShmemSafe, T16: ShmemSafe, T17: ShmemSafe, T18: ShmemSafe, T19: ShmemSafe, T20: ShmemSafe> ShmemSafe for (T1, T2, T3, T4, T5, T6, T7, T8, T9, T10, T11, T12, T13, T14, T15, T16, T17, T18, T19, T20) {}

impl<T1: ShmemSafe, T2: ShmemSafe, T3: ShmemSafe, T4: ShmemSafe, T5: ShmemSafe, T6: ShmemSafe, T7: ShmemSafe, T8: ShmemSafe, T9: ShmemSafe, T10: ShmemSafe, T11: ShmemSafe, T12: ShmemSafe, T13: ShmemSafe, T14: ShmemSafe, T15: ShmemSafe, T16: ShmemSafe, T17: ShmemSafe, T18: ShmemSafe, T19: ShmemSafe, T20: ShmemSafe, T21: ShmemSafe> ShmemSafe for (T1, T2, T3, T4, T5, T6, T7, T8, T9, T10, T11, T12, T13, T14, T15, T16, T17, T18, T19, T20, T21) {}

impl<T1: ShmemSafe, T2: ShmemSafe, T3: ShmemSafe, T4: ShmemSafe, T5: ShmemSafe, T6: ShmemSafe, T7: ShmemSafe, T8: ShmemSafe, T9: ShmemSafe, T10: ShmemSafe, T11: ShmemSafe, T12: ShmemSafe, T13: ShmemSafe, T14: ShmemSafe, T15: ShmemSafe, T16: ShmemSafe, T17: ShmemSafe, T18: ShmemSafe, T19: ShmemSafe, T20: ShmemSafe, T21: ShmemSafe, T22: ShmemSafe> ShmemSafe for (T1, T2, T3, T4, T5, T6, T7, T8, T9, T10, T11, T12, T13, T14, T15, T16, T17, T18, T19, T20, T21, T22) {}

impl<T1: ShmemSafe, T2: ShmemSafe, T3: ShmemSafe, T4: ShmemSafe, T5: ShmemSafe, T6: ShmemSafe, T7: ShmemSafe, T8: ShmemSafe, T9: ShmemSafe, T10: ShmemSafe, T11: ShmemSafe, T12: ShmemSafe, T13: ShmemSafe, T14: ShmemSafe, T15: ShmemSafe, T16: ShmemSafe, T17: ShmemSafe, T18: ShmemSafe, T19: ShmemSafe, T20: ShmemSafe, T21: ShmemSafe, T22: ShmemSafe, T23: ShmemSafe> ShmemSafe for (T1, T2, T3, T4, T5, T6, T7, T8, T9, T10, T11, T12, T13, T14, T15, T16, T17, T18, T19, T20, T21, T22, T23) {}

impl<T1: ShmemSafe, T2: ShmemSafe, T3: ShmemSafe, T4: ShmemSafe, T5: ShmemSafe, T6: ShmemSafe, T7: ShmemSafe, T8: ShmemSafe, T9: ShmemSafe, T10: ShmemSafe, T11: ShmemSafe, T12: ShmemSafe, T13: ShmemSafe, T14: ShmemSafe, T15: ShmemSafe, T16: ShmemSafe, T17: ShmemSafe, T18: ShmemSafe, T19: ShmemSafe, T20: ShmemSafe, T21: ShmemSafe, T22: ShmemSafe, T23: ShmemSafe, T24: ShmemSafe> ShmemSafe for (T1, T2, T3, T4, T5, T6, T7, T8, T9, T10, T11, T12, T13, T14, T15, T16, T17, T18, T19, T20, T21, T22, T23, T24) {}

impl<T1: ShmemSafe, T2: ShmemSafe, T3: ShmemSafe, T4: ShmemSafe, T5: ShmemSafe, T6: ShmemSafe, T7: ShmemSafe, T8: ShmemSafe, T9: ShmemSafe, T10: ShmemSafe, T11: ShmemSafe, T12: ShmemSafe, T13: ShmemSafe, T14: ShmemSafe, T15: ShmemSafe, T16: ShmemSafe, T17: ShmemSafe, T18: ShmemSafe, T19: ShmemSafe, T20: ShmemSafe, T21: ShmemSafe, T22: ShmemSafe, T23: ShmemSafe, T24: ShmemSafe, T25: ShmemSafe> ShmemSafe for (T1, T2, T3, T4, T5, T6, T7, T8, T9, T10, T11, T12, T13, T14, T15, T16, T17, T18, T19, T20, T21, T22, T23, T24, T25) {}

impl<T1: ShmemSafe, T2: ShmemSafe, T3: ShmemSafe, T4: ShmemSafe, T5: ShmemSafe, T6: ShmemSafe, T7: ShmemSafe, T8: ShmemSafe, T9: ShmemSafe, T10: ShmemSafe, T11: ShmemSafe, T12: ShmemSafe, T13: ShmemSafe, T14: ShmemSafe, T15: ShmemSafe, T16: ShmemSafe, T17: ShmemSafe, T18: ShmemSafe, T19: ShmemSafe, T20: ShmemSafe, T21: ShmemSafe, T22: ShmemSafe, T23: ShmemSafe, T24: ShmemSafe, T25: ShmemSafe, T26: ShmemSafe> ShmemSafe for (T1, T2, T3, T4, T5, T6, T7, T8, T9, T10, T11, T12, T13, T14, T15, T16, T17, T18, T19, T20, T21, T22, T23, T24, T25, T26) {}

impl<T1: ShmemSafe, T2: ShmemSafe, T3: ShmemSafe, T4: ShmemSafe, T5: ShmemSafe, T6: ShmemSafe, T7: ShmemSafe, T8: ShmemSafe, T9: ShmemSafe, T10: ShmemSafe, T11: ShmemSafe, T12: ShmemSafe, T13: ShmemSafe, T14: ShmemSafe, T15: ShmemSafe, T16: ShmemSafe, T17: ShmemSafe, T18: ShmemSafe, T19: ShmemSafe, T20: ShmemSafe, T21: ShmemSafe, T22: ShmemSafe, T23: ShmemSafe, T24: ShmemSafe, T25: ShmemSafe, T26: ShmemSafe, T27: ShmemSafe> ShmemSafe for (T1, T2, T3, T4, T5, T6, T7, T8, T9, T10, T11, T12, T13, T14, T15, T16, T17, T18, T19, T20, T21, T22, T23, T24, T25, T26, T27) {}

impl<T1: ShmemSafe, T2: ShmemSafe, T3: ShmemSafe, T4: ShmemSafe, T5: ShmemSafe, T6: ShmemSafe, T7: ShmemSafe, T8: ShmemSafe, T9: ShmemSafe, T10: ShmemSafe, T11: ShmemSafe, T12: ShmemSafe, T13: ShmemSafe, T14: ShmemSafe, T15: ShmemSafe, T16: ShmemSafe, T17: ShmemSafe, T18: ShmemSafe, T19: ShmemSafe, T20: ShmemSafe, T21: ShmemSafe, T22: ShmemSafe, T23: ShmemSafe, T24: ShmemSafe, T25: ShmemSafe, T26: ShmemSafe, T27: ShmemSafe, T28: ShmemSafe> ShmemSafe for (T1, T2, T3, T4, T5, T6, T7, T8, T9, T10, T11, T12, T13, T14, T15, T16, T17, T18, T19, T20, T21, T22, T23, T24, T25, T26, T27, T28) {}

impl<T1: ShmemSafe, T2: ShmemSafe, T3: ShmemSafe, T4: ShmemSafe, T5: ShmemSafe, T6: ShmemSafe, T7: ShmemSafe, T8: ShmemSafe, T9: ShmemSafe, T10: ShmemSafe, T11: ShmemSafe, T12: ShmemSafe, T13: ShmemSafe, T14: ShmemSafe, T15: ShmemSafe, T16: ShmemSafe, T17: ShmemSafe, T18: ShmemSafe, T19: ShmemSafe, T20: ShmemSafe, T21: ShmemSafe, T22: ShmemSafe, T23: ShmemSafe, T24: ShmemSafe, T25: ShmemSafe, T26: ShmemSafe, T27: ShmemSafe, T28: ShmemSafe, T29: ShmemSafe> ShmemSafe for (T1, T2, T3, T4, T5, T6, T7, T8, T9, T10, T11, T12, T13, T14, T15, T16, T17, T18, T19, T20, T21, T22, T23, T24, T25, T26, T27, T28, T29) {}

impl<T1: ShmemSafe, T2: ShmemSafe, T3: ShmemSafe, T4: ShmemSafe, T5: ShmemSafe, T6: ShmemSafe, T7: ShmemSafe, T8: ShmemSafe, T9: ShmemSafe, T10: ShmemSafe, T11: ShmemSafe, T12: ShmemSafe, T13: ShmemSafe, T14: ShmemSafe, T15: ShmemSafe, T16: ShmemSafe, T17: ShmemSafe, T18: ShmemSafe, T19: ShmemSafe, T20: ShmemSafe, T21: ShmemSafe, T22: ShmemSafe, T23: ShmemSafe, T24: ShmemSafe, T25: ShmemSafe, T26: ShmemSafe, T27: ShmemSafe, T28: ShmemSafe, T29: ShmemSafe, T30: ShmemSafe> ShmemSafe for (T1, T2, T3, T4, T5, T6, T7, T8, T9, T10, T11, T12, T13, T14, T15, T16, T17, T18, T19, T20, T21, T22, T23, T24, T25, T26, T27, T28, T29, T30) {}

impl<T1: ShmemSafe, T2: ShmemSafe, T3: ShmemSafe, T4: ShmemSafe, T5: ShmemSafe, T6: ShmemSafe, T7: ShmemSafe, T8: ShmemSafe, T9: ShmemSafe, T10: ShmemSafe, T11: ShmemSafe, T12: ShmemSafe, T13: ShmemSafe, T14: ShmemSafe, T15: ShmemSafe, T16: ShmemSafe, T17: ShmemSafe, T18: ShmemSafe, T19: ShmemSafe, T20: ShmemSafe, T21: ShmemSafe, T22: ShmemSafe, T23: ShmemSafe, T24: ShmemSafe, T25: ShmemSafe, T26: ShmemSafe, T27: ShmemSafe, T28: ShmemSafe, T29: ShmemSafe, T30: ShmemSafe, T31: ShmemSafe> ShmemSafe for (T1, T2, T3, T4, T5, T6, T7, T8, T9, T10, T11, T12, T13, T14, T15, T16, T17, T18, T19, T20, T21, T22, T23, T24, T25, T26, T27, T28, T29, T30, T31) {}

impl<T1: ShmemSafe, T2: ShmemSafe, T3: ShmemSafe, T4: ShmemSafe, T5: ShmemSafe, T6: ShmemSafe, T7: ShmemSafe, T8: ShmemSafe, T9: ShmemSafe, T10: ShmemSafe, T11: ShmemSafe, T12: ShmemSafe, T13: ShmemSafe, T14: ShmemSafe, T15: ShmemSafe, T16: ShmemSafe, T17: ShmemSafe, T18: ShmemSafe, T19: ShmemSafe, T20: ShmemSafe, T21: ShmemSafe, T22: ShmemSafe, T23: ShmemSafe, T24: ShmemSafe, T25: ShmemSafe, T26: ShmemSafe, T27: ShmemSafe, T28: ShmemSafe, T29: ShmemSafe, T30: ShmemSafe, T31: ShmemSafe, T32: ShmemSafe> ShmemSafe for (T1, T2, T3, T4, T5, T6, T7, T8, T9, T10, T11, T12, T13, T14, T15, T16, T17, T18, T19, T20, T21, T22, T23, T24, T25, T26, T27, T28, T29, T30, T31, T32) {}

} // verus!
