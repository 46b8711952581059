//! Buffer kinds.

#![allow(non_upper_case_globals)]

use vstd::prelude::*;

verus! {

/// Enumeration of all the buffer types VA-API understands.
///
/// The wrapped value is the code the driver interface uses; the associated
/// constants name the known codes.
#[derive(Clone, Copy, Debug, PartialEq, Eq, Structural)]
pub struct BufferType(pub i32);

impl BufferType {
    pub const PictureParameter: i32 = 0;
    pub const IQMatrix: i32 = 1;
    pub const BitPlane: i32 = 2;
    pub const SliceGroupMap: i32 = 3;
    pub const SliceParameter: i32 = 4;
    pub const SliceData: i32 = 5;
    pub const MacroblockParameter: i32 = 6;
    pub const ResidualData: i32 = 7;
    pub const DeblockingParameter: i32 = 8;
    pub const Image: i32 = 9;
    pub const ProtectedSliceData: i32 = 10;
    pub const QMatrix: i32 = 11;
    pub const HuffmanTable: i32 = 12;
    pub const Probability: i32 = 13;
    pub const EncCoded: i32 = 21;
    pub const EncSequenceParameter: i32 = 22;
    pub const EncPictureParameter: i32 = 23;
    pub const EncSliceParameter: i32 = 24;
    pub const EncPackedHeaderParameter: i32 = 25;
    pub const EncPackedHeaderData: i32 = 26;
    pub const EncMiscParameter: i32 = 27;
    pub const EncMacroblockParameter: i32 = 28;
    pub const EncMacroblockMap: i32 = 29;
    pub const EncQP: i32 = 30;
    pub const ProcPipelineParameter: i32 = 41;
    pub const ProcFilterParameter: i32 = 42;
    pub const EncFEIMV: i32 = 43;
    pub const EncFEIMBCode: i32 = 44;
    pub const EncFEIDistortion: i32 = 45;
    pub const EncFEIMBControl: i32 = 46;
    pub const EncFEIMVPredictor: i32 = 47;
    pub const StatsStatisticsParameter: i32 = 48;
    pub const StatsStatistics: i32 = 49;
    pub const StatsStatisticsBottomField: i32 = 50;
    pub const StatsMV: i32 = 51;
    pub const StatsMVPredictor: i32 = 52;
    pub const EncMacroblockDisableSkipMap: i32 = 53;
    pub const EncFEICTBCmd: i32 = 54;
    pub const EncFEICURecord: i32 = 55;
    pub const DecodeStreamout: i32 = 56;
    pub const SubsetsParameter: i32 = 57;
    pub const ContextParameterUpdate: i32 = 58;
    pub const ProtectedSessionExecute: i32 = 59;
    pub const EncryptionParameter: i32 = 60;
    pub const EncDeltaQpPerBlock: i32 = 61;
}

} // verus!
