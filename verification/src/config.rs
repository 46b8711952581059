//! Configuration attributes.

#![allow(non_upper_case_globals)]

use vstd::prelude::*;
use crate::surface::RTFormat;
use crate::{Entrypoint, Profile};

verus! {

/// The kind of a configuration attribute.
///
/// The wrapped value is the code the driver interface uses; the associated
/// constants name the known codes.
#[derive(Clone, Copy, Debug, PartialEq, Eq, Structural)]
pub struct ConfigAttribType(pub i32);

impl ConfigAttribType {
    pub const RTFormat: i32 = 0;
    pub const SpatialResidual: i32 = 1;
    pub const SpatialClipping: i32 = 2;
    pub const IntraResidual: i32 = 3;
    pub const Encryption: i32 = 4;
    pub const RateControl: i32 = 5;
    pub const DecSliceMode: i32 = 6;
    pub const DecJPEG: i32 = 7;
    pub const DecProcessing: i32 = 8;
    pub const EncPackedHeaders: i32 = 10;
    pub const EncInterlaced: i32 = 11;
    pub const EncMaxRefFrames: i32 = 13;
    pub const EncMaxSlices: i32 = 14;
    pub const EncSliceStructure: i32 = 15;
    pub const EncMacroblockInfo: i32 = 16;
    pub const MaxPictureWidth: i32 = 18;
    pub const MaxPictureHeight: i32 = 19;
    pub const EncJPEG: i32 = 20;
    pub const EncQualityRange: i32 = 21;
    pub const EncQuantization: i32 = 22;
    pub const EncIntraRefresh: i32 = 23;
    pub const EncSkipFrame: i32 = 24;
    pub const EncROI: i32 = 25;
    pub const EncRateControlExt: i32 = 26;
    pub const ProcessingRate: i32 = 27;
    pub const EncDirtyRect: i32 = 28;
    pub const EncParallelRateControl: i32 = 29;
    pub const EncDynamicScaling: i32 = 30;
    pub const FrameSizeToleranceSupport: i32 = 31;
    pub const FEIFunctionType: i32 = 32;
    pub const FEIMVPredictors: i32 = 33;
    pub const Stats: i32 = 34;
    pub const EncTileSupport: i32 = 35;
    pub const CustomRoundingControl: i32 = 36;
    pub const QPBlockSize: i32 = 37;
    pub const MaxFrameSize: i32 = 38;
    pub const PredictionDirection: i32 = 39;
    pub const MultipleFrame: i32 = 40;
    pub const ContextPriority: i32 = 41;
    pub const DecAV1Features: i32 = 42;
    pub const TEEType: i32 = 43;
    pub const TEETypeClient: i32 = 44;
    pub const ProtectedContentCipherAlgorithm: i32 = 45;
    pub const ProtectedContentCipherBlockSize: i32 = 46;
    pub const ProtectedContentCipherMode: i32 = 47;
    pub const ProtectedContentCipherSampleType: i32 = 48;
    pub const ProtectedContentUsage: i32 = 49;
    pub const EncHEVCFeatures: i32 = 50;
    pub const EncHEVCBlockSizes: i32 = 51;
    pub const EncAV1: i32 = 52;
    pub const EncAV1Ext1: i32 = 53;
    pub const EncAV1Ext2: i32 = 54;
    pub const EncPerBlockControl: i32 = 55;
}

/// One attribute of a configuration: its type and its raw value.
///
/// Layout: the type code and the value, 32 bits each.
#[derive(Clone, Copy, Debug, PartialEq, Eq, Structural)]
pub struct ConfigAttrib {
    pub type_: ConfigAttribType,
    pub value: u32,
}

impl ConfigAttrib {
    /// The attribute with type code 0 and value 0.
    pub fn zeroed() -> (r: Self)
        ensures
            r == (ConfigAttrib { type_: ConfigAttribType(0), value: 0 }),
    {
        ConfigAttrib { type_: ConfigAttribType(0), value: 0 }
    }

    #[inline]
    pub fn attrib_type(&self) -> (r: ConfigAttribType)
        ensures
            r == self.type_,
    {
        self.type_
    }

    #[inline]
    pub fn raw_value(&self) -> (r: u32)
        ensures
            r == self.value,
    {
        self.value
    }
}

/// The configuration attributes that can be requested by their meaning.
#[derive(Clone, Copy, Debug)]
#[non_exhaustive]
pub enum ConfigAttribEnum {
    RTFormat(RTFormat),
}

/// The attribute that requests what `value` names.
pub open spec fn attrib_from_enum(value: ConfigAttribEnum) -> ConfigAttrib {
    match value {
        ConfigAttribEnum::RTFormat(fmt) => ConfigAttrib {
            type_: ConfigAttribType(ConfigAttribType::RTFormat),
            value: fmt.0,
        },
    }
}

impl From<ConfigAttribEnum> for ConfigAttrib {
    fn from(value: ConfigAttribEnum) -> (r: Self) {
        match value {
            ConfigAttribEnum::RTFormat(fmt) => ConfigAttrib {
                type_: ConfigAttribType(ConfigAttribType::RTFormat),
                value: fmt.bits(),
            },
        }
    }
}

impl vstd::std_specs::convert::FromSpecImpl<ConfigAttribEnum> for ConfigAttrib {
    open spec fn obeys_from_spec() -> bool {
        true
    }

    open spec fn from_spec(value: ConfigAttribEnum) -> Self {
        attrib_from_enum(value)
    }
}

/// The profile, the entrypoint and the attributes a configuration was
/// created with.
#[derive(Clone)]
pub struct ConfigAttributes {
    pub profile: Profile,
    pub entrypoint: Entrypoint,
    pub attribs: Vec<ConfigAttrib>,
}

impl ConfigAttributes {
    pub fn profile(&self) -> (r: Profile)
        ensures
            r == self.profile,
    {
        self.profile
    }

    pub fn entrypoint(&self) -> (r: Entrypoint)
        ensures
            r == self.entrypoint,
    {
        self.entrypoint
    }

    pub fn len(&self) -> (r: usize)
        ensures
            r == self.attribs@.len(),
    {
        self.attribs.len()
    }

    /// The attributes, in order.
    pub fn into_vec(self) -> (r: Vec<ConfigAttrib>)
        ensures
            r@ == self.attribs@,
    {
        self.attribs
    }
}

} // verus!
