//! The plugin factory: what the host is told about the vendor and the two classes, and
//! which class an instance request asks for.
use vstd::prelude::*;
use crate::status::ResultCode;

verus! {

/// Name of the plugin, also the name of its bundle.
pub const PLUGIN_NAME: &'static str = "Vst3Skeleton";

/// A class id as the four 32-bit words that the host-side 16-byte id is built from.
#[derive(Clone, Copy, PartialEq, Eq, Structural, Debug)]
pub struct ClassId {
    pub w0: u32,
    pub w1: u32,
    pub w2: u32,
    pub w3: u32,
}

/// Id of the audio processor class.
pub open spec fn processor_class_id_spec() -> ClassId {
    ClassId { w0: 0x13A5_7D21, w1: 0x7B9C_4A10, w2: 0x2C31_90EF, w3: 0xA1B2_C3D4 }
}

/// Id of the edit controller class.
pub open spec fn controller_class_id_spec() -> ClassId {
    ClassId { w0: 0x89BC_12EF, w1: 0x4D3A_77C2, w2: 0x55AA_66BB, w3: 0x99EE_FF00 }
}

/// Id of the audio processor class.
pub fn processor_class_id() -> (r: ClassId)
    ensures
        r == processor_class_id_spec(),
        r == (ClassId { w0: 0x13A5_7D21, w1: 0x7B9C_4A10, w2: 0x2C31_90EF, w3: 0xA1B2_C3D4 }),
{
    ClassId { w0: 0x13A5_7D21, w1: 0x7B9C_4A10, w2: 0x2C31_90EF, w3: 0xA1B2_C3D4 }
}

/// Id of the edit controller class.
pub fn controller_class_id() -> (r: ClassId)
    ensures
        r == controller_class_id_spec(),
        r == (ClassId { w0: 0x89BC_12EF, w1: 0x4D3A_77C2, w2: 0x55AA_66BB, w3: 0x99EE_FF00 }),
{
    ClassId { w0: 0x89BC_12EF, w1: 0x4D3A_77C2, w2: 0x55AA_66BB, w3: 0x99EE_FF00 }
}

/// What the host is told about the factory (it has no flags set).
#[derive(Clone, Copy, Debug)]
pub struct FactoryDescription {
    pub vendor: &'static str,
    pub url: &'static str,
    pub email: &'static str,
}

pub fn factory_info() -> (r: FactoryDescription)
    ensures
        r.vendor@ == "ExampleVendor"@,
        r.url@ == "https://example.com"@,
        r.email@ == "dev@example.com"@,
{
    FactoryDescription { vendor: "ExampleVendor", url: "https://example.com", email: "dev@example.com" }
}

/// What the host is told about a class.
#[derive(Clone, Copy, Debug)]
pub struct ClassDescription {
    pub cid: ClassId,
    pub cardinality: i32,
    pub category: &'static str,
    pub name: &'static str,
    pub class_flags: u32,
    pub sub_categories: &'static str,
    pub vendor: &'static str,
    pub version: &'static str,
    pub sdk_version: &'static str,
}

/// The fields that both classes share: one instance at a time, no class flags, an
/// effect (`Fx`) of vendor `ExampleVendor`, version `0.1.0`, built for SDK `3.8.0`.
pub open spec fn common_class_fields(d: ClassDescription) -> bool {
    &&& d.cardinality == 1
    &&& d.class_flags == 0
    &&& d.sub_categories@ == "Fx"@
    &&& d.vendor@ == "ExampleVendor"@
    &&& d.version@ == "0.1.0"@
    &&& d.sdk_version@ == "3.8.0"@
}

/// Class `0` is the audio processor, class `1` the edit controller.
pub open spec fn is_class_description(index: int, d: ClassDescription) -> bool {
    &&& common_class_fields(d)
    &&& index == 0 ==> {
        &&& d.cid == processor_class_id_spec()
        &&& d.category@ == "Audio Module Class"@
        &&& d.name@ == "Vst3Skeleton"@
    }
    &&& index == 1 ==> {
        &&& d.cid == controller_class_id_spec()
        &&& d.category@ == "Component Controller Class"@
        &&& d.name@ == "Vst3SkeletonController"@
    }
}

/// The number of classes the factory offers.
pub fn class_count() -> (r: i32)
    ensures
        r == 2,
{
    2
}

/// The old-style class query is not served: it always answers `kResultFalse`.
pub fn class_info(index: i32) -> (r: ResultCode)
    ensures
        r == ResultCode::ResultFalse,
{
    ResultCode::ResultFalse
}

/// The description of class `index`; indices outside `0..class_count()` (negative ones
/// included) are refused.
pub fn class_info2(index: i32) -> (r: Result<ClassDescription, ResultCode>)
    ensures
        match r {
            Ok(d) => {
                &&& 0 <= index < 2
                &&& is_class_description(index as int, d)
                &&& index == 0 ==> d.cid == (ClassId {
                    w0: 0x13A5_7D21,
                    w1: 0x7B9C_4A10,
                    w2: 0x2C31_90EF,
                    w3: 0xA1B2_C3D4,
                })
                &&& index == 1 ==> d.cid == (ClassId {
                    w0: 0x89BC_12EF,
                    w1: 0x4D3A_77C2,
                    w2: 0x55AA_66BB,
                    w3: 0x99EE_FF00,
                })
            },
            Err(e) => !(0 <= index < 2) && e == ResultCode::InvalidArgument,
        },
{
    if index == 0 {
        Ok(
            ClassDescription {
                cid: processor_class_id(),
                cardinality: 1,
                category: "Audio Module Class",
                name: "Vst3Skeleton",
                class_flags: 0,
                sub_categories: "Fx",
                vendor: "ExampleVendor",
                version: "0.1.0",
                sdk_version: "3.8.0",
            },
        )
    } else if index == 1 {
        Ok(
            ClassDescription {
                cid: controller_class_id(),
                cardinality: 1,
                category: "Component Controller Class",
                name: "Vst3SkeletonController",
                class_flags: 0,
                sub_categories: "Fx",
                vendor: "ExampleVendor",
                version: "0.1.0",
                sdk_version: "3.8.0",
            },
        )
    } else {
        Err(ResultCode::InvalidArgument)
    }
}

/// The classes a host can instantiate.
#[derive(Clone, Copy, PartialEq, Eq, Structural, Debug)]
pub enum PluginClass {
    Processor,
    Controller,
}

/// Whether two 16-byte class ids are equal.
pub fn tuid_eq(a: &[i8; 16], b: &[i8; 16]) -> (r: bool)
    ensures
        r == (a@ == b@),
{
    let mut i: usize = 0;
    while i < 16
        invariant
            i <= 16,
            a@.len() == 16,
            b@.len() == 16,
            forall|j: int| 0 <= j < i ==> a@[j] == b@[j],
        decreases 16 - i,
    {
        if a[i] != b[i] {
            return false;
        }
        i = i + 1;
    }
    assert(a@ =~= b@);
    true
}

/// The answer to an instance request: refused without somewhere to put the instance or
/// without an id; the processor or the controller for their ids; no interface otherwise.
pub open spec fn spec_instance_class(
    obj_present: bool,
    cid: Option<Seq<i8>>,
    processor_cid: Seq<i8>,
    controller_cid: Seq<i8>,
) -> Result<PluginClass, ResultCode> {
    match cid {
        None => Err(ResultCode::InvalidArgument),
        Some(c) => if !obj_present {
            Err(ResultCode::InvalidArgument)
        } else if c == processor_cid {
            Ok(PluginClass::Processor)
        } else if c == controller_cid {
            Ok(PluginClass::Controller)
        } else {
            Err(ResultCode::NoInterface)
        },
    }
}

/// The class an instance request asks for, given whether the host passed somewhere to
/// put the instance, the requested id (`None` where the host passed none) and the
/// 16-byte ids of the two classes: a request without either pointer is refused, an
/// unknown id has no interface here.
pub fn instance_class(
    obj_present: bool,
    cid: Option<&[i8; 16]>,
    processor_cid: &[i8; 16],
    controller_cid: &[i8; 16],
) -> (r: Result<PluginClass, ResultCode>)
    ensures
        r == spec_instance_class(
            obj_present,
            match cid {
                Some(c) => Some(c@),
                None => None,
            },
            processor_cid@,
            controller_cid@,
        ),
{
    match cid {
        None => Err(ResultCode::InvalidArgument),
        Some(c) => {
            if !obj_present {
                Err(ResultCode::InvalidArgument)
            } else if tuid_eq(c, processor_cid) {
                Ok(PluginClass::Processor)
            } else if tuid_eq(c, controller_cid) {
                Ok(PluginClass::Controller)
            } else {
                Err(ResultCode::NoInterface)
            }
        },
    }
}

/// Every class the factory lists can be instantiated: whatever encoding `tuid` turns
/// class ids into host-side 16-byte ids, as long as it keeps the two class ids apart, a
/// request (with somewhere to put the instance) for the id listed at index `index` gives
/// the class listed there.
pub proof fn law_listed_classes_instantiable(
    index: i32,
    d: ClassDescription,
    tuid: spec_fn(ClassId) -> Seq<i8>,
)
    requires
        0 <= index < 2,
        is_class_description(index as int, d),
        tuid(processor_class_id_spec()) != tuid(controller_class_id_spec()),
    ensures
        spec_instance_class(
            true,
            Some(tuid(d.cid)),
            tuid(processor_class_id_spec()),
            tuid(controller_class_id_spec()),
        ) == Ok::<PluginClass, ResultCode>(if index == 0 { PluginClass::Processor } else { PluginClass::Controller }),
{
}

/// The class ids the factory lists are the plugin's: the processor at index `0` is
/// `13A57D21-7B9C4A10-2C3190EF-A1B2C3D4`, the controller at index `1` is
/// `89BC12EF-4D3A77C2-55AA66BB-99EEFF00`, and the two differ.
pub proof fn law_class_ids(index: int, d: ClassDescription)
    requires
        0 <= index < 2,
        is_class_description(index, d),
    ensures
        index == 0 ==> d.cid == (ClassId { w0: 0x13A5_7D21, w1: 0x7B9C_4A10, w2: 0x2C31_90EF, w3: 0xA1B2_C3D4 }),
        index == 1 ==> d.cid == (ClassId { w0: 0x89BC_12EF, w1: 0x4D3A_77C2, w2: 0x55AA_66BB, w3: 0x99EE_FF00 }),
        processor_class_id_spec() != controller_class_id_spec(),
        index == 1 ==> d.cid == controller_class_id_spec(),
        index == 0 ==> d.cid == processor_class_id_spec(),
{
}

} // verus!
