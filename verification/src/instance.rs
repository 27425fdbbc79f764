//! Checks made while creating the Vulkan instance and surface.

use vstd::prelude::*;
use crate::device::has_extension;
use crate::device::has_extension_spec;

verus! {

broadcast use vstd::seq_lib::group_seq_properties;

/// Why the Vulkan instance could not be created.
#[derive(Debug, Clone, PartialEq, Eq)]
pub enum InstanceCreationError {
    /// The Vulkan loader could not be loaded.
    EntryLoadError,
    /// The instance extensions could not be listed.
    FailedToEnumerateExtensions,
    /// These required instance extensions are not available.
    MissingExtensions(Vec<String>),
    /// The driver refused to create the instance.
    CreationFailed,
    /// The validation-layer debug messenger could not be created.
    FailedToCreateDebugMessenger,
}

/// The application's name and version, as reported to the Vulkan driver.
pub struct AppInfo {
    pub name: &'static str,
    pub version: u32,
}

/// Why the window surface could not be created.
#[derive(Debug, Clone, Copy, PartialEq, Eq)]
pub enum SurfaceError {
    FailedToGetDisplayHandle,
    FailedToGetWindowHandle,
    /// The driver refused to create the surface (the Vulkan result code).
    Creation(i32),
}

/// The extensions of `required` that `available` lacks, in order.
pub open spec fn missing_extensions_spec(required: Seq<String>, available: Seq<String>) -> Seq<String> {
    required.filter(|e: String| !has_extension_spec(available, e@))
}

/// Nothing is missing when nothing is required; requiring one more
/// extension adds it at the end of the missing ones exactly when no
/// available extension has its name.
pub proof fn lemma_missing_extensions_by_push(required: Seq<String>, available: Seq<String>, e: String)
    ensures
        missing_extensions_spec(Seq::<String>::empty(), available) == Seq::<String>::empty(),
        missing_extensions_spec(required.push(e), available) == (if exists|i: int|
            0 <= i < available.len() && (#[trigger] available[i])@ == e@ {
            missing_extensions_spec(required, available)
        } else {
            missing_extensions_spec(required, available).push(e)
        }),
{
    let missing = |x: String| !has_extension_spec(available, x@);
    required.lemma_filter_push(e, missing);
    assert(Seq::<String>::empty().filter(missing) =~= Seq::<String>::empty());
}

/// The required extensions that are not available, in the order they are
/// required.
pub fn missing_extensions(required: &Vec<String>, available: &Vec<String>) -> (r: Vec<String>)
    ensures
        r@ == missing_extensions_spec(required@, available@),
{
    let ghost missing = |e: String| !has_extension_spec(available@, e@);
    let mut out: Vec<String> = Vec::new();
    let mut i: usize = 0;
    while i < required.len()
        invariant
            i <= required.len(),
            missing == (|e: String| !has_extension_spec(available@, e@)),
            out@ == required@.take(i as int).filter(missing),
        decreases required.len() - i,
    {
        proof {
            assert(required@.take(i + 1) == required@.take(i as int).push(required@[i as int]));
            required@.take(i as int).lemma_filter_push(required@[i as int], missing);
        }
        if !has_extension(available, &required[i]) {
            out.push(required[i].clone());
        }
        i = i + 1;
    }
    proof {
        assert(required@.take(required.len() as int) == required@);
    }
    out
}

/// Fails with the list of missing extensions when any required instance
/// extension is not available.
pub fn check_instance_extensions(required: &Vec<String>, available: &Vec<String>) -> (r: Result<(), InstanceCreationError>)
    ensures
        missing_extensions_spec(required@, available@).len() == 0 ==> r is Ok,
        missing_extensions_spec(required@, available@).len() > 0 ==> (r matches Err(
            InstanceCreationError::MissingExtensions(m),
        ) && m@ == missing_extensions_spec(required@, available@)),
{
    let missing = missing_extensions(required, available);
    if missing.len() > 0 {
        Err(InstanceCreationError::MissingExtensions(missing))
    } else {
        Ok(())
    }
}

} // verus!
