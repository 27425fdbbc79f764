//! The errors of setting up the Vulkan core.

use vstd::prelude::*;
use vstd::std_specs::convert::FromSpecImpl;
use crate::device::{DeviceCreationError, DeviceSelectError};
use crate::instance::{InstanceCreationError, SurfaceError};
use crate::queues::QueueFamilyError;
use crate::swapchain::SwapchainCreationError;

verus! {

/// Why the per-frame resources could not be created (each with the Vulkan
/// result code).
#[derive(Debug, Clone, Copy, PartialEq, Eq)]
pub enum FrameResourceCreationError {
    CommandPoolCreation(i32),
    FenceCreation(i32),
    SemaphoreCreateInfo(i32),
}

/// Why setting up the Vulkan core failed, by the step that failed.
#[derive(Debug, Clone, PartialEq, Eq)]
pub enum SetupError {
    /// Failed to create Vulkan instance.
    InstanceCreation(InstanceCreationError),
    /// Failed to create Vulkan surface.
    SurfaceCreation(SurfaceError),
    /// Failed to select Vulkan physical devices.
    DeviceScore(DeviceSelectError),
    /// Failed to get Vulkan queue families.
    QueueFamily(QueueFamilyError),
    /// Failed to create Vulkan logical device.
    LogicalDeviceCreation(DeviceCreationError),
    /// Failed to create Vulkan memory allocator (the Vulkan result code).
    AllocatorCreation(i32),
    /// Failed to create Vulkan swapchain.
    SwapchainCreation(SwapchainCreationError),
    /// Failed to create frame resources.
    FrameResourceCreation(FrameResourceCreationError),
}

impl From<InstanceCreationError> for SetupError {
    fn from(e: InstanceCreationError) -> Self {
        SetupError::InstanceCreation(e)
    }
}

impl FromSpecImpl<InstanceCreationError> for SetupError {
    open spec fn obeys_from_spec() -> bool {
        true
    }

    open spec fn from_spec(e: InstanceCreationError) -> Self {
        SetupError::InstanceCreation(e)
    }
}

impl From<SurfaceError> for SetupError {
    fn from(e: SurfaceError) -> Self {
        SetupError::SurfaceCreation(e)
    }
}

impl FromSpecImpl<SurfaceError> for SetupError {
    open spec fn obeys_from_spec() -> bool {
        true
    }

    open spec fn from_spec(e: SurfaceError) -> Self {
        SetupError::SurfaceCreation(e)
    }
}

impl From<DeviceSelectError> for SetupError {
    fn from(e: DeviceSelectError) -> Self {
        SetupError::DeviceScore(e)
    }
}

impl FromSpecImpl<DeviceSelectError> for SetupError {
    open spec fn obeys_from_spec() -> bool {
        true
    }

    open spec fn from_spec(e: DeviceSelectError) -> Self {
        SetupError::DeviceScore(e)
    }
}

impl From<QueueFamilyError> for SetupError {
    fn from(e: QueueFamilyError) -> Self {
        SetupError::QueueFamily(e)
    }
}

impl FromSpecImpl<QueueFamilyError> for SetupError {
    open spec fn obeys_from_spec() -> bool {
        true
    }

    open spec fn from_spec(e: QueueFamilyError) -> Self {
        SetupError::QueueFamily(e)
    }
}

impl From<DeviceCreationError> for SetupError {
    fn from(e: DeviceCreationError) -> Self {
        SetupError::LogicalDeviceCreation(e)
    }
}

impl FromSpecImpl<DeviceCreationError> for SetupError {
    open spec fn obeys_from_spec() -> bool {
        true
    }

    open spec fn from_spec(e: DeviceCreationError) -> Self {
        SetupError::LogicalDeviceCreation(e)
    }
}

impl From<SwapchainCreationError> for SetupError {
    fn from(e: SwapchainCreationError) -> Self {
        SetupError::SwapchainCreation(e)
    }
}

impl FromSpecImpl<SwapchainCreationError> for SetupError {
    open spec fn obeys_from_spec() -> bool {
        true
    }

    open spec fn from_spec(e: SwapchainCreationError) -> Self {
        SetupError::SwapchainCreation(e)
    }
}

impl From<FrameResourceCreationError> for SetupError {
    fn from(e: FrameResourceCreationError) -> Self {
        SetupError::FrameResourceCreation(e)
    }
}

impl FromSpecImpl<FrameResourceCreationError> for SetupError {
    open spec fn obeys_from_spec() -> bool {
        true
    }

    open spec fn from_spec(e: FrameResourceCreationError) -> Self {
        SetupError::FrameResourceCreation(e)
    }
}

/// The outcome of creating the resources of every frame in flight, from the
/// outcome for each frame in order: all the frames when each succeeded, else
/// the error of the last frame that failed.
pub open spec fn frames_outcome<F>(
    results: Seq<Result<F, FrameResourceCreationError>>,
) -> Result<Seq<F>, FrameResourceCreationError>
    decreases results.len(),
{
    if results.len() == 0 {
        Ok(Seq::empty())
    } else {
        match results.last() {
            Err(e) => Err(e),
            Ok(f) => match frames_outcome(results.drop_last()) {
                Ok(fs) => Ok(fs.push(f)),
                Err(e) => Err(e),
            },
        }
    }
}

/// Gathering succeeds exactly when every frame was created, and then gives
/// each frame at its own position; when it fails, its error is that of a
/// frame after which every frame was created, that is, of the last frame
/// that failed.
pub proof fn lemma_frames_outcome_last_error<F>(results: Seq<Result<F, FrameResourceCreationError>>)
    ensures
        frames_outcome(results) is Ok <==> forall|k: int| 0 <= k < results.len() ==> (#[trigger] results[k]) is Ok,
        frames_outcome(results) matches Ok(fs) ==> fs.len() == results.len() && forall|k: int|
            0 <= k < results.len() ==> #[trigger] results[k] == Ok::<F, FrameResourceCreationError>(fs[k]),
        frames_outcome(results) matches Err(e) ==> exists|k: int|
            0 <= k < results.len() && #[trigger] results[k] == Err::<F, FrameResourceCreationError>(e)
                && forall|j: int| k < j < results.len() ==> (#[trigger] results[j]) is Ok,
    decreases results.len(),
{
    if results.len() > 0 {
        let init = results.drop_last();
        let n = results.len() - 1;
        lemma_frames_outcome_last_error(init);
        assert forall|k: int| 0 <= k < n implies #[trigger] results[k] == init[k] by {}
        match results.last() {
            Err(e) => {
                assert(results[n] == Err::<F, FrameResourceCreationError>(e));
            },
            Ok(f) => {
                match frames_outcome(init) {
                    Ok(fs) => {
                        let all = fs.push(f);
                        assert forall|k: int| 0 <= k < results.len() implies #[trigger] results[k]
                            == Ok::<F, FrameResourceCreationError>(all[k]) by {
                            if k < n {
                                assert(init[k] == Ok::<F, FrameResourceCreationError>(fs[k]));
                            }
                        }
                    },
                    Err(e) => {
                        let k = choose|k: int|
                            0 <= k < init.len() && #[trigger] init[k] == Err::<F, FrameResourceCreationError>(e)
                                && forall|j: int| k < j < init.len() ==> (#[trigger] init[j]) is Ok;
                        assert(results[k] == init[k]);
                        assert forall|j: int| k < j < results.len() implies (#[trigger] results[j]) is Ok by {
                            if j < n {
                                assert(results[j] == init[j]);
                            }
                        }
                        assert(!(init[k] is Ok));
                    },
                }
            },
        }
    }
}

/// Gathers the per-frame outcomes: the frames, in order, when every frame was
/// created; otherwise the error of the last frame that failed.
pub fn collect_frames<F>(results: Vec<Result<F, FrameResourceCreationError>>) -> (r: Result<
    Vec<F>,
    FrameResourceCreationError,
>)
    ensures
        match frames_outcome(results@) {
            Ok(fs) => r is Ok && r->Ok_0@ == fs,
            Err(e) => r == Err::<Vec<F>, FrameResourceCreationError>(e),
        },
{
    broadcast use vstd::std_specs::vec::group_vec_axioms;

    let ghost all = results@;
    let mut frames: Vec<F> = Vec::new();
    let mut error: Option<FrameResourceCreationError> = None;
    for res in it: results.into_iter()
        invariant
            it.seq() == all,
            match frames_outcome(all.take(it.index())) {
                Ok(fs) => error is None && frames@ == fs,
                Err(e) => error == Some(e),
            },
    {
        proof {
            assert(all.take(it.index() + 1).drop_last() == all.take(it.index()));
        }
        match res {
            Ok(f) => {
                if error.is_none() {
                    frames.push(f);
                }
            },
            Err(e) => {
                error = Some(e);
            },
        }
    }
    proof {
        assert(all.take(all.len() as int) == all);
    }
    match error {
        Some(e) => Err(e),
        None => Ok(frames),
    }
}

} // verus!
