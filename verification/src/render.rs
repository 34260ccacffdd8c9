//! The one rule the renderer's instanced drawing enforces: a frame's
//! instance batch must fit the buffer it was built for. The buffers,
//! shaders and draw calls belong to the rendering collaborator outside
//! the library; the capacity check is the part worth stating.

use vstd::prelude::*;

verus! {

/// A frame asked for more instances than the instance buffer was built
/// for.
#[derive(Clone, Copy, Debug, PartialEq, Eq, Structural)]
pub struct MaxInstancesExceeded;

/// Admits an instance batch into a buffer: `requested` instances fit a
/// buffer built for `capacity` of them, and one over is refused.
pub fn check_instance_capacity(capacity: usize, requested: usize) -> (r: Result<
    (),
    MaxInstancesExceeded,
>)
    ensures
        requested <= capacity <==> r == Result::<(), MaxInstancesExceeded>::Ok(()),
        requested > capacity <==> r == Result::<(), MaxInstancesExceeded>::Err(
            MaxInstancesExceeded,
        ),
{
    if capacity < requested {
        Err(MaxInstancesExceeded)
    } else {
        Ok(())
    }
}

} // verus!
