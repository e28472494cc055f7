//! Resource lifecycle: the order in which the owned handles are created,
//! the teardown order as its exact reverse, and the index-aligned
//! per-swapchain-image collections.

use vstd::prelude::*;
use crate::error::LifecycleError;

verus! {

/// The kinds of owned handle the bootstrap creates and the teardown must
/// destroy. Swapchain images are not listed: they are owned by the API and
/// never destroyed individually. Command buffers are not listed either:
/// destroying the command pool frees them implicitly.
#[derive(Clone, Copy, Debug, PartialEq, Eq, Structural)]
pub enum HandleKind {
    Instance,
    DebugMessenger,
    Surface,
    Device,
    Swapchain,
    ImageView,
    RenderPass,
    PipelineLayout,
    Pipeline,
    Framebuffer,
    CommandPool,
    Semaphore,
}

/// The creation order of the ownership stack, for a swapchain of
/// `n_images` images: instance, the debug messenger when validation is
/// enabled, surface, logical device, swapchain, one image view per image,
/// render pass, pipeline layout, pipeline, one framebuffer per image,
/// command pool, and the two frame-cycle semaphores.
pub open spec fn spec_creation_order(n_images: nat, validation: bool) -> Seq<HandleKind> {
    seq![HandleKind::Instance] + (if validation {
        seq![HandleKind::DebugMessenger]
    } else {
        Seq::<HandleKind>::empty()
    }) + seq![HandleKind::Surface, HandleKind::Device, HandleKind::Swapchain]
        + Seq::new(n_images, |i: int| HandleKind::ImageView)
        + seq![HandleKind::RenderPass, HandleKind::PipelineLayout, HandleKind::Pipeline]
        + Seq::new(n_images, |i: int| HandleKind::Framebuffer)
        + seq![HandleKind::CommandPool, HandleKind::Semaphore, HandleKind::Semaphore]
}

/// Builds the creation order of the ownership stack.
pub fn creation_order(n_images: usize, validation: bool) -> (r: Vec<HandleKind>)
    ensures
        r@ == spec_creation_order(n_images as nat, validation),
{
    let mut r: Vec<HandleKind> = Vec::new();
    r.push(HandleKind::Instance);
    if validation {
        r.push(HandleKind::DebugMessenger);
    }
    r.push(HandleKind::Surface);
    r.push(HandleKind::Device);
    r.push(HandleKind::Swapchain);
    let mut i: usize = 0;
    let ghost prefix = r@;
    while i < n_images
        invariant
            i <= n_images,
            r@ == prefix + Seq::new(i as nat, |k: int| HandleKind::ImageView),
        decreases n_images - i,
    {
        r.push(HandleKind::ImageView);
        proof {
            assert(r@ =~= prefix + Seq::new((i + 1) as nat, |k: int| HandleKind::ImageView));
        }
        i = i + 1;
    }
    r.push(HandleKind::RenderPass);
    r.push(HandleKind::PipelineLayout);
    r.push(HandleKind::Pipeline);
    let mut j: usize = 0;
    let ghost prefix2 = r@;
    while j < n_images
        invariant
            j <= n_images,
            r@ == prefix2 + Seq::new(j as nat, |k: int| HandleKind::Framebuffer),
        decreases n_images - j,
    {
        r.push(HandleKind::Framebuffer);
        proof {
            assert(r@ =~= prefix2 + Seq::new((j + 1) as nat, |k: int| HandleKind::Framebuffer));
        }
        j = j + 1;
    }
    r.push(HandleKind::CommandPool);
    r.push(HandleKind::Semaphore);
    r.push(HandleKind::Semaphore);
    proof {
        assert(r@ =~= spec_creation_order(n_images as nat, validation));
    }
    r
}

/// Plans the teardown: the destroy order is the exact reverse of the
/// creation order, so no handle is destroyed while a handle created after
/// it (and hence depending on it) still exists.
pub fn teardown_order(created: &Vec<HandleKind>) -> (r: Vec<HandleKind>)
    ensures
        r@ == created@.reverse(),
{
    let n = created.len();
    let mut r: Vec<HandleKind> = Vec::new();
    let mut i: usize = 0;
    while i < n
        invariant
            i <= n,
            n == created@.len(),
            r@.len() == i,
            forall|k: int| 0 <= k < i ==> r@[k] == created@[n - 1 - k],
        decreases n - i,
    {
        r.push(created[n - 1 - i]);
        i = i + 1;
    }
    proof {
        assert(r@ =~= created@.reverse());
    }
    r
}

/// Destroying in the exact reverse of the creation order balances the
/// books: for every handle kind, the number of destroy calls equals the
/// number of create calls.
pub proof fn lemma_teardown_balances_creates(created: Seq<HandleKind>, kind: HandleKind)
    ensures
        created.reverse().to_multiset().count(kind) == created.to_multiset().count(kind),
{
    created.lemma_reverse_to_multiset();
}

/// The per-swapchain-image collections, held together so that their index
/// alignment is a construction-time invariant instead of a scattered
/// assumption. The handles themselves are opaque tokens to this library;
/// position `i` of each collection belongs to swapchain image `i`.
#[derive(Debug)]
pub struct PerImageResources {
    image_views: Vec<u64>,
    framebuffers: Vec<u64>,
    command_buffers: Vec<u64>,
}

impl PerImageResources {
    /// The collections all have one entry per swapchain image.
    pub closed spec fn wf(self, n_images: nat) -> bool {
        &&& self.image_views@.len() == n_images
        &&& self.framebuffers@.len() == n_images
        &&& self.command_buffers@.len() == n_images
    }

    pub closed spec fn spec_image_views(self) -> Seq<u64> {
        self.image_views@
    }

    pub closed spec fn spec_framebuffers(self) -> Seq<u64> {
        self.framebuffers@
    }

    pub closed spec fn spec_command_buffers(self) -> Seq<u64> {
        self.command_buffers@
    }

    /// Assembles the per-image collections, accepting them exactly when
    /// every one has one entry per swapchain image. A mismatch is a fatal
    /// configuration error, not a recoverable condition.
    pub fn assemble(
        n_images: usize,
        image_views: Vec<u64>,
        framebuffers: Vec<u64>,
        command_buffers: Vec<u64>,
    ) -> (r: Result<PerImageResources, LifecycleError>)
        ensures
            r is Ok <==> image_views@.len() == n_images && framebuffers@.len() == n_images
                && command_buffers@.len() == n_images,
            r matches Ok(p) ==> p.wf(n_images as nat) && p.spec_image_views() == image_views@
                && p.spec_framebuffers() == framebuffers@
                && p.spec_command_buffers() == command_buffers@,
            r matches Err(e) ==> e == LifecycleError::IndexMisalignment,
    {
        if image_views.len() != n_images || framebuffers.len() != n_images
            || command_buffers.len() != n_images {
            return Err(LifecycleError::IndexMisalignment);
        }
        Ok(PerImageResources { image_views, framebuffers, command_buffers })
    }

    /// The number of swapchain images the collections are aligned to.
    pub fn image_count(&self) -> (r: usize)
        requires
            self.spec_image_views().len() == self.spec_framebuffers().len(),
            self.spec_image_views().len() == self.spec_command_buffers().len(),
        ensures
            r == self.spec_image_views().len(),
            r == self.spec_framebuffers().len(),
            r == self.spec_command_buffers().len(),
    {
        self.image_views.len()
    }

    /// The image view belonging to swapchain image `i`.
    pub fn image_view(&self, i: usize) -> (r: u64)
        requires
            i < self.spec_image_views().len(),
        ensures
            r == self.spec_image_views()[i as int],
    {
        self.image_views[i]
    }

    /// The framebuffer belonging to swapchain image `i`.
    pub fn framebuffer(&self, i: usize) -> (r: u64)
        requires
            i < self.spec_framebuffers().len(),
        ensures
            r == self.spec_framebuffers()[i as int],
    {
        self.framebuffers[i]
    }

    /// The command buffer belonging to swapchain image `i`.
    pub fn command_buffer(&self, i: usize) -> (r: u64)
        requires
            i < self.spec_command_buffers().len(),
        ensures
            r == self.spec_command_buffers()[i as int],
    {
        self.command_buffers[i]
    }
}

} // verus!
