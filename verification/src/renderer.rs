use vstd::prelude::*;

use std::collections::HashMap;

use crate::draw_data::DrawCmd;
use crate::draw_data::DrawData;
use crate::draw_data::TranslatedList;
use crate::draw_data::VertexDraw;
use crate::draw_data::build_vertex_arrays;
use crate::draw_data::cmd_error;
use crate::draw_data::copy_index_range;
use crate::draw_data::draw_matches;
use crate::draw_data::lemma_commands_error_at;
use crate::draw_data::lemma_commands_no_error;
use crate::draw_data::lemma_lists_error_at;
use crate::draw_data::lemma_lists_no_error;
use crate::draw_data::list_error;
use crate::draw_data::list_matches;
use crate::draw_data::lists_first_error;
use crate::draw_data::translation_matches;
use crate::error::RenderError;
use crate::resource::ChannelFormat;
use crate::resource::DrawableResource;
use crate::resource::valid_image;

verus! {

/// An opaque integer identifying a registered drawable resource.
///
/// Handles are allocated by the registry from a monotonically
/// increasing counter and are never reused within a session, even
/// after release. Handle 0 is reserved by convention for the GUI
/// toolkit's font atlas.
#[derive(Clone, Copy, Debug, PartialEq, Eq, Structural)]
pub struct TextureHandle(pub usize);

/// The translation layer's state: the texture registry — a mapping
/// from handle to drawable resource plus the next-handle counter —
/// created with the font atlas under handle 0.
///
/// Single-threaded by design: the registry is mutated only by explicit
/// register, update and release calls and read during translation; a
/// caller that shares it across threads must add its own
/// mutual-exclusion discipline.
#[derive(Debug)]
pub struct Renderer {
    images: HashMap<usize, DrawableResource>,
    img_idx: usize,
}

/// One registration step: `post` is `pre` with `resource` inserted
/// under the freshly issued handle `h`, which is the old counter
/// value, and the counter advanced by one.
pub open spec fn register_step(
    pre: Renderer,
    post: Renderer,
    resource: DrawableResource,
    h: TextureHandle,
) -> bool {
    &&& h.0 == pre.next_handle()
    &&& post.next_handle() == pre.next_handle() + 1
    &&& post.resources() == pre.resources().insert(h.0, resource)
}

/// One in-place update step: `post` is `pre` with the resource under
/// the already-registered handle `h` replaced by `resource`; the
/// counter does not move.
pub open spec fn update_step(
    pre: Renderer,
    post: Renderer,
    h: TextureHandle,
    resource: DrawableResource,
) -> bool {
    &&& pre.resources().contains_key(h.0)
    &&& post.next_handle() == pre.next_handle()
    &&& post.resources() == pre.resources().insert(h.0, resource)
}

/// One release step: `post` is `pre` with the entry under `h` removed
/// (a no-op when none is there); the counter does not move, so the
/// handle is never reissued.
pub open spec fn release_step(pre: Renderer, post: Renderer, h: TextureHandle) -> bool {
    &&& post.next_handle() == pre.next_handle()
    &&& post.resources() == pre.resources().remove(h.0)
}

/// What looking a handle up in state `r` yields: the registered
/// resource, or nothing when the handle is absent.
pub open spec fn lookup_result(r: Renderer, h: TextureHandle) -> Option<DrawableResource> {
    if r.resources().contains_key(h.0) {
        Some(r.resources()[h.0])
    } else {
        None
    }
}

impl Renderer {
    /// The registry contents: each issued-and-live handle mapped to
    /// its registered resource.
    pub closed spec fn resources(self) -> Map<usize, DrawableResource> {
        self.images@
    }

    /// The counter whose value the next registration will issue as a
    /// handle.
    pub closed spec fn next_handle(self) -> usize {
        self.img_idx
    }

    /// Every registered handle was issued by the counter, so it lies
    /// strictly below it; a fresh handle therefore never collides with
    /// a live one, nor with a released one.
    pub closed spec fn wf(self) -> bool {
        forall|h: usize| self.images@.contains_key(h) ==> h < self.img_idx
    }

    /// The image resource builder for application images: wraps an
    /// RGBA8 pixel buffer as a drawable resource, taking an owning
    /// copy of the bytes.
    ///
    /// Succeeds exactly when the buffer length is `width * height * 4`
    /// and the dimensions are positive; otherwise fails with
    /// `InvalidImageData`. Does not touch the registry.
    pub fn load_image_rgba8(img: Vec<u8>, width: u32, height: u32) -> (r: Result<
        DrawableResource,
        RenderError,
    >)
        ensures
            r is Ok <==> valid_image(img@.len(), width, height, ChannelFormat::Rgba8),
            r matches Ok(res) ==> res.is_built_from(img@, width, height, ChannelFormat::Rgba8)
                && res.wf(),
            r matches Err(e) ==> e == RenderError::InvalidImageData,
    {
        DrawableResource::build(img, width, height, ChannelFormat::Rgba8)
    }

    /// Registry construction: starts empty, then invokes the image
    /// resource builder on the toolkit-provided single-channel font
    /// atlas bitmap and registers the result, so the atlas sits under
    /// handle 0 and the first application handle is 1.
    ///
    /// Fails with `InvalidImageData` exactly when the atlas buffer
    /// does not match its declared dimensions.
    pub fn new(atlas_pixels: Vec<u8>, atlas_width: u32, atlas_height: u32) -> (r: Result<
        Renderer,
        RenderError,
    >)
        ensures
            r is Ok <==> valid_image(
                atlas_pixels@.len(),
                atlas_width,
                atlas_height,
                ChannelFormat::Alpha8,
            ),
            r matches Ok(ren) ==> {
                &&& ren.wf()
                &&& ren.next_handle() == 1
                &&& ren.resources().dom() =~= set![0usize]
                &&& ren.resources()[0].is_built_from(
                    atlas_pixels@,
                    atlas_width,
                    atlas_height,
                    ChannelFormat::Alpha8,
                )
                &&& ren.resources()[0].wf()
            },
            r matches Err(e) ==> e == RenderError::InvalidImageData,
    {
        let atlas = DrawableResource::build(
            atlas_pixels,
            atlas_width,
            atlas_height,
            ChannelFormat::Alpha8,
        )?;
        let mut ren = Renderer { images: HashMap::new(), img_idx: 0 };
        ren.register_image(atlas);
        Ok(ren)
    }

    /// Inserts the resource under the next unused handle and returns
    /// that handle; the counter advances so the handle is never issued
    /// again. Always succeeds given a valid resource.
    ///
    /// The counter staying below `usize::MAX` is a machine limit, not
    /// a policy: one more registration must have a fresh number.
    pub fn register_image(&mut self, resource: DrawableResource) -> (h: TextureHandle)
        requires
            old(self).wf(),
            old(self).next_handle() < usize::MAX,
        ensures
            final(self).wf(),
            register_step(*old(self), *final(self), resource, h),
    {
        let h = self.img_idx;
        self.images.insert(h, resource);
        self.img_idx = self.img_idx + 1;
        TextureHandle(h)
    }

    /// Replaces the resource at an existing handle in place.
    ///
    /// Requires prior registration: updating a handle that was never
    /// registered, or has been released, fails with `UnknownHandle`
    /// and leaves the registry unchanged. (Treating such an update as
    /// an insert would let a stale handle silently resurrect a
    /// resource.)
    pub fn update_image(&mut self, texid: &TextureHandle, resource: DrawableResource) -> (r: Result<
        (),
        RenderError,
    >)
        requires
            old(self).wf(),
        ensures
            final(self).wf(),
            r is Ok <==> old(self).resources().contains_key(texid.0),
            r is Ok ==> update_step(*old(self), *final(self), *texid, resource),
            r matches Err(e) ==> e == RenderError::UnknownHandle && *final(self) == *old(self),
    {
        if self.images.contains_key(&texid.0) {
            self.images.insert(texid.0, resource);
            Ok(())
        } else {
            Err(RenderError::UnknownHandle)
        }
    }

    /// Removes the entry under the handle. Idempotent: releasing an
    /// already-released or never-issued handle is a no-op, not an
    /// error, because callers may race teardown of a resource with
    /// frame translation. The counter does not move, so the handle is
    /// not reused.
    pub fn release_image(&mut self, texid: TextureHandle)
        requires
            old(self).wf(),
        ensures
            final(self).wf(),
            release_step(*old(self), *final(self), texid),
    {
        self.images.remove(&texid.0);
    }

    /// The counter value the next registration will issue as a
    /// handle.
    pub fn next_handle_value(&self) -> (r: usize)
        ensures
            r == self.next_handle(),
    {
        self.img_idx
    }

    /// Resolves a handle to its registered resource; fails with
    /// `UnknownHandle` when the handle is absent.
    pub fn lookup(&self, texid: TextureHandle) -> (r: Result<&DrawableResource, RenderError>)
        ensures
            r matches Ok(res) ==> lookup_result(*self, texid) == Some(*res),
            r matches Err(e) ==> lookup_result(*self, texid) is None
                && e == RenderError::UnknownHandle,
    {
        match self.images.get(&texid.0) {
            Some(res) => Ok(res),
            None => Err(RenderError::UnknownHandle),
        }
    }

    /// The draw list translator, invoked once per rendered frame.
    ///
    /// Walks the frame's draw lists in order; for each, copies every
    /// vertex exactly once into the canvas-native parallel arrays and
    /// turns every command, in array order, into one triangle-list
    /// vertex draw carrying the command's clip rectangle, its resolved
    /// texture handle, and an owned copy of its index subrange.
    ///
    /// Fails fast with the frame's first failure — an unregistered
    /// handle, an index range past the list's index buffer, or a
    /// recognized but unimplemented command kind — and then yields no
    /// draws at all, so a failed frame never issues a partial draw.
    pub fn render_imgui(&self, data: &DrawData) -> (r: Result<Vec<TranslatedList>, RenderError>)
        ensures
            r is Ok <==> lists_first_error(data.draw_lists@, self.resources()) is None,
            r matches Ok(out) ==> translation_matches(out@, data.draw_lists@),
            r matches Err(e) ==> lists_first_error(data.draw_lists@, self.resources()) == Some(e),
    {
        let ghost lists = data.draw_lists@;
        let ghost images = self.resources();
        let mut out: Vec<TranslatedList> = Vec::new();
        let n = data.draw_lists.len();
        let mut li: usize = 0;
        while li < n
            invariant
                n == lists.len(),
                lists == data.draw_lists@,
                images == self.resources(),
                li <= n,
                out@.len() == li,
                forall|i: int| 0 <= i < li ==> #[trigger] list_error(lists[i], images) is None,
                forall|i: int| 0 <= i < li ==> list_matches(#[trigger] out@[i], lists[i]),
            decreases n - li,
        {
            let list = &data.draw_lists[li];
            let ghost idx_len = list.idx_buffer@.len();
            let vertices = build_vertex_arrays(list);
            let mut draws: Vec<VertexDraw> = Vec::new();
            let m = list.commands.len();
            let mut ci: usize = 0;
            while ci < m
                invariant
                    n == lists.len(),
                    lists == data.draw_lists@,
                    images == self.resources(),
                    li < n,
                    out@.len() == li,
                    forall|i: int| 0 <= i < li ==> #[trigger] list_error(lists[i], images) is None,
                    forall|i: int| 0 <= i < li ==> list_matches(#[trigger] out@[i], lists[i]),
                    *list == lists[li as int],
                    idx_len == list.idx_buffer@.len(),
                    m == list.commands@.len(),
                    ci <= m,
                    draws@.len() == ci,
                    forall|i: int| 0 <= i < ci ==> #[trigger] cmd_error(
                        list.commands@[i],
                        images,
                        idx_len,
                    ) is None,
                    forall|i: int| 0 <= i < ci ==> draw_matches(
                        #[trigger] draws@[i],
                        list.commands@[i],
                        list.idx_buffer@,
                    ),
                decreases m - ci,
            {
                let cmd = &list.commands[ci];
                match cmd {
                    DrawCmd::Elements { count, cmd_params } => {
                        if self.lookup(cmd_params.texture_id).is_err() {
                            proof {
                                lemma_commands_error_at(list.commands@, images, idx_len, ci as int);
                                lemma_lists_error_at(lists, images, li as int);
                            }
                            return Err(RenderError::UnknownHandle);
                        }
                        let idx_total = list.idx_buffer.len();
                        if *count > idx_total || cmd_params.idx_offset > idx_total - *count {
                            proof {
                                lemma_commands_error_at(list.commands@, images, idx_len, ci as int);
                                lemma_lists_error_at(lists, images, li as int);
                            }
                            return Err(RenderError::IndexRangeOutOfBounds);
                        }
                        let indices = copy_index_range(
                            &list.idx_buffer,
                            cmd_params.idx_offset,
                            *count,
                        );
                        draws.push(
                            VertexDraw {
                                clip_rect: cmd_params.clip_rect,
                                texture: cmd_params.texture_id,
                                indices,
                            },
                        );
                    },
                    DrawCmd::ResetRenderState => {
                        proof {
                            lemma_commands_error_at(list.commands@, images, idx_len, ci as int);
                            lemma_lists_error_at(lists, images, li as int);
                        }
                        return Err(RenderError::UnsupportedCommand);
                    },
                    DrawCmd::RawCallback => {
                        proof {
                            lemma_commands_error_at(list.commands@, images, idx_len, ci as int);
                            lemma_lists_error_at(lists, images, li as int);
                        }
                        return Err(RenderError::UnsupportedCommand);
                    },
                }
                ci = ci + 1;
            }
            proof {
                lemma_commands_no_error(list.commands@, images, idx_len);
            }
            out.push(TranslatedList { vertices, draws });
            li = li + 1;
        }
        proof {
            lemma_lists_no_error(lists, images);
        }
        Ok(out)
    }
}

/// Handles strictly increase across successive registrations within a
/// session: of two registrations in a row, the second yields a
/// strictly greater handle than the first.
pub proof fn lemma_register_handles_strictly_increase(
    r0: Renderer,
    r1: Renderer,
    r2: Renderer,
    a: DrawableResource,
    b: DrawableResource,
    h1: TextureHandle,
    h2: TextureHandle,
)
    requires
        register_step(r0, r1, a, h1),
        register_step(r1, r2, b, h2),
    ensures
        h1.0 < h2.0,
{
}

/// Construction reserves handle 0 for the font atlas and leaves the
/// counter at 1, so the first registration after construction yields
/// handle 1, not 0.
pub proof fn lemma_first_register_after_new(
    r0: Renderer,
    r1: Renderer,
    a: DrawableResource,
    h: TextureHandle,
)
    requires
        r0.next_handle() == 1,
        register_step(r0, r1, a, h),
    ensures
        h.0 == 1,
{
}

/// A freshly registered resource is exactly what its handle resolves
/// to.
pub proof fn lemma_register_then_lookup(
    r0: Renderer,
    r1: Renderer,
    a: DrawableResource,
    h: TextureHandle,
)
    requires
        register_step(r0, r1, a, h),
    ensures
        lookup_result(r1, h) == Some(a),
{
}

/// A released handle no longer resolves: after a release, looking the
/// handle up yields nothing, which `lookup` surfaces as
/// `UnknownHandle`.
pub proof fn lemma_release_then_lookup(r0: Renderer, r1: Renderer, h: TextureHandle)
    requires
        release_step(r0, r1, h),
    ensures
        lookup_result(r1, h) is None,
{
}

/// Releasing the same handle twice leaves the registry exactly where
/// the first release left it: release is idempotent.
pub proof fn lemma_release_idempotent(r0: Renderer, r1: Renderer, r2: Renderer, h: TextureHandle)
    requires
        release_step(r0, r1, h),
        release_step(r1, r2, h),
    ensures
        r2.resources() == r1.resources(),
        r2.next_handle() == r1.next_handle(),
{
    assert(r1.resources().remove(h.0) =~= r1.resources());
}

/// Releasing a handle that was never issued, or is already gone,
/// changes nothing.
pub proof fn lemma_release_absent_noop(r0: Renderer, r1: Renderer, h: TextureHandle)
    requires
        release_step(r0, r1, h),
        !r0.resources().contains_key(h.0),
    ensures
        r1.resources() == r0.resources(),
        r1.next_handle() == r0.next_handle(),
{
    assert(r0.resources().remove(h.0) =~= r0.resources());
}

/// After an update of a registered handle, the handle resolves to the
/// new resource, not the one registered before.
pub proof fn lemma_update_then_lookup(
    r0: Renderer,
    r1: Renderer,
    h: TextureHandle,
    res: DrawableResource,
)
    requires
        update_step(r0, r1, h, res),
    ensures
        lookup_result(r1, h) == Some(res),
{
}

} // verus!
