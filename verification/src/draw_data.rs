use vstd::prelude::*;

use crate::error::RenderError;
use crate::renderer::TextureHandle;
use crate::resource::DrawableResource;

verus! {

/// A two-component vector, as both the GUI toolkit and the canvas
/// backend carry positions and UV coordinates.
///
/// The components are IEEE-754 single-precision bit patterns. This
/// layer never does arithmetic on coordinates — it only carries them
/// from one side to the other — so it stores them as their raw 32 bits
/// and the surrounding glue converts to and from the backends' floats.
#[derive(Clone, Copy, Debug, PartialEq, Eq, Structural)]
pub struct Point {
    pub x: u32,
    pub y: u32,
}

/// A color in the canvas backend's constructor order: alpha, red,
/// green, blue, one byte per channel.
#[derive(Clone, Copy, Debug, PartialEq, Eq, Structural)]
pub struct Color {
    pub a: u8,
    pub r: u8,
    pub g: u8,
    pub b: u8,
}

/// An axis-aligned clip rectangle, edges as single-precision bit
/// patterns in the order the toolkit supplies them.
#[derive(Clone, Copy, Debug, PartialEq, Eq, Structural)]
pub struct ClipRect {
    pub left: u32,
    pub top: u32,
    pub right: u32,
    pub bottom: u32,
}

/// One vertex as the GUI toolkit supplies it: position and UV as
/// single-precision bit patterns (UV normalized to the unit square by
/// the toolkit's convention), and a packed color as per-channel bytes
/// in the toolkit's red, green, blue, alpha order.
#[derive(Clone, Copy, Debug, PartialEq, Eq, Structural)]
pub struct DrawVert {
    pub pos: Point,
    pub uv: Point,
    pub col_r: u8,
    pub col_g: u8,
    pub col_b: u8,
    pub col_a: u8,
}

/// The parameters carried by an `Elements` draw command: the clip
/// rectangle to apply, the texture handle to resolve, and the offset
/// into the draw list's index buffer at which the command's index
/// range starts.
#[derive(Clone, Copy, Debug, PartialEq, Eq, Structural)]
pub struct DrawCmdParams {
    pub clip_rect: ClipRect,
    pub texture_id: TextureHandle,
    pub idx_offset: usize,
}

/// One instruction within a draw list.
///
/// The command set is an open-ended discriminated union on the toolkit
/// side; translation matches on it exhaustively so that a recognized
/// but unimplemented kind fails loudly instead of being skipped.
#[derive(Clone, Copy, Debug, PartialEq, Eq, Structural)]
pub enum DrawCmd {
    /// Draw `count` indices starting at `cmd_params.idx_offset`, under
    /// `cmd_params.clip_rect`, textured by `cmd_params.texture_id`.
    Elements { count: usize, cmd_params: DrawCmdParams },
    /// The backend must restore a known baseline render state; not
    /// implemented by this backend.
    ResetRenderState,
    /// An opaque application-supplied callback; not implemented by
    /// this backend.
    RawCallback,
}

/// One GUI window's or layer's batch for a single frame: an ordered
/// vertex buffer, an ordered 16-bit index buffer, and an ordered
/// command sequence.
#[derive(Clone, Debug, PartialEq)]
pub struct DrawList {
    pub vtx_buffer: Vec<DrawVert>,
    pub idx_buffer: Vec<u16>,
    pub commands: Vec<DrawCmd>,
}

/// The whole frame's geometry: an ordered sequence of draw lists,
/// supplied fresh each frame by the GUI toolkit.
#[derive(Clone, Debug, PartialEq)]
pub struct DrawData {
    pub draw_lists: Vec<DrawList>,
}

/// The three parallel per-vertex arrays in the canvas backend's
/// native layout, built by copying every vertex of one draw list
/// exactly once in original order.
#[derive(Clone, Debug, PartialEq)]
pub struct CanvasVertices {
    pub positions: Vec<Point>,
    pub uvs: Vec<Point>,
    pub colors: Vec<Color>,
}

/// One triangle-list vertex draw against the canvas: apply
/// `clip_rect` with intersect semantics and anti-aliased edges, bind
/// the resource registered under `texture`, and draw the full per-list
/// vertex arrays through `indices` (an owned copy of the command's
/// index subrange) with modulate blending.
#[derive(Clone, Debug, PartialEq)]
pub struct VertexDraw {
    pub clip_rect: ClipRect,
    pub texture: TextureHandle,
    pub indices: Vec<u16>,
}

/// Everything the canvas backend needs to render one draw list: the
/// converted vertex arrays and one vertex draw per command, in
/// command order.
#[derive(Clone, Debug, PartialEq)]
pub struct TranslatedList {
    pub vertices: CanvasVertices,
    pub draws: Vec<VertexDraw>,
}

/// The canvas-native position of a vertex: carried over unmodified.
pub open spec fn vertex_point(v: DrawVert) -> Point {
    v.pos
}

/// The canvas-native UV of a vertex: carried over unmodified.
pub open spec fn vertex_uv(v: DrawVert) -> Point {
    v.uv
}

/// The canvas-native color of a vertex: the toolkit's red, green,
/// blue, alpha bytes renormalized into the backend constructor's
/// alpha, red, green, blue order, each channel value unchanged.
pub open spec fn vertex_color(v: DrawVert) -> Color {
    Color { a: v.col_a, r: v.col_r, g: v.col_g, b: v.col_b }
}

/// Whether one draw command fails, and how, against a registry state
/// `images` and a draw list whose index buffer has length `idx_len`.
///
/// An `Elements` command fails with `UnknownHandle` when its texture
/// is not registered, otherwise with `IndexRangeOutOfBounds` when its
/// index range does not lie within the index buffer; the recognized
/// but unimplemented kinds fail with `UnsupportedCommand`.
pub open spec fn cmd_error(
    cmd: DrawCmd,
    images: Map<usize, DrawableResource>,
    idx_len: nat,
) -> Option<RenderError> {
    match cmd {
        DrawCmd::Elements { count, cmd_params } => {
            if !images.contains_key(cmd_params.texture_id.0) {
                Some(RenderError::UnknownHandle)
            } else if cmd_params.idx_offset + count > idx_len {
                Some(RenderError::IndexRangeOutOfBounds)
            } else {
                None
            }
        },
        DrawCmd::ResetRenderState => Some(RenderError::UnsupportedCommand),
        DrawCmd::RawCallback => Some(RenderError::UnsupportedCommand),
    }
}

/// The first failure among a command sequence, in array order, or
/// `None` when every command translates.
pub open spec fn commands_first_error(
    cmds: Seq<DrawCmd>,
    images: Map<usize, DrawableResource>,
    idx_len: nat,
) -> Option<RenderError>
    decreases cmds.len(),
{
    if cmds.len() == 0 {
        None
    } else if cmd_error(cmds[0], images, idx_len) is Some {
        cmd_error(cmds[0], images, idx_len)
    } else {
        commands_first_error(cmds.drop_first(), images, idx_len)
    }
}

/// The first failure within one draw list, or `None` when the whole
/// list translates.
pub open spec fn list_error(
    list: DrawList,
    images: Map<usize, DrawableResource>,
) -> Option<RenderError> {
    commands_first_error(list.commands@, images, list.idx_buffer@.len())
}

/// The first failure across a frame's draw lists, in order, or `None`
/// when the whole frame translates.
pub open spec fn lists_first_error(
    lists: Seq<DrawList>,
    images: Map<usize, DrawableResource>,
) -> Option<RenderError>
    decreases lists.len(),
{
    if lists.len() == 0 {
        None
    } else if list_error(lists[0], images) is Some {
        list_error(lists[0], images)
    } else {
        lists_first_error(lists.drop_first(), images)
    }
}

/// The canvas vertex arrays hold exactly the list's vertices, each
/// converted once, in original order.
pub open spec fn vertices_match(cv: CanvasVertices, vtx: Seq<DrawVert>) -> bool {
    &&& cv.positions@.len() == vtx.len()
    &&& cv.uvs@.len() == vtx.len()
    &&& cv.colors@.len() == vtx.len()
    &&& forall|i: int| 0 <= i < vtx.len() ==> #[trigger] cv.positions@[i] == vertex_point(vtx[i])
    &&& forall|i: int| 0 <= i < vtx.len() ==> #[trigger] cv.uvs@[i] == vertex_uv(vtx[i])
    &&& forall|i: int| 0 <= i < vtx.len() ==> #[trigger] cv.colors@[i] == vertex_color(vtx[i])
}

/// The vertex draw is the translation of one `Elements` command: same
/// clip rectangle, same texture handle, and an index slice holding
/// exactly the command's subrange of the list's index buffer `idx`,
/// in original order. The unimplemented command kinds translate to no
/// draw at all.
pub open spec fn draw_matches(d: VertexDraw, cmd: DrawCmd, idx: Seq<u16>) -> bool {
    match cmd {
        DrawCmd::Elements { count, cmd_params } => {
            &&& d.clip_rect == cmd_params.clip_rect
            &&& d.texture == cmd_params.texture_id
            &&& d.indices@.len() == count
            &&& forall|k: int| 0 <= k < count ==> #[trigger] d.indices@[k] == idx[
                cmd_params.idx_offset + k]
        },
        DrawCmd::ResetRenderState => false,
        DrawCmd::RawCallback => false,
    }
}

/// The translated list carries the list's converted vertex arrays and
/// exactly one vertex draw per command, in command order.
pub open spec fn list_matches(t: TranslatedList, list: DrawList) -> bool {
    &&& vertices_match(t.vertices, list.vtx_buffer@)
    &&& t.draws@.len() == list.commands@.len()
    &&& forall|i: int| 0 <= i < list.commands@.len() ==> draw_matches(
        #[trigger] t.draws@[i],
        list.commands@[i],
        list.idx_buffer@,
    )
}

/// The frame's translation output holds one translated list per draw
/// list, in order.
pub open spec fn translation_matches(out: Seq<TranslatedList>, lists: Seq<DrawList>) -> bool {
    &&& out.len() == lists.len()
    &&& forall|i: int| 0 <= i < lists.len() ==> list_matches(#[trigger] out[i], lists[i])
}

/// Builds the three parallel canvas-native vertex arrays for one draw
/// list, copying every vertex exactly once in original order and
/// renormalizing each packed color through the explicit
/// from-components constructor order.
pub fn build_vertex_arrays(list: &DrawList) -> (cv: CanvasVertices)
    ensures
        vertices_match(cv, list.vtx_buffer@),
{
    let n = list.vtx_buffer.len();
    let mut positions: Vec<Point> = Vec::new();
    let mut uvs: Vec<Point> = Vec::new();
    let mut colors: Vec<Color> = Vec::new();
    let mut vi: usize = 0;
    while vi < n
        invariant
            n == list.vtx_buffer@.len(),
            vi <= n,
            positions@.len() == vi,
            uvs@.len() == vi,
            colors@.len() == vi,
            forall|i: int| 0 <= i < vi ==> #[trigger] positions@[i] == vertex_point(
                list.vtx_buffer@[i],
            ),
            forall|i: int| 0 <= i < vi ==> #[trigger] uvs@[i] == vertex_uv(list.vtx_buffer@[i]),
            forall|i: int| 0 <= i < vi ==> #[trigger] colors@[i] == vertex_color(
                list.vtx_buffer@[i],
            ),
        decreases n - vi,
    {
        let v = &list.vtx_buffer[vi];
        positions.push(v.pos);
        uvs.push(v.uv);
        colors.push(Color { a: v.col_a, r: v.col_r, g: v.col_g, b: v.col_b });
        vi = vi + 1;
    }
    CanvasVertices { positions, uvs, colors }
}

/// Copies the subrange `[offset, offset + count)` of a draw list's
/// index buffer into an owned slice, in original order.
pub fn copy_index_range(idx: &Vec<u16>, offset: usize, count: usize) -> (r: Vec<u16>)
    requires
        offset + count <= idx@.len(),
    ensures
        r@.len() == count,
        forall|k: int| 0 <= k < count ==> #[trigger] r@[k] == idx@[offset + k],
{
    let total = idx.len();
    let mut r: Vec<u16> = Vec::new();
    let mut k: usize = 0;
    while k < count
        invariant
            offset + count <= total,
            total == idx@.len(),
            k <= count,
            r@.len() == k,
            forall|j: int| 0 <= j < k ==> #[trigger] r@[j] == idx@[offset + j],
        decreases count - k,
    {
        r.push(idx[offset + k]);
        k = k + 1;
    }
    r
}

/// Skipping a prefix of commands that all translate does not change
/// which failure comes first.
pub(crate) proof fn lemma_commands_first_error_prefix(
    cmds: Seq<DrawCmd>,
    images: Map<usize, DrawableResource>,
    idx_len: nat,
    j: int,
)
    requires
        0 <= j <= cmds.len(),
        forall|i: int| 0 <= i < j ==> #[trigger] cmd_error(cmds[i], images, idx_len) is None,
    ensures
        commands_first_error(cmds, images, idx_len) == commands_first_error(
            cmds.subrange(j, cmds.len() as int),
            images,
            idx_len,
        ),
    decreases j,
{
    if j == 0 {
        assert(cmds.subrange(0, cmds.len() as int) =~= cmds);
    } else {
        let rest = cmds.drop_first();
        assert(forall|i: int| 0 <= i < j - 1 ==> #[trigger] cmd_error(rest[i], images, idx_len)
            is None) by {
            assert(forall|i: int| 0 <= i < j - 1 ==> rest[i] == cmds[i + 1]);
        }
        lemma_commands_first_error_prefix(rest, images, idx_len, j - 1);
        assert(rest.subrange(j - 1, rest.len() as int) =~= cmds.subrange(j, cmds.len() as int));
    }
}

/// A command sequence whose every command translates has no first
/// failure.
pub(crate) proof fn lemma_commands_no_error(
    cmds: Seq<DrawCmd>,
    images: Map<usize, DrawableResource>,
    idx_len: nat,
)
    requires
        forall|i: int| 0 <= i < cmds.len() ==> #[trigger] cmd_error(cmds[i], images, idx_len)
            is None,
    ensures
        commands_first_error(cmds, images, idx_len) is None,
{
    lemma_commands_first_error_prefix(cmds, images, idx_len, cmds.len() as int);
    assert(cmds.subrange(cmds.len() as int, cmds.len() as int).len() == 0);
}

/// When every command before position `j` translates and the command
/// at `j` fails, that failure is the sequence's first failure.
pub(crate) proof fn lemma_commands_error_at(
    cmds: Seq<DrawCmd>,
    images: Map<usize, DrawableResource>,
    idx_len: nat,
    j: int,
)
    requires
        0 <= j < cmds.len(),
        forall|i: int| 0 <= i < j ==> #[trigger] cmd_error(cmds[i], images, idx_len) is None,
        cmd_error(cmds[j], images, idx_len) is Some,
    ensures
        commands_first_error(cmds, images, idx_len) == cmd_error(cmds[j], images, idx_len),
{
    lemma_commands_first_error_prefix(cmds, images, idx_len, j);
    let tail = cmds.subrange(j, cmds.len() as int);
    assert(tail[0] == cmds[j]);
}

/// Skipping a prefix of draw lists that all translate does not change
/// which failure comes first.
pub(crate) proof fn lemma_lists_first_error_prefix(
    lists: Seq<DrawList>,
    images: Map<usize, DrawableResource>,
    j: int,
)
    requires
        0 <= j <= lists.len(),
        forall|i: int| 0 <= i < j ==> #[trigger] list_error(lists[i], images) is None,
    ensures
        lists_first_error(lists, images) == lists_first_error(
            lists.subrange(j, lists.len() as int),
            images,
        ),
    decreases j,
{
    if j == 0 {
        assert(lists.subrange(0, lists.len() as int) =~= lists);
    } else {
        let rest = lists.drop_first();
        assert(forall|i: int| 0 <= i < j - 1 ==> #[trigger] list_error(rest[i], images) is None)
            by {
            assert(forall|i: int| 0 <= i < j - 1 ==> rest[i] == lists[i + 1]);
        }
        lemma_lists_first_error_prefix(rest, images, j - 1);
        assert(rest.subrange(j - 1, rest.len() as int) =~= lists.subrange(j, lists.len() as int));
    }
}

/// A frame whose every draw list translates has no first failure.
pub(crate) proof fn lemma_lists_no_error(lists: Seq<DrawList>, images: Map<usize, DrawableResource>)
    requires
        forall|i: int| 0 <= i < lists.len() ==> #[trigger] list_error(lists[i], images) is None,
    ensures
        lists_first_error(lists, images) is None,
{
    lemma_lists_first_error_prefix(lists, images, lists.len() as int);
    assert(lists.subrange(lists.len() as int, lists.len() as int).len() == 0);
}

/// A draw list carrying a single `Elements` command that covers the
/// whole index buffer from offset zero, with its texture registered,
/// translates without failure, and any translation of it carries
/// exactly one vertex draw, whose index slice is the full index
/// buffer in original order.
pub proof fn lemma_full_buffer_command_draws_all(
    images: Map<usize, DrawableResource>,
    list: DrawList,
    t: TranslatedList,
    count: usize,
    cmd_params: DrawCmdParams,
)
    requires
        list.commands@.len() == 1,
        list.commands@[0] == (DrawCmd::Elements { count, cmd_params }),
        count == list.idx_buffer@.len(),
        cmd_params.idx_offset == 0,
        images.contains_key(cmd_params.texture_id.0),
        list_matches(t, list),
    ensures
        list_error(list, images) is None,
        t.draws@.len() == 1,
        t.draws@[0].indices@ == list.idx_buffer@,
{
    let idx_len = list.idx_buffer@.len();
    assert(cmd_error(list.commands@[0], images, idx_len) is None);
    assert(list.commands@.drop_first().len() == 0);
    assert(commands_first_error(list.commands@.drop_first(), images, idx_len) is None);
    assert(draw_matches(t.draws@[0], list.commands@[0], list.idx_buffer@));
    assert(t.draws@[0].indices@ =~= list.idx_buffer@);
}

/// An `Elements` command whose index range runs past the list's index
/// buffer is rejected with `IndexRangeOutOfBounds` even when its
/// texture is registered; the translator then fails the frame and
/// issues no draw for it.
pub proof fn lemma_out_of_range_command_rejected(
    images: Map<usize, DrawableResource>,
    count: usize,
    cmd_params: DrawCmdParams,
    idx_len: nat,
)
    requires
        images.contains_key(cmd_params.texture_id.0),
        cmd_params.idx_offset + count > idx_len,
    ensures
        cmd_error((DrawCmd::Elements { count, cmd_params }), images, idx_len) == Some(
            RenderError::IndexRangeOutOfBounds,
        ),
{
}

/// An `Elements` command referencing a handle that is not registered
/// is rejected with `UnknownHandle`, whatever its index range; there
/// is no silent fallback.
pub proof fn lemma_unregistered_handle_rejected(
    images: Map<usize, DrawableResource>,
    count: usize,
    cmd_params: DrawCmdParams,
    idx_len: nat,
)
    requires
        !images.contains_key(cmd_params.texture_id.0),
    ensures
        cmd_error((DrawCmd::Elements { count, cmd_params }), images, idx_len) == Some(
            RenderError::UnknownHandle,
        ),
{
}

/// Round trip: every vertex position and UV handed to translation
/// appears unmodified, in value and in order, in the canvas-native
/// arrays of the translated frame.
pub proof fn lemma_round_trip_vertex_data(out: Seq<TranslatedList>, lists: Seq<DrawList>)
    requires
        translation_matches(out, lists),
    ensures
        forall|i: int, j: int|
            0 <= i < lists.len() && 0 <= j < lists[i].vtx_buffer@.len() ==> {
                &&& #[trigger] out[i].vertices.positions@[j] == lists[i].vtx_buffer@[j].pos
                &&& out[i].vertices.uvs@[j] == lists[i].vtx_buffer@[j].uv
            },
{
    assert forall|i: int, j: int|
        0 <= i < lists.len() && 0 <= j < lists[i].vtx_buffer@.len() implies {
        &&& #[trigger] out[i].vertices.positions@[j] == lists[i].vtx_buffer@[j].pos
        &&& out[i].vertices.uvs@[j] == lists[i].vtx_buffer@[j].uv
    } by {
        assert(list_matches(out[i], lists[i]));
        assert(out[i].vertices.positions@[j] == vertex_point(lists[i].vtx_buffer@[j]));
        assert(out[i].vertices.uvs@[j] == vertex_uv(lists[i].vtx_buffer@[j]));
    }
}

/// When every draw list before position `j` translates and the list
/// at `j` fails, that list's first failure is the frame's first
/// failure.
pub(crate) proof fn lemma_lists_error_at(
    lists: Seq<DrawList>,
    images: Map<usize, DrawableResource>,
    j: int,
)
    requires
        0 <= j < lists.len(),
        forall|i: int| 0 <= i < j ==> #[trigger] list_error(lists[i], images) is None,
        list_error(lists[j], images) is Some,
    ensures
        lists_first_error(lists, images) == list_error(lists[j], images),
{
    lemma_lists_first_error_prefix(lists, images, j);
    let tail = lists.subrange(j, lists.len() as int);
    assert(tail[0] == lists[j]);
}

} // verus!
