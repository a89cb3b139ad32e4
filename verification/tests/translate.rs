use imgui_skia::ChannelFormat;
use imgui_skia::ClipRect;
use imgui_skia::Color;
use imgui_skia::DrawCmd;
use imgui_skia::DrawCmdParams;
use imgui_skia::DrawData;
use imgui_skia::DrawList;
use imgui_skia::DrawVert;
use imgui_skia::DrawableResource;
use imgui_skia::Point;
use imgui_skia::RenderError;
use imgui_skia::Renderer;
use imgui_skia::TextureHandle;

fn renderer_with_atlas() -> Renderer {
    Renderer::new(vec![0, 0, 0, 0], 2, 2).unwrap()
}

fn rgba(bytes: Vec<u8>, w: u32, h: u32) -> DrawableResource {
    DrawableResource::build(bytes, w, h, ChannelFormat::Rgba8).unwrap()
}

fn pt(x: f32, y: f32) -> Point {
    Point { x: x.to_bits(), y: y.to_bits() }
}

fn vert(px: f32, py: f32, u: f32, v: f32, col: [u8; 4]) -> DrawVert {
    DrawVert {
        pos: pt(px, py),
        uv: pt(u, v),
        col_r: col[0],
        col_g: col[1],
        col_b: col[2],
        col_a: col[3],
    }
}

fn unit_clip() -> ClipRect {
    ClipRect {
        left: 0.0f32.to_bits(),
        top: 0.0f32.to_bits(),
        right: 100.0f32.to_bits(),
        bottom: 50.0f32.to_bits(),
    }
}

fn triangle_list(texture: TextureHandle) -> DrawList {
    DrawList {
        vtx_buffer: vec![
            vert(0.0, 0.0, 0.0, 0.0, [255, 0, 0, 255]),
            vert(10.0, 0.0, 1.0, 0.0, [0, 255, 0, 128]),
            vert(0.0, 10.0, 0.0, 1.0, [0, 0, 255, 64]),
        ],
        idx_buffer: vec![0, 1, 2],
        commands: vec![DrawCmd::Elements {
            count: 3,
            cmd_params: DrawCmdParams {
                clip_rect: unit_clip(),
                texture_id: texture,
                idx_offset: 0,
            },
        }],
    }
}

#[test]
fn empty_frame_translates_to_nothing() {
    let ren = renderer_with_atlas();
    let out = ren.render_imgui(&DrawData { draw_lists: Vec::new() }).unwrap();
    assert!(out.is_empty());
}

#[test]
fn full_buffer_single_command_issues_one_draw() {
    let ren = renderer_with_atlas();
    let data = DrawData { draw_lists: vec![triangle_list(TextureHandle(0))] };
    let out = ren.render_imgui(&data).unwrap();
    assert_eq!(out.len(), 1);
    assert_eq!(out[0].draws.len(), 1);
    let draw = &out[0].draws[0];
    assert_eq!(draw.indices, vec![0, 1, 2]);
    assert_eq!(draw.texture, TextureHandle(0));
    assert_eq!(draw.clip_rect, unit_clip());
}

#[test]
fn round_trip_positions_and_uvs_unmodified_in_order() {
    let ren = renderer_with_atlas();
    let data = DrawData { draw_lists: vec![triangle_list(TextureHandle(0))] };
    let out = ren.render_imgui(&data).unwrap();
    let cv = &out[0].vertices;
    assert_eq!(cv.positions, vec![pt(0.0, 0.0), pt(10.0, 0.0), pt(0.0, 10.0)]);
    assert_eq!(cv.uvs, vec![pt(0.0, 0.0), pt(1.0, 0.0), pt(0.0, 1.0)]);
    assert_eq!(f32::from_bits(cv.positions[1].x), 10.0);
    assert_eq!(f32::from_bits(cv.uvs[1].x), 1.0);
}

#[test]
fn colors_are_renormalized_into_argb_order() {
    let ren = renderer_with_atlas();
    let data = DrawData { draw_lists: vec![triangle_list(TextureHandle(0))] };
    let out = ren.render_imgui(&data).unwrap();
    let colors = &out[0].vertices.colors;
    assert_eq!(colors[0], Color { a: 255, r: 255, g: 0, b: 0 });
    assert_eq!(colors[1], Color { a: 128, r: 0, g: 255, b: 0 });
    assert_eq!(colors[2], Color { a: 64, r: 0, g: 0, b: 255 });
}

#[test]
fn index_subrange_is_sliced_in_order() {
    let mut ren = renderer_with_atlas();
    let h = ren.register_image(rgba(vec![0; 4], 1, 1));
    let mut list = triangle_list(h);
    list.idx_buffer = vec![0, 1, 2, 2, 1, 0];
    list.commands = vec![DrawCmd::Elements {
        count: 3,
        cmd_params: DrawCmdParams {
            clip_rect: unit_clip(),
            texture_id: h,
            idx_offset: 2,
        },
    }];
    let out = ren.render_imgui(&DrawData { draw_lists: vec![list] }).unwrap();
    assert_eq!(out[0].draws[0].indices, vec![2, 2, 1]);
}

#[test]
fn out_of_range_index_slice_fails() {
    let ren = renderer_with_atlas();
    let mut list = triangle_list(TextureHandle(0));
    list.commands = vec![DrawCmd::Elements {
        count: 3,
        cmd_params: DrawCmdParams {
            clip_rect: unit_clip(),
            texture_id: TextureHandle(0),
            idx_offset: 1,
        },
    }];
    let r = ren.render_imgui(&DrawData { draw_lists: vec![list] });
    assert_eq!(r.unwrap_err(), RenderError::IndexRangeOutOfBounds);
}

#[test]
fn unregistered_texture_handle_fails() {
    let ren = renderer_with_atlas();
    let data = DrawData { draw_lists: vec![triangle_list(TextureHandle(5))] };
    let r = ren.render_imgui(&data);
    assert_eq!(r.unwrap_err(), RenderError::UnknownHandle);
}

#[test]
fn released_texture_handle_fails_translation() {
    let mut ren = renderer_with_atlas();
    let h = ren.register_image(rgba(vec![0; 4], 1, 1));
    ren.release_image(h);
    let r = ren.render_imgui(&DrawData { draw_lists: vec![triangle_list(h)] });
    assert_eq!(r.unwrap_err(), RenderError::UnknownHandle);
}

#[test]
fn unknown_handle_takes_precedence_over_index_range() {
    let ren = renderer_with_atlas();
    let mut list = triangle_list(TextureHandle(9));
    list.commands = vec![DrawCmd::Elements {
        count: 4000,
        cmd_params: DrawCmdParams {
            clip_rect: unit_clip(),
            texture_id: TextureHandle(9),
            idx_offset: 0,
        },
    }];
    let r = ren.render_imgui(&DrawData { draw_lists: vec![list] });
    assert_eq!(r.unwrap_err(), RenderError::UnknownHandle);
}

#[test]
fn reset_render_state_is_unsupported() {
    let ren = renderer_with_atlas();
    let mut list = triangle_list(TextureHandle(0));
    list.commands = vec![DrawCmd::ResetRenderState];
    let r = ren.render_imgui(&DrawData { draw_lists: vec![list] });
    assert_eq!(r.unwrap_err(), RenderError::UnsupportedCommand);
}

#[test]
fn raw_callback_is_unsupported() {
    let ren = renderer_with_atlas();
    let mut list = triangle_list(TextureHandle(0));
    list.commands = vec![DrawCmd::RawCallback];
    let r = ren.render_imgui(&DrawData { draw_lists: vec![list] });
    assert_eq!(r.unwrap_err(), RenderError::UnsupportedCommand);
}

#[test]
fn first_failing_command_across_lists_wins() {
    let ren = renderer_with_atlas();
    let good = triangle_list(TextureHandle(0));
    let mut second = triangle_list(TextureHandle(0));
    second.commands = vec![DrawCmd::RawCallback];
    let mut third = triangle_list(TextureHandle(41));
    third.commands[0] = DrawCmd::Elements {
        count: 3,
        cmd_params: DrawCmdParams {
            clip_rect: unit_clip(),
            texture_id: TextureHandle(41),
            idx_offset: 0,
        },
    };
    let r = ren.render_imgui(&DrawData { draw_lists: vec![good, second, third] });
    assert_eq!(r.unwrap_err(), RenderError::UnsupportedCommand);
}

#[test]
fn later_command_failure_follows_earlier_success() {
    let ren = renderer_with_atlas();
    let mut list = triangle_list(TextureHandle(0));
    list.commands.push(DrawCmd::Elements {
        count: 1,
        cmd_params: DrawCmdParams {
            clip_rect: unit_clip(),
            texture_id: TextureHandle(0),
            idx_offset: 3,
        },
    });
    let r = ren.render_imgui(&DrawData { draw_lists: vec![list] });
    assert_eq!(r.unwrap_err(), RenderError::IndexRangeOutOfBounds);
}

#[test]
fn each_command_yields_its_own_draw_in_order() {
    let mut ren = renderer_with_atlas();
    let h = ren.register_image(rgba(vec![0; 4], 1, 1));
    let mut list = triangle_list(TextureHandle(0));
    list.idx_buffer = vec![0, 1, 2, 1, 2, 0];
    list.commands.push(DrawCmd::Elements {
        count: 3,
        cmd_params: DrawCmdParams {
            clip_rect: unit_clip(),
            texture_id: h,
            idx_offset: 3,
        },
    });
    let out = ren.render_imgui(&DrawData { draw_lists: vec![list] }).unwrap();
    assert_eq!(out[0].draws.len(), 2);
    assert_eq!(out[0].draws[0].indices, vec![0, 1, 2]);
    assert_eq!(out[0].draws[0].texture, TextureHandle(0));
    assert_eq!(out[0].draws[1].indices, vec![1, 2, 0]);
    assert_eq!(out[0].draws[1].texture, h);
}
