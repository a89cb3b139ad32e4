
mod draw_data;
mod error;
mod renderer;
mod resource;

pub use draw_data::CanvasVertices;
pub use draw_data::ClipRect;
pub use draw_data::Color;
pub use draw_data::DrawCmd;
pub use draw_data::DrawCmdParams;
pub use draw_data::DrawData;
pub use draw_data::DrawList;
pub use draw_data::DrawVert;
pub use draw_data::Point;
pub use draw_data::TranslatedList;
pub use draw_data::VertexDraw;
pub use draw_data::build_vertex_arrays;
pub use draw_data::cmd_error;
pub use draw_data::commands_first_error;
pub use draw_data::copy_index_range;
pub use draw_data::draw_matches;
pub use draw_data::lemma_full_buffer_command_draws_all;
pub use draw_data::lemma_out_of_range_command_rejected;
pub use draw_data::lemma_round_trip_vertex_data;
pub use draw_data::lemma_unregistered_handle_rejected;
pub use draw_data::list_error;
pub use draw_data::list_matches;
pub use draw_data::lists_first_error;
pub use draw_data::translation_matches;
pub use draw_data::vertex_color;
pub use draw_data::vertex_point;
pub use draw_data::vertex_uv;
pub use draw_data::vertices_match;
pub use error::RenderError;
pub use renderer::Renderer;
pub use renderer::TextureHandle;
pub use renderer::lemma_first_register_after_new;
pub use renderer::lemma_register_handles_strictly_increase;
pub use renderer::lemma_register_then_lookup;
pub use renderer::lemma_release_absent_noop;
pub use renderer::lemma_release_idempotent;
pub use renderer::lemma_release_then_lookup;
pub use renderer::lemma_update_then_lookup;
pub use renderer::lookup_result;
pub use renderer::register_step;
pub use renderer::release_step;
pub use renderer::update_step;
pub use resource::ChannelFormat;
pub use resource::DrawableResource;
pub use resource::valid_image;
