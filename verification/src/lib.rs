use vstd::prelude::*;

pub mod scheme_style;
pub mod share_ptr;
pub mod string_w;
pub mod property_key;
pub mod state;
pub mod color_type;
pub mod color;
pub mod property;
pub mod rb_tree;
pub mod property_bag;
pub mod scene3d;
pub mod sp3d;
pub mod brush;
pub mod pen;
pub mod flag;
pub mod shape_render_converter;
pub mod outer_shadow;
pub mod reflection;
pub mod run_property;
pub mod shape_segment;
pub mod shape_path;
pub mod shape_engine;
pub mod render_util;
pub mod path;
pub mod path_util;
pub mod paths;
pub mod pixel_diff_harness;
pub mod shape_render_brush;

verus! {
}
