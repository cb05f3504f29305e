//! The laws that the library states of its writers: proof functions whose
//! statements say what the writers produce, over all inputs.

pub use crate::actions::{
    lemma_action_type_names,
};
pub use crate::annotations::{
    lemma_annotation_type_names,
    lemma_annotation_icon_names,
    lemma_icon_scale_names,
    lemma_icon_scale_type_names,
    lemma_highlight_effect_names,
    lemma_border_type_names,
};
pub use crate::attributes::{
    lemma_placement_names,
    lemma_writing_mode_names,
    lemma_layout_border_style_names,
    lemma_text_align_names,
    lemma_block_align_names,
    lemma_inline_align_names,
    lemma_text_decoration_type_names,
    lemma_ruby_align_names,
    lemma_ruby_position_names,
    lemma_list_numbering_names,
    lemma_field_role_names,
    lemma_field_check_state_names,
    lemma_table_heading_scope_names,
    lemma_attribute_owner_names,
};
pub use crate::buf::{
    lemma_decimal_digits_read_back,
    lemma_decimal_read_back,
};
pub use crate::color::{
    lemma_color_space_type_names,
    lemma_device_n_subtype_names,
    lemma_paint_type_numbers,
    lemma_tiling_type_numbers,
    lemma_shading_type_numbers,
    lemma_output_intent_subtype_names,
};
pub use crate::content::{
    lemma_save_restore_depth,
    lemma_line_cap_style_numbers,
    lemma_line_join_style_numbers,
    lemma_rendering_intent_names,
    lemma_text_rendering_mode_numbers,
    lemma_color_space_operand_names,
    lemma_artifact_type_names,
    lemma_artifact_subtype_names,
    lemma_artifact_attachment_names,
    lemma_proc_set_names,
    lemma_blend_mode_names,
    lemma_overprint_mode_numbers,
    lemma_mask_type_names,
};
pub use crate::font::{
    lemma_cid_font_type_names,
    lemma_cjk_class_names,
    lemma_font_stretch_names,
    lemma_w_mode_numbers,
    lemma_cmap_line_read_back,
};
pub use crate::forms::{
    lemma_field_type_names,
    lemma_check_box_state_names,
    lemma_signature_lock_action_names,
    lemma_signature_digest_method_names,
    lemma_seed_value_parser_version_numbers,
    lemma_access_permissions_numbers,
    lemma_mdp_signature_type_numbers,
    lemma_locking_intent_names,
    lemma_certificate_url_type_names,
};
pub use crate::functions::{
    lemma_function_type_numbers,
    lemma_interpolation_order_numbers,
    lemma_ps_operator_keywords,
};
pub use crate::object::{
    lemma_ref_id_injective,
    lemma_str_round_trip,
    lemma_name_round_trip,
    lemma_filter_names,
    lemma_text_str_round_trip,
    lemma_predictor_numbers,
};
pub use crate::renditions::{
    lemma_rendition_type_names,
    lemma_media_clip_type_names,
};
pub use crate::structure::{
    lemma_role_mapped_iff_no_counterpart,
    lemma_pdf_1_7_round_trip,
    lemma_pdf_2_0_round_trip,
    lemma_role_conversion_keeps_name,
    lemma_heading_levels,
    lemma_page_layout_names,
    lemma_page_mode_names,
    lemma_struct_role_names,
    lemma_phonetic_alphabet_names,
    lemma_direction_names,
    lemma_numbering_style_names,
    lemma_trapping_status_names,
    lemma_tab_order_names,
    lemma_struct_role_2_names,
};
pub use crate::xobject::{
    lemma_s_mask_in_data_numbers,
};
pub use crate::xref::{
    lemma_max_id,
    lemma_sorted_max_id,
    lemma_same_pairs_same_entries,
    lemma_next_free_unused,
    lemma_next_free_used,
};
