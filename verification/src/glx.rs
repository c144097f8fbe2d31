pub mod vertex_attribute;
pub mod vertex_attribute_type;
pub mod vertex_data_type;
pub mod vertex_layout;
