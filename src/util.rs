pub mod aggregator_obj;
pub mod buffer_obj;
