//! Pixly kernel: format knowledge, conversion planning and validation rules
//! for an image conversion tool, with their contracts proved by Verus.

use vstd::prelude::*;

pub mod text;
pub mod floatbits;
pub mod tools;
pub mod paths;
pub mod formats;
pub mod conversion_validator;
pub mod validation_integration;
pub mod format_params;
pub mod core_processor;
pub mod format_selector;
pub mod gif_handler;
pub mod gif_optimizer;
pub mod log_manager;
pub mod memory_manager;
pub mod managed_memory;
pub mod media_analyzer;
pub mod metadata_processor;
pub mod modern_formats;
pub mod performance;
pub mod preprocessing;
pub mod image_analyzer;
pub mod format_optimizer;
pub mod gif_animation_strategy;
pub mod filename_normalizer;
pub mod feature_toggles;
pub mod conversion_core;
pub mod batch_queue;
pub mod dependency_checker;
pub mod file_collector;
pub mod dynamic_concurrency;
pub mod progress;
pub mod file_detector;
pub mod format_recommender;
pub mod gpu_accelerator;
pub mod image_converter;
pub mod params;
pub mod optimization_analyzer;
pub mod format_knowledge;
pub mod ml_bridge;
pub mod model_router;
pub mod ppo_model_enhanced;
pub mod xmp_merge;
pub mod errors;
pub mod eagle_adapter;

verus! {

} // verus!
