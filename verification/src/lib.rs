//! Capability negotiation and resource lifecycle for an explicit,
//! Vulkan-class graphics API.
//!
//! The crate holds the decisions of the engine: which entry points must be
//! resolved, which physical device and queue families satisfy a request,
//! which memory type an allocation uses, how command buffers move between
//! idle and recording, and how a swapchain is configured and recreated.
//! Native calls are made by the embedding program, which hands their
//! replies to the functions of this crate as plain values.
#![allow(non_snake_case)]
#![allow(non_camel_case_types)]
#![allow(non_upper_case_globals)]

pub mod vulkan_bindings;
pub mod extension_names;
pub mod entry_points;
pub mod entry_tables;
pub mod queue_negotiation;
pub mod physical_device;
pub mod logical_device;
pub mod vulkan_init;
pub mod vulkan_mem;
pub mod vulkan_synchro;
pub mod system_window;
pub mod vulkan_window;
