//! What the renderer keeps resident in graphics memory.

pub mod terrain_buffers;
