//! Screen magnifier core: the shared zoom level and its controller, the
//! capture region around the pointer, nearest-neighbour scaling of captured
//! pixels, placement of the magnifier window and routing of input events.

pub mod capture;
pub mod events;
pub mod frame;
pub mod placement;
pub mod scale;
pub mod zoom;
