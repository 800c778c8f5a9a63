//! A retained-mode user-interface layout engine: it turns a declarative tree
//! of elements — each carrying a sizing rule, a positioning rule and a flow
//! orientation — into a tree of concrete screen-space rectangles, given the
//! dimensions of a drawing surface, and emits one flat draw primitive per
//! element in paint order for a renderer collaborator to submit.
//!
//! The layout pass (`component::Components::compute_layout`) is specified
//! against pure integer functions in `layout` and proved to compute exactly
//! those functions; `laws` states and proves the engine-wide properties:
//! main-axis space distribution, the invisibility of absolutely-positioned
//! children to the flow, and determinism of resolution. The graphics backend
//! and the window system are outside collaborators and hold no layout logic.

pub mod buffer;
pub mod component;
pub mod event;
pub mod laws;
pub mod layout;
pub mod renderer;
pub mod shader;
pub mod style;
pub mod tree;
pub mod window;

pub use event::Event;
pub use renderer::Quad;
pub use tree::Node;
