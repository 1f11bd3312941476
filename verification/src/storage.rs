//! Where the record of a channel lives, and how it is set up and torn down.

pub mod abstractions;
pub mod arena;
pub mod external;
pub mod global;

pub use abstractions::{attached, Storage};
pub use arena::Arena;
pub use external::{ChannelStorage, External};
pub use global::Global;
