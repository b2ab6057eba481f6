//! Taconite: reactive state, layers that read that state, and a screen framework.
//!
//! Data flows one way: a writable cell, derived read-only views, layers. Layers read what
//! they need when they are painted and never own a copy. An update mutates the cell and asks
//! for a repaint; the next paint pulls everything fresh through the read chain.
//!
//! The library holds the rules; what the display and the phone have to do is handed back as
//! plain values: repaints to ask for, animations to schedule, steps to run, operations to
//! draw.
pub mod animation;
pub mod calls;
pub mod cell;
pub mod graphics;
pub mod indicator;
pub mod laws;
pub mod layer;
pub mod menu;
pub mod message;
pub mod screen;
pub mod snap;
pub mod state;
pub mod store;

pub use message::{
    handle_list_message, send_message, AppMessageDict, SubscriptionEvent, TaconiteMessageKey,
};
pub use screen::{message_received, push_screen, ScreenCtx, ScreenMessageCtx};
pub use state::State;
pub use store::{MutableState, Shared};
