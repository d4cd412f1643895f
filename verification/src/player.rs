//! The music player's logic: playback queue state, clock text, docks and
//! panes, navigation, playlist paging and display, authentication and token
//! refresh decisions, identifier keys and small services.

pub mod clock;
pub mod state;
pub mod dock;
pub mod pane;
pub mod nav;
pub mod playlist;
pub mod token;
pub mod auth;
pub mod keys;
pub mod services;
