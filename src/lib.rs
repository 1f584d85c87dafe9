//! Authentication negotiation and media accessors for a message-platform client.

pub mod auth;
pub mod config;
pub mod media;
pub mod session;

pub use auth::{
    AuthAction, AuthEngine, AuthError, AuthEvent, AuthStage, Authentication, ChallengeKind,
    DeviceLockVerification, LoginReply, Password, Persistence, MAX_DECISIONS,
};
pub use config::{DeviceSource, ShowSlider};
pub use media::{FlashImage, FriendImage, GroupImage, ImageElement, Mismatch};
pub use session::{FileSessionStore, MemorySessionStore, SessionStore, StoreError};
